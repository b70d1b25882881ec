use vstd::prelude::*;

use crate::attributes::{AttributeValueView, IstioAttributes};
use crate::byte_map::ByteMap;
use crate::bytes::copy_bytes;
use crate::config::{
    str_or_empty,
    str_view,
    srv_conf_attributes,
    CollectorConfig,
    CollectorLocConf,
    CollectorMainConf,
    CollectorSrvConf,
    CollectorSrvConfView,
};
use vstd::string::StringSliceAdditionalSpecFns;

verus! {

/// A response time read as nginx's signed integer: a time of 2^63 or more
/// (such as the all-ones marker of an attempt that got no response) reads
/// as a negative number.
pub open spec fn signed_time(t: u64) -> int {
    if t <= 0x7fff_ffff_ffff_ffffu64 {
        t as int
    } else {
        t as int - 0x1_0000_0000_0000_0000
    }
}

/// The sum of the response times of the upstream attempts, each read as a
/// signed number.
pub open spec fn total_time(times: Seq<u64>) -> int
    decreases times.len(),
{
    if times.len() == 0 {
        0
    } else {
        total_time(times.drop_last()) + signed_time(times.last())
    }
}

/// Adding up the times one after the other never leaves the signed 64-bit range.
pub open spec fn running_totals_fit(times: Seq<u64>) -> bool {
    forall|k: int|
        0 <= k <= times.len() ==> i64::MIN <= #[trigger] total_time(times.take(k)) <= i64::MAX
}

/// The total of the times with one of them taken out, plus that one, is the total.
pub proof fn lemma_total_time_remove(times: Seq<u64>, j: int)
    requires
        0 <= j < times.len(),
    ensures
        total_time(times) == total_time(times.remove(j)) + signed_time(times[j]),
    decreases times.len(),
{
    if j == times.len() - 1 {
        assert(times.remove(j) =~= times.drop_last());
    } else {
        lemma_total_time_remove(times.drop_last(), j);
        assert(times.remove(j).drop_last() =~= times.drop_last().remove(j));
        assert(times.remove(j).last() == times.last());
    }
}

/// Adds up the response times of all upstream attempts of a request, in
/// milliseconds, each read as nginx's signed integer.
pub fn upstream_response_time_calculation(upstream_states: &[u64]) -> (total: i64)
    requires
        running_totals_fit(upstream_states@),
    ensures
        total == total_time(upstream_states@),
{
    let n = upstream_states.len();
    let mut total: i64 = 0;
    let mut i: usize = 0;
    assert(upstream_states@.take(0) =~= Seq::<u64>::empty());
    while i < n
        invariant
            n == upstream_states@.len(),
            i <= n,
            running_totals_fit(upstream_states@),
            total == total_time(upstream_states@.take(i as int)),
        decreases n - i,
    {
        let t = upstream_states[i];
        let reading = t as i64;
        assert(t <= 0x7fff_ffff_ffff_ffffu64 ==> reading == t) by (bit_vector)
            requires
                reading == t as i64,
        ;
        assert(t > 0x7fff_ffff_ffff_ffffu64 ==> reading == t - 0x1_0000_0000_0000_0000) by (bit_vector)
            requires
                reading == t as i64,
        ;
        proof {
            assert(upstream_states@.take(i as int + 1).drop_last() =~= upstream_states@.take(
                i as int,
            ));
            assert(upstream_states@.take(i as int + 1).last() == upstream_states@[i as int]);
            assert(total + reading == total_time(upstream_states@.take(i as int + 1)));
            assert(i64::MIN <= total_time(upstream_states@.take(i as int + 1)) <= i64::MAX);
        }
        total = total + reading;
        i = i + 1;
    }
    assert(upstream_states@.take(n as int) =~= upstream_states@);
    total
}

/// The name of the attribute that carries the upstream response time.
pub open spec fn response_duration_name() -> Seq<u8> {
    "response.duration".spec_bytes()
}

/// The attributes of a report: the server block's settings, then the
/// request's attributes, then the upstream response time, then the
/// response's attributes; a later one wins over an earlier one of the same name.
pub open spec fn report_attributes(
    srv: CollectorSrvConfView,
    request: Map<Seq<u8>, AttributeValueView>,
    duration: int,
    response: Map<Seq<u8>, AttributeValueView>,
) -> Map<Seq<u8>, AttributeValueView> {
    srv_conf_attributes(srv, Map::empty()).union_prefer_right(request).insert(
        response_duration_name(),
        AttributeValueView::Int64(duration as i64),
    ).union_prefer_right(response)
}

/// What a finished request reports, and where it goes: the collector
/// server and the topic.
pub struct CollectorReport {
    pub server: Vec<u8>,
    pub topic: Vec<u8>,
    pub attributes: IstioAttributes,
}

/// Builds the report of a finished request from the configuration in force
/// for it, the attributes taken from the request and from its response, and
/// the response times of its upstream attempts.
pub fn nginmesh_collector_report_handler(
    main_config: &CollectorMainConf,
    srv_conf: &CollectorSrvConf,
    loc_conf: &CollectorLocConf,
    request_attributes: &IstioAttributes,
    upstream_states: &[u64],
    response_attributes: &IstioAttributes,
) -> (report: CollectorReport)
    requires
        request_attributes.wf(),
        response_attributes.wf(),
        running_totals_fit(upstream_states@),
    ensures
        report.topic@ == str_or_empty(str_view(loc_conf.topic)),
        report.server@ == str_or_empty(str_view(main_config.collector_server)),
        report.attributes.wf(),
        report.attributes@ == report_attributes(
            srv_conf@,
            request_attributes@,
            total_time(upstream_states@),
            response_attributes@,
        ),
{
    let topic = match &loc_conf.topic {
        Some(t) => copy_bytes(t.as_slice()),
        None => Vec::new(),
    };
    let server = match &main_config.collector_server {
        Some(s) => copy_bytes(s.as_slice()),
        None => Vec::new(),
    };
    let mut attr = IstioAttributes::new();
    srv_conf.process_istio_attr(&mut attr);
    attr.extend(request_attributes);
    let duration = upstream_response_time_calculation(upstream_states);
    attr.insert_int64_attribute("response.duration", duration);
    attr.extend(response_attributes);
    assert(topic@ =~= str_or_empty(str_view(loc_conf.topic)));
    assert(server@ =~= str_or_empty(str_view(main_config.collector_server)));
    CollectorReport { server, topic, attributes: attr }
}

/// Registers the producer made for a collector server: a producer that was
/// made replaces the one the server had, and a failure to make one changes
/// nothing. Tells whether the producer was registered.
pub fn nginmesh_set_collector_server_config<P, E>(
    producers: &mut ByteMap<P>,
    server: &[u8],
    new_producer: Result<P, E>,
) -> (registered: bool)
    requires
        old(producers).wf(),
    ensures
        final(producers).wf(),
        registered == new_producer is Ok,
        match new_producer {
            Ok(p) => final(producers)@ == old(producers)@.insert(server@, p),
            Err(_) => final(producers)@ == old(producers)@,
        },
{
    match new_producer {
        Ok(p) => {
            producers.insert(copy_bytes(server), p);
            true
        },
        Err(_) => false,
    }
}

} // verus!
