use vstd::prelude::*;

use crate::attributes::AttributeValueView;
use crate::config::{
    merged_loc_conf,
    merged_srv_conf,
    directive_value,
    port_value,
    source_port_name,
    source_service_name,
    srv_conf_attributes,
    unset_loc_conf,
    unset_srv_conf,
    CollectorLocConfView,
    CollectorSrvConfView,
    NGX_CONF_UNSET_UINT,
};
use crate::report::{
    lemma_total_time_remove,
    report_attributes,
    response_duration_name,
    signed_time,
    total_time,
};
use crate::atoi::{all_digits, decimal_value, is_digit};
use vstd::string::StringSliceAdditionalSpecFns;
use vstd::utf8::{is_ascii_chars, is_ascii_chars_encode_utf8};

verus! {

/// A setting that a server block makes itself is never replaced by what it
/// inherits.
pub proof fn law_srv_merge_keeps_own_settings(parent: CollectorSrvConfView, child: CollectorSrvConfView)
    ensures
        ({
            let m = merged_srv_conf(parent, child);
            &&& child.destination_service is Some ==> m.destination_service
                == child.destination_service
            &&& child.destination_uid is Some ==> m.destination_uid == child.destination_uid
            &&& m.destination_ip == child.destination_ip
            &&& child.source_ip is Some ==> m.source_ip == child.source_ip
            &&& child.source_uid is Some ==> m.source_uid == child.source_uid
            &&& child.source_service is Some ==> m.source_service == child.source_service
            &&& child.source_port != NGX_CONF_UNSET_UINT ==> m.source_port == child.source_port
        }),
{
}

/// After inheritance every inherited setting of a server block is set: to its
/// own value, else the enclosing block's, else the default.
pub proof fn law_srv_merge_sets_inherited(parent: CollectorSrvConfView, child: CollectorSrvConfView)
    ensures
        ({
            let m = merged_srv_conf(parent, child);
            &&& m.destination_service is Some
            &&& m.destination_uid is Some
            &&& m.source_ip is Some
            &&& m.source_uid is Some
            &&& m.source_service is Some
            &&& m.source_port != NGX_CONF_UNSET_UINT
        }),
{
}

/// Inheriting twice from the same block changes nothing the second time.
pub proof fn law_srv_merge_idempotent(parent: CollectorSrvConfView, child: CollectorSrvConfView)
    ensures
        merged_srv_conf(parent, merged_srv_conf(parent, child)) == merged_srv_conf(parent, child),
{
}

/// A server block that sets nothing takes the enclosing block's settings,
/// where they are set, but never its destination address.
pub proof fn law_srv_merge_fresh_inherits(parent: CollectorSrvConfView)
    ensures
        ({
            let m = merged_srv_conf(parent, unset_srv_conf());
            &&& parent.destination_service is Some ==> m.destination_service
                == parent.destination_service
            &&& parent.destination_uid is Some ==> m.destination_uid == parent.destination_uid
            &&& m.destination_ip is None
            &&& parent.source_ip is Some ==> m.source_ip == parent.source_ip
            &&& parent.source_uid is Some ==> m.source_uid == parent.source_uid
            &&& parent.source_service is Some ==> m.source_service == parent.source_service
            &&& parent.source_port != NGX_CONF_UNSET_UINT ==> m.source_port == parent.source_port
            &&& parent.source_port == NGX_CONF_UNSET_UINT ==> m.source_port == 0
        }),
{
}

/// A location keeps its own settings, and after inheritance both are set.
pub proof fn law_loc_merge_keeps_and_sets(parent: CollectorLocConfView, child: CollectorLocConfView)
    ensures
        ({
            let m = merged_loc_conf(parent, child);
            &&& child.topic is Some ==> m.topic == child.topic
            &&& child.destination_service is Some ==> m.destination_service
                == child.destination_service
            &&& m.topic is Some
            &&& m.destination_service is Some
        }),
{
}

/// Inheriting twice from the same location changes nothing the second time.
pub proof fn law_loc_merge_idempotent(parent: CollectorLocConfView, child: CollectorLocConfView)
    ensures
        merged_loc_conf(parent, merged_loc_conf(parent, child)) == merged_loc_conf(parent, child),
{
}

/// A location that sets nothing takes the enclosing block's topic, or the
/// empty topic.
pub proof fn law_loc_merge_fresh_inherits(parent: CollectorLocConfView)
    ensures
        ({
            let m = merged_loc_conf(parent, unset_loc_conf());
            &&& parent.topic is Some ==> m.topic == parent.topic
            &&& parent.topic is None ==> m.topic == Some(Seq::<u8>::empty())
        }),
{
}

/// What a directive sets in a server block survives the block's inheritance.
pub proof fn law_srv_directive_survives_merge(
    parent: CollectorSrvConfView,
    child: CollectorSrvConfView,
    value: Seq<u8>,
    port_arg: Seq<u8>,
)
    requires
        port_value(port_arg) != NGX_CONF_UNSET_UINT,
    ensures
        merged_srv_conf(parent, CollectorSrvConfView { source_service: Some(value), ..child }).source_service
            == Some(value),
        merged_srv_conf(parent, CollectorSrvConfView { source_port: port_value(port_arg), ..child }).source_port
            == port_value(port_arg),
{
}

/// The topic a location's directive sets survives the location's inheritance.
pub proof fn law_loc_directive_survives_merge(
    parent: CollectorLocConfView,
    child: CollectorLocConfView,
    topic: Seq<u8>,
)
    ensures
        merged_loc_conf(parent, CollectorLocConfView { topic: Some(topic), ..child }).topic == Some(
            topic,
        ),
{
}

/// A producer registered for a server is the one found for it afterwards,
/// and the other servers keep theirs.
pub proof fn law_registered_producer_is_found<P>(
    producers: Map<Seq<u8>, P>,
    server: Seq<u8>,
    producer: P,
    other: Seq<u8>,
)
    requires
        other != server,
    ensures
        producers.insert(server, producer).contains_key(server),
        producers.insert(server, producer)[server] == producer,
        producers.insert(server, producer).contains_key(other) == producers.contains_key(other),
        producers.contains_key(other) ==> producers.insert(server, producer)[other]
            == producers[other],
{
}

/// One more upstream attempt adds its time, read as a signed number, to the total.
pub proof fn law_total_time_one_more_attempt(times: Seq<u64>, t: u64)
    ensures
        total_time(times.push(t)) == total_time(times) + signed_time(t),
{
    assert(times.push(t).drop_last() =~= times);
}

/// The total upstream time does not depend on the order of the attempts.
pub proof fn law_total_time_order_free(a: Seq<u64>, b: Seq<u64>)
    requires
        a.to_multiset() == b.to_multiset(),
    ensures
        total_time(a) == total_time(b),
    decreases a.len(),
{
    broadcast use vstd::multiset::group_multiset_axioms;

    a.to_multiset_ensures();
    b.to_multiset_ensures();
    if a.len() == 0 {
        assert(b.len() == 0);
    } else {
        let x = a.last();
        let rest = a.drop_last();
        assert(rest.push(x) =~= a);
        rest.to_multiset_ensures();
        assert(a.to_multiset().count(x) > 0);
        assert(b.contains(x));
        let j = choose|j: int| 0 <= j < b.len() && b[j] == x;
        assert(b.remove(j).to_multiset() =~= rest.to_multiset());
        law_total_time_order_free(rest, b.remove(j));
        lemma_total_time_remove(b, j);
    }
}

/// The attribute names that the laws tell apart have different lengths.
proof fn lemma_name_lengths()
    ensures
        source_service_name().len() == 14,
        source_port_name().len() == 11,
        response_duration_name().len() == 17,
{
    reveal_strlit("source.service");
    reveal_strlit("source.port");
    reveal_strlit("response.duration");
    assert(is_ascii_chars("source.service"@));
    assert(is_ascii_chars("source.port"@));
    assert(is_ascii_chars("response.duration"@));
    is_ascii_chars_encode_utf8("source.service"@);
    is_ascii_chars_encode_utf8("source.port"@);
    is_ascii_chars_encode_utf8("response.duration"@);
}

/// A report carries the upstream response time, unless the response's
/// own attributes name it.
pub proof fn law_report_carries_duration(
    srv: CollectorSrvConfView,
    request: Map<Seq<u8>, AttributeValueView>,
    duration: int,
    response: Map<Seq<u8>, AttributeValueView>,
)
    requires
        !response.contains_key(response_duration_name()),
    ensures
        report_attributes(srv, request, duration, response).contains_key(response_duration_name()),
        report_attributes(srv, request, duration, response)[response_duration_name()]
            == AttributeValueView::Int64(duration as i64),
{
}

/// A report carries the source service that the server block sets, unless
/// the request's or the response's own attributes name it.
pub proof fn law_report_carries_source_service(
    srv: CollectorSrvConfView,
    request: Map<Seq<u8>, AttributeValueView>,
    duration: int,
    response: Map<Seq<u8>, AttributeValueView>,
)
    requires
        srv.source_service is Some,
        !request.contains_key(source_service_name()),
        !response.contains_key(source_service_name()),
    ensures
        report_attributes(srv, request, duration, response).contains_key(source_service_name()),
        report_attributes(srv, request, duration, response)[source_service_name()]
            == AttributeValueView::Str(srv.source_service->0),
{
    lemma_name_lengths();
    assert(srv_conf_attributes(srv, Map::empty()).contains_key(source_service_name()));
}

/// The name of each attribute a report can carry from the server block, and
/// of the upstream time, as the bytes of the name.
pub open spec fn attr_name(s: &str) -> Seq<u8> {
    s.spec_bytes()
}

/// No two of the attribute names are the same: they differ in length, or,
/// for the two of fourteen bytes, in their first byte.
proof fn lemma_attribute_names()
    ensures
        attr_name("destination.service").len() == 19,
        attr_name("destination.uid").len() == 15,
        attr_name("destination.ip").len() == 14,
        attr_name("source.ip").len() == 9,
        attr_name("source.uid").len() == 10,
        attr_name("source.service").len() == 14,
        attr_name("source.port").len() == 11,
        attr_name("response.duration").len() == 17,
        attr_name("destination.ip")[0] == 100,
        attr_name("source.service")[0] == 115,
{
    reveal_strlit("destination.service");
    reveal_strlit("destination.uid");
    reveal_strlit("destination.ip");
    reveal_strlit("source.ip");
    reveal_strlit("source.uid");
    reveal_strlit("source.service");
    reveal_strlit("source.port");
    reveal_strlit("response.duration");
    assert(is_ascii_chars("destination.service"@));
    assert(is_ascii_chars("destination.uid"@));
    assert(is_ascii_chars("destination.ip"@));
    assert(is_ascii_chars("source.ip"@));
    assert(is_ascii_chars("source.uid"@));
    assert(is_ascii_chars("source.service"@));
    assert(is_ascii_chars("source.port"@));
    assert(is_ascii_chars("response.duration"@));
    is_ascii_chars_encode_utf8("destination.service"@);
    is_ascii_chars_encode_utf8("destination.uid"@);
    is_ascii_chars_encode_utf8("destination.ip"@);
    is_ascii_chars_encode_utf8("source.ip"@);
    is_ascii_chars_encode_utf8("source.uid"@);
    is_ascii_chars_encode_utf8("source.service"@);
    is_ascii_chars_encode_utf8("source.port"@);
    is_ascii_chars_encode_utf8("response.duration"@);
}

/// The names under which a server block's settings go.
pub open spec fn is_srv_attribute_name(k: Seq<u8>) -> bool {
    ||| k == attr_name("destination.service")
    ||| k == attr_name("destination.uid")
    ||| k == attr_name("destination.ip")
    ||| k == attr_name("source.ip")
    ||| k == attr_name("source.uid")
    ||| k == attr_name("source.service")
    ||| k == attr_name("source.port")
}

/// `r` holds under `k` just what `m` held there.
pub open spec fn keeps_key(r: Map<Seq<u8>, AttributeValueView>, m: Map<Seq<u8>, AttributeValueView>, k: Seq<u8>) -> bool {
    &&& r.contains_key(k) == m.contains_key(k)
    &&& m.contains_key(k) ==> r[k] == m[k]
}

/// A string setting is stored in `r` under `name`: a set one as its own
/// value, while an unset one leaves what `m` held there.
pub open spec fn setting_stored(
    r: Map<Seq<u8>, AttributeValueView>,
    m: Map<Seq<u8>, AttributeValueView>,
    name: Seq<u8>,
    s: Option<Seq<u8>>,
) -> bool {
    match s {
        Some(v) => r.contains_key(name) && r[name] == AttributeValueView::Str(v),
        None => keeps_key(r, m, name),
    }
}

/// Each setting of a server block lands under its own attribute name with
/// its own value, whatever the other settings hold: every string that is
/// set, and the source port where it fits a signed 64-bit number. Every
/// other attribute stays as it was.
pub proof fn law_srv_attributes_each_setting(c: CollectorSrvConfView, m: Map<Seq<u8>, AttributeValueView>)
    ensures
        ({
            let r = srv_conf_attributes(c, m);
            &&& setting_stored(r, m, attr_name("destination.service"), c.destination_service)
            &&& setting_stored(r, m, attr_name("destination.uid"), c.destination_uid)
            &&& setting_stored(r, m, attr_name("destination.ip"), c.destination_ip)
            &&& setting_stored(r, m, attr_name("source.ip"), c.source_ip)
            &&& setting_stored(r, m, attr_name("source.uid"), c.source_uid)
            &&& setting_stored(r, m, attr_name("source.service"), c.source_service)
            &&& c.source_port <= i64::MAX ==> r.contains_key(attr_name("source.port"))
                && r[attr_name("source.port")] == AttributeValueView::Int64(c.source_port as i64)
            &&& c.source_port > i64::MAX ==> keeps_key(r, m, attr_name("source.port"))
            &&& forall|k: Seq<u8>| !is_srv_attribute_name(k) ==> #[trigger] keeps_key(r, m, k)
        }),
{
    lemma_attribute_names();
}

/// A string setting after inheritance: the block's own value, else the
/// enclosing block's, else the empty string.
pub open spec fn inherits(merged: Option<Seq<u8>>, own: Option<Seq<u8>>, parent: Option<Seq<u8>>) -> bool {
    &&& own is Some ==> merged == own
    &&& own is None && parent is Some ==> merged == parent
    &&& own is None && parent is None ==> merged == Some(Seq::<u8>::empty())
}

/// Each setting of a server block inherits on its own, whatever the block's
/// other settings hold; the destination address does not inherit, and the
/// source port inherits with 0 as default.
pub proof fn law_srv_merge_each_setting(parent: CollectorSrvConfView, child: CollectorSrvConfView)
    ensures
        ({
            let m = merged_srv_conf(parent, child);
            &&& inherits(m.destination_service, child.destination_service, parent.destination_service)
            &&& inherits(m.destination_uid, child.destination_uid, parent.destination_uid)
            &&& m.destination_ip == child.destination_ip
            &&& inherits(m.source_ip, child.source_ip, parent.source_ip)
            &&& inherits(m.source_uid, child.source_uid, parent.source_uid)
            &&& inherits(m.source_service, child.source_service, parent.source_service)
            &&& child.source_port != NGX_CONF_UNSET_UINT ==> m.source_port == child.source_port
            &&& child.source_port == NGX_CONF_UNSET_UINT && parent.source_port
                != NGX_CONF_UNSET_UINT ==> m.source_port == parent.source_port
            &&& child.source_port == NGX_CONF_UNSET_UINT && parent.source_port
                == NGX_CONF_UNSET_UINT ==> m.source_port == 0
        }),
{
}

/// Each setting of a location inherits on its own.
pub proof fn law_loc_merge_each_setting(parent: CollectorLocConfView, child: CollectorLocConfView)
    ensures
        ({
            let m = merged_loc_conf(parent, child);
            &&& inherits(m.topic, child.topic, parent.topic)
            &&& inherits(m.destination_service, child.destination_service, parent.destination_service)
        }),
{
}

/// The value a directive sets is its first argument, whole, byte for byte.
pub proof fn law_directive_value_is_first_argument(args: Seq<Vec<u8>>)
    requires
        args.len() >= 2,
    ensures
        directive_value(args).len() == args[1]@.len(),
        forall|i: int| 0 <= i < args[1]@.len() ==> #[trigger] directive_value(args)[i] == args[1]@[i],
        directive_value(args) == args[1]@,
{
}

/// A port of one decimal digit is that digit's value.
pub proof fn law_port_value_one_digit(d: u8)
    requires
        48 <= d <= 57,
    ensures
        port_value(seq![d]) == d - 48,
{
    let t = seq![d];
    assert(t.drop_last() =~= Seq::<u8>::empty());
    assert(t.last() == d);
    assert(decimal_value(t.drop_last()) == 0);
    assert(decimal_value(t) == d - 48);
    assert(all_digits(t));
}

/// Writing one more digit after a readable port multiplies it by ten and
/// adds the digit, while the value fits a signed 64-bit number; past that,
/// the port is unset.
pub proof fn law_port_value_next_digit(s: Seq<u8>, d: u8)
    requires
        48 <= d <= 57,
        port_value(s) != NGX_CONF_UNSET_UINT,
    ensures
        port_value(s) * 10 + (d - 48) <= i64::MAX ==> port_value(s.push(d)) == port_value(s) * 10
            + (d - 48),
        port_value(s) * 10 + (d - 48) > i64::MAX ==> port_value(s.push(d)) == NGX_CONF_UNSET_UINT,
{
    let t = s.push(d);
    assert(t.drop_last() =~= s);
    assert(all_digits(t)) by {
        assert forall|i: int| 0 <= i < t.len() implies is_digit(#[trigger] t[i]) by {
            if i < s.len() {
                assert(t[i] == s[i]);
            }
        }
    }
}

/// An empty argument, or one with a byte that is not a decimal digit, leaves
/// the port unset.
pub proof fn law_port_value_rejects(arg: Seq<u8>)
    requires
        arg.len() == 0 || exists|i: int| 0 <= i < arg.len() && !(48 <= #[trigger] arg[i] <= 57),
    ensures
        port_value(arg) == NGX_CONF_UNSET_UINT,
{
}

/// An attribute of the server block is in the report with the same value,
/// unless the request or the response carries its name.
pub proof fn law_report_carries_srv_attributes(
    srv: CollectorSrvConfView,
    request: Map<Seq<u8>, AttributeValueView>,
    duration: int,
    response: Map<Seq<u8>, AttributeValueView>,
    k: Seq<u8>,
)
    requires
        !request.contains_key(k),
        !response.contains_key(k),
        k != attr_name("response.duration"),
    ensures
        keeps_key(report_attributes(srv, request, duration, response), srv_conf_attributes(srv, Map::empty()), k),
{
}

/// The response's attributes always win in a report, and the request's win
/// over the server block's where the response and the upstream time do not
/// take their name.
pub proof fn law_report_later_attributes_win(
    srv: CollectorSrvConfView,
    request: Map<Seq<u8>, AttributeValueView>,
    duration: int,
    response: Map<Seq<u8>, AttributeValueView>,
    k: Seq<u8>,
)
    ensures
        response.contains_key(k) ==> report_attributes(srv, request, duration, response).contains_key(k)
            && report_attributes(srv, request, duration, response)[k] == response[k],
        !response.contains_key(k) && request.contains_key(k) && k != attr_name("response.duration")
            ==> report_attributes(srv, request, duration, response).contains_key(k)
            && report_attributes(srv, request, duration, response)[k] == request[k],
{
}

/// The destination address that a server block sets is in the report, unless
/// the request or the response carries that name.
pub proof fn law_report_carries_destination_ip(
    srv: CollectorSrvConfView,
    request: Map<Seq<u8>, AttributeValueView>,
    duration: int,
    response: Map<Seq<u8>, AttributeValueView>,
)
    requires
        srv.destination_ip is Some,
        !request.contains_key(attr_name("destination.ip")),
        !response.contains_key(attr_name("destination.ip")),
    ensures
        report_attributes(srv, request, duration, response).contains_key(attr_name("destination.ip")),
        report_attributes(srv, request, duration, response)[attr_name("destination.ip")]
            == AttributeValueView::Str(srv.destination_ip->0),
{
    lemma_attribute_names();
    law_srv_attributes_each_setting(srv, Map::empty());
    law_report_carries_srv_attributes(srv, request, duration, response, attr_name("destination.ip"));
}

} // verus!
