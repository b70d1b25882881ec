use collector_ngx::attributes::{AttributeValue, IstioAttributes};
use collector_ngx::byte_map::ByteMap;
use collector_ngx::config::{
    collector_conf_set_server, collector_conf_set_source_port, collector_conf_set_source_service,
    collector_conf_set_source_uid, collector_conf_set_topic, ngx_http_collector_create_loc_conf,
    ngx_http_collector_create_main_conf, ngx_http_collector_create_srv_conf, CollectorConfig,
};
use collector_ngx::report::{
    nginmesh_collector_report_handler, nginmesh_set_collector_server_config,
    upstream_response_time_calculation,
};

fn args(value: &str) -> Vec<Vec<u8>> {
    vec![b"directive".to_vec(), value.as_bytes().to_vec()]
}

fn str_attr(a: &IstioAttributes, name: &str) -> Option<Vec<u8>> {
    match a.get(name.as_bytes()) {
        Some(AttributeValue::Str(v)) => Some(v.clone()),
        _ => None,
    }
}

fn int_attr(a: &IstioAttributes, name: &str) -> Option<i64> {
    match a.get(name.as_bytes()) {
        Some(AttributeValue::Int64(n)) => Some(*n),
        _ => None,
    }
}

#[test]
fn upstream_time_sums() {
    assert_eq!(upstream_response_time_calculation(&[]), 0);
    assert_eq!(upstream_response_time_calculation(&[12]), 12);
    assert_eq!(upstream_response_time_calculation(&[12, 30, 5]), 47);
    assert_eq!(
        upstream_response_time_calculation(&[i64::MAX as u64 - 1, 1]),
        i64::MAX
    );
}

#[test]
fn upstream_time_reads_large_times_as_negative() {
    assert_eq!(upstream_response_time_calculation(&[u64::MAX]), -1);
    assert_eq!(upstream_response_time_calculation(&[10, u64::MAX, 5]), 14);
    assert_eq!(upstream_response_time_calculation(&[1u64 << 63]), i64::MIN);
}

#[test]
fn upstream_time_order_and_one_more() {
    let a = upstream_response_time_calculation(&[4, u64::MAX, 9]);
    let b = upstream_response_time_calculation(&[9, 4, u64::MAX]);
    assert_eq!(a, b);
    let c = upstream_response_time_calculation(&[4, u64::MAX, 9, 20]);
    assert_eq!(c, a + 20);
}

#[test]
fn byte_map_insert_get_replace() {
    let mut m: ByteMap<u32> = ByteMap::new();
    assert_eq!(m.len(), 0);
    m.insert(b"a".to_vec(), 1);
    m.insert(b"b".to_vec(), 2);
    assert_eq!(m.get(b"a"), Some(&1));
    assert_eq!(m.get(b"b"), Some(&2));
    assert_eq!(m.get(b"c"), None);
    m.insert(b"a".to_vec(), 3);
    assert_eq!(m.len(), 2);
    assert_eq!(m.get(b"a"), Some(&3));
    assert_eq!(m.position(b"b"), Some(1));
    assert_eq!(m.key_at(0), &b"a".to_vec());
    *m.value_at_mut(1) += 10;
    assert_eq!(m.get(b"b"), Some(&12));
}

#[test]
fn producer_registration() {
    let mut producers: ByteMap<&str> = ByteMap::new();
    let failed: Result<&str, String> = Err("no broker".to_string());
    assert!(!nginmesh_set_collector_server_config(&mut producers, b"broker:9092", failed));
    assert_eq!(producers.len(), 0);
    assert!(nginmesh_set_collector_server_config::<&str, String>(
        &mut producers,
        b"broker:9092",
        Ok("first")
    ));
    assert_eq!(producers.get(b"broker:9092"), Some(&"first"));
    assert!(nginmesh_set_collector_server_config::<&str, String>(
        &mut producers,
        b"broker:9092",
        Ok("second")
    ));
    assert_eq!(producers.get(b"broker:9092"), Some(&"second"));
    assert_eq!(producers.len(), 1);
    let failed_again: Result<&str, String> = Err("down".to_string());
    assert!(!nginmesh_set_collector_server_config(&mut producers, b"broker:9092", failed_again));
    assert_eq!(producers.get(b"broker:9092"), Some(&"second"));
}

#[test]
fn attributes_last_write_wins_and_extend() {
    let mut a = IstioAttributes::new();
    a.insert_string_attribute("request.path", b"/a");
    a.insert_int64_attribute("response.code", 200);
    a.insert_string_attribute("request.path", b"/b");
    assert_eq!(a.len(), 2);
    assert_eq!(str_attr(&a, "request.path"), Some(b"/b".to_vec()));
    let mut b = IstioAttributes::new();
    b.insert_int64_attribute("response.code", 404);
    b.insert_string_attribute("request.method", b"GET");
    a.extend(&b);
    assert_eq!(a.len(), 3);
    assert_eq!(int_attr(&a, "response.code"), Some(404));
    assert_eq!(str_attr(&a, "request.method"), Some(b"GET".to_vec()));
    assert_eq!(a.name_at(2), &b"request.method".to_vec());
}

#[test]
fn srv_conf_attributes_only_set_fields() {
    let mut c = ngx_http_collector_create_srv_conf();
    let mut a = IstioAttributes::new();
    c.process_istio_attr(&mut a);
    assert_eq!(a.len(), 0);
    collector_conf_set_source_service(&args("productpage"), &mut c);
    collector_conf_set_source_port(&args("9080"), &mut c);
    c.process_istio_attr(&mut a);
    assert_eq!(a.len(), 2);
    assert_eq!(str_attr(&a, "source.service"), Some(b"productpage".to_vec()));
    assert_eq!(int_attr(&a, "source.port"), Some(9080));
}

#[test]
fn report_collects_everything() {
    let mut main = ngx_http_collector_create_main_conf();
    let mut producers: ByteMap<u32> = ByteMap::new();
    collector_conf_set_server::<u32, ()>(&args("broker.kafka:9092"), &mut main, &mut producers, Ok(1));
    let mut srv = ngx_http_collector_create_srv_conf();
    collector_conf_set_source_uid(&args("kubernetes://productpage-v1"), &mut srv);
    let mut loc = ngx_http_collector_create_loc_conf();
    collector_conf_set_topic(&args("nginmesh"), &mut loc);

    let mut request = IstioAttributes::new();
    request.insert_string_attribute("request.path", b"/productpage");
    let mut response = IstioAttributes::new();
    response.insert_int64_attribute("response.code", 200);

    let report =
        nginmesh_collector_report_handler(&main, &srv, &loc, &request, &[3, 4], &response);
    assert_eq!(report.server, b"broker.kafka:9092".to_vec());
    assert_eq!(report.topic, b"nginmesh".to_vec());
    assert_eq!(report.attributes.len(), 4);
    assert_eq!(
        str_attr(&report.attributes, "source.uid"),
        Some(b"kubernetes://productpage-v1".to_vec())
    );
    assert_eq!(str_attr(&report.attributes, "request.path"), Some(b"/productpage".to_vec()));
    assert_eq!(int_attr(&report.attributes, "response.duration"), Some(7));
    assert_eq!(int_attr(&report.attributes, "response.code"), Some(200));
}

#[test]
fn report_later_attributes_win() {
    let main = ngx_http_collector_create_main_conf();
    let mut srv = ngx_http_collector_create_srv_conf();
    collector_conf_set_source_uid(&args("from-config"), &mut srv);
    let loc = ngx_http_collector_create_loc_conf();
    let mut request = IstioAttributes::new();
    request.insert_string_attribute("source.uid", b"from-request");
    let mut response = IstioAttributes::new();
    response.insert_int64_attribute("response.duration", 99);
    let report = nginmesh_collector_report_handler(&main, &srv, &loc, &request, &[1], &response);
    assert_eq!(report.server, Vec::<u8>::new());
    assert_eq!(report.topic, Vec::<u8>::new());
    assert_eq!(str_attr(&report.attributes, "source.uid"), Some(b"from-request".to_vec()));
    assert_eq!(int_attr(&report.attributes, "response.duration"), Some(99));
}
