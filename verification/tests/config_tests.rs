use collector_ngx::byte_map::ByteMap;
use collector_ngx::atoi::{ngx_atoi, NGX_ERROR};
use collector_ngx::config::{
    collector_conf_set_destination_ip, collector_conf_set_destination_service,
    collector_conf_set_destination_uid, collector_conf_set_server, collector_conf_set_source_ip,
    collector_conf_set_source_port, collector_conf_set_source_service,
    collector_conf_set_source_uid, collector_conf_set_topic, ngx_conf_merge_str_value,
    ngx_conf_merge_uint_value, ngx_http_collector_create_loc_conf,
    ngx_http_collector_create_main_conf, ngx_http_collector_create_srv_conf,
    ngx_http_collector_merge_loc_conf, ngx_http_collector_merge_srv_conf, ServerConfig,
    NGX_CONF_UNSET_UINT,
};

fn args(name: &str, value: &str) -> Vec<Vec<u8>> {
    vec![name.as_bytes().to_vec(), value.as_bytes().to_vec()]
}

fn s(v: &str) -> Option<Vec<u8>> {
    Some(v.as_bytes().to_vec())
}

#[test]
fn created_srv_conf_is_unset() {
    let c = ngx_http_collector_create_srv_conf();
    assert_eq!(c.destination_service, None);
    assert_eq!(c.destination_uid, None);
    assert_eq!(c.destination_ip, None);
    assert_eq!(c.source_ip, None);
    assert_eq!(c.source_uid, None);
    assert_eq!(c.source_service, None);
    assert_eq!(c.source_port, NGX_CONF_UNSET_UINT);
}

#[test]
fn init_resets_srv_conf() {
    let mut c = ngx_http_collector_create_srv_conf();
    collector_conf_set_source_ip(&args("collector_source_ip", "10.0.0.1"), &mut c);
    c.source_port = 80;
    c.init();
    assert_eq!(c.source_ip, None);
    assert_eq!(c.source_port, NGX_CONF_UNSET_UINT);
}

#[test]
fn created_loc_and_main_conf_are_unset() {
    let l = ngx_http_collector_create_loc_conf();
    assert_eq!(l.topic, None);
    assert_eq!(l.destination_service, None);
    let m = ngx_http_collector_create_main_conf();
    assert_eq!(m.collector_server, None);
}

#[test]
fn setters_set_one_field_each() {
    let mut c = ngx_http_collector_create_srv_conf();
    collector_conf_set_destination_service(&args("d", "ratings"), &mut c);
    collector_conf_set_destination_uid(&args("d", "kubernetes://ratings-v1"), &mut c);
    collector_conf_set_destination_ip(&args("d", "10.1.2.3"), &mut c);
    collector_conf_set_source_ip(&args("d", "10.4.5.6"), &mut c);
    collector_conf_set_source_uid(&args("d", "kubernetes://productpage-v1"), &mut c);
    collector_conf_set_source_service(&args("d", "productpage"), &mut c);
    collector_conf_set_source_port(&args("d", "9080"), &mut c);
    assert_eq!(c.destination_service, s("ratings"));
    assert_eq!(c.destination_uid, s("kubernetes://ratings-v1"));
    assert_eq!(c.destination_ip, s("10.1.2.3"));
    assert_eq!(c.source_ip, s("10.4.5.6"));
    assert_eq!(c.source_uid, s("kubernetes://productpage-v1"));
    assert_eq!(c.source_service, s("productpage"));
    assert_eq!(c.source_port, 9080);

    let mut l = ngx_http_collector_create_loc_conf();
    collector_conf_set_topic(&args("collector_topic", "nginmesh"), &mut l);
    assert_eq!(l.topic, s("nginmesh"));
    assert_eq!(l.destination_service, None);

    let mut m = ngx_http_collector_create_main_conf();
    let mut producers: ByteMap<u32> = ByteMap::new();
    collector_conf_set_server::<u32, ()>(
        &args("collector_server", "broker.kafka:9092"),
        &mut m,
        &mut producers,
        Ok(7),
    );
    assert_eq!(m.collector_server, s("broker.kafka:9092"));
    assert_eq!(producers.get(b"broker.kafka:9092"), Some(&7));
}

#[test]
fn setter_uses_first_argument_only() {
    let mut l = ngx_http_collector_create_loc_conf();
    let a = vec![b"collector_topic".to_vec(), b"first".to_vec(), b"second".to_vec()];
    collector_conf_set_topic(&a, &mut l);
    assert_eq!(l.topic, s("first"));
}

#[test]
fn bad_port_leaves_port_unset() {
    let mut c = ngx_http_collector_create_srv_conf();
    collector_conf_set_source_port(&args("p", "80"), &mut c);
    assert_eq!(c.source_port, 80);
    collector_conf_set_source_port(&args("p", "8o"), &mut c);
    assert_eq!(c.source_port, NGX_CONF_UNSET_UINT);
    collector_conf_set_source_port(&args("p", ""), &mut c);
    assert_eq!(c.source_port, NGX_CONF_UNSET_UINT);
    collector_conf_set_source_port(&args("p", "-1"), &mut c);
    assert_eq!(c.source_port, NGX_CONF_UNSET_UINT);
}

#[test]
fn atoi_values() {
    assert_eq!(ngx_atoi(b"0"), 0);
    assert_eq!(ngx_atoi(b"007"), 7);
    assert_eq!(ngx_atoi(b"9080"), 9080);
    assert_eq!(ngx_atoi(b"9223372036854775807"), i64::MAX);
}

#[test]
fn atoi_errors() {
    assert_eq!(ngx_atoi(b""), NGX_ERROR);
    assert_eq!(ngx_atoi(b"12a"), NGX_ERROR);
    assert_eq!(ngx_atoi(b" 1"), NGX_ERROR);
    assert_eq!(ngx_atoi(b"+1"), NGX_ERROR);
    assert_eq!(ngx_atoi(b"9223372036854775808"), NGX_ERROR);
    assert_eq!(ngx_atoi(b"99999999999999999999x"), NGX_ERROR);
}

#[test]
fn merge_str_value_cases() {
    let mut c = s("own");
    ngx_conf_merge_str_value(&mut c, &s("parent"), b"default");
    assert_eq!(c, s("own"));
    let mut c = None;
    ngx_conf_merge_str_value(&mut c, &s("parent"), b"default");
    assert_eq!(c, s("parent"));
    let mut c = None;
    ngx_conf_merge_str_value(&mut c, &None, b"default");
    assert_eq!(c, s("default"));
}

#[test]
fn merge_uint_value_cases() {
    let mut c = 5u64;
    ngx_conf_merge_uint_value(&mut c, 7, 0);
    assert_eq!(c, 5);
    let mut c = NGX_CONF_UNSET_UINT;
    ngx_conf_merge_uint_value(&mut c, 7, 0);
    assert_eq!(c, 7);
    let mut c = NGX_CONF_UNSET_UINT;
    ngx_conf_merge_uint_value(&mut c, NGX_CONF_UNSET_UINT, 0);
    assert_eq!(c, 0);
}

#[test]
fn srv_merge_inherits_and_keeps() {
    let mut parent = ngx_http_collector_create_srv_conf();
    collector_conf_set_source_service(&args("d", "parent-svc"), &mut parent);
    collector_conf_set_source_ip(&args("d", "1.1.1.1"), &mut parent);
    collector_conf_set_destination_ip(&args("d", "2.2.2.2"), &mut parent);
    collector_conf_set_source_port(&args("d", "8080"), &mut parent);

    let mut child = ngx_http_collector_create_srv_conf();
    collector_conf_set_source_ip(&args("d", "3.3.3.3"), &mut child);
    ngx_http_collector_merge_srv_conf(&parent, &mut child);

    assert_eq!(child.source_service, s("parent-svc"));
    assert_eq!(child.source_ip, s("3.3.3.3"));
    assert_eq!(child.source_uid, s(""));
    assert_eq!(child.destination_service, s(""));
    assert_eq!(child.destination_uid, s(""));
    // the destination address is not inherited
    assert_eq!(child.destination_ip, None);
    assert_eq!(child.source_port, 8080);
}

#[test]
fn srv_merge_port_default_and_own() {
    let parent = ngx_http_collector_create_srv_conf();
    let mut child = ngx_http_collector_create_srv_conf();
    ngx_http_collector_merge_srv_conf(&parent, &mut child);
    assert_eq!(child.source_port, 0);

    let mut parent = ngx_http_collector_create_srv_conf();
    collector_conf_set_source_port(&args("d", "8080"), &mut parent);
    let mut child = ngx_http_collector_create_srv_conf();
    collector_conf_set_source_port(&args("d", "9090"), &mut child);
    ngx_http_collector_merge_srv_conf(&parent, &mut child);
    assert_eq!(child.source_port, 9090);
}

#[test]
fn srv_merge_twice_is_merge_once() {
    let mut parent = ngx_http_collector_create_srv_conf();
    collector_conf_set_source_uid(&args("d", "uid"), &mut parent);
    let mut child = ngx_http_collector_create_srv_conf();
    ngx_http_collector_merge_srv_conf(&parent, &mut child);
    let once = (child.source_uid.clone(), child.source_ip.clone(), child.source_port);
    ngx_http_collector_merge_srv_conf(&parent, &mut child);
    assert_eq!((child.source_uid.clone(), child.source_ip.clone(), child.source_port), once);
}

#[test]
fn loc_merge_inherits_topic() {
    let mut parent = ngx_http_collector_create_loc_conf();
    collector_conf_set_topic(&args("collector_topic", "mesh"), &mut parent);
    let mut child = ngx_http_collector_create_loc_conf();
    ngx_http_collector_merge_loc_conf(&parent, &mut child);
    assert_eq!(child.topic, s("mesh"));
    assert_eq!(child.destination_service, s(""));

    let mut own = ngx_http_collector_create_loc_conf();
    collector_conf_set_topic(&args("collector_topic", "own"), &mut own);
    ngx_http_collector_merge_loc_conf(&parent, &mut own);
    assert_eq!(own.topic, s("own"));

    let empty_parent = ngx_http_collector_create_loc_conf();
    let mut child = ngx_http_collector_create_loc_conf();
    ngx_http_collector_merge_loc_conf(&empty_parent, &mut child);
    assert_eq!(child.topic, s(""));
}

#[test]
fn server_directive_without_producer() {
    let mut m = ngx_http_collector_create_main_conf();
    let mut producers: ByteMap<u32> = ByteMap::new();
    collector_conf_set_server::<u32, &str>(
        &args("collector_server", "down:9092"),
        &mut m,
        &mut producers,
        Err("unreachable"),
    );
    assert_eq!(m.collector_server, s("down:9092"));
    assert_eq!(producers.len(), 0);
}
