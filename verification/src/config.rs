use vstd::prelude::*;

use crate::atoi::{ngx_atoi, spec_ngx_atoi};
use crate::attributes::{AttributeValueView, IstioAttributes};
use crate::byte_map::ByteMap;
use crate::bytes::copy_bytes;
use crate::report::nginmesh_set_collector_server_config;
use vstd::string::StringSliceAdditionalSpecFns;

verus! {

/// The value of an unsigned configuration number that no directive has set.
pub const NGX_CONF_UNSET_UINT: u64 = 0xffff_ffff_ffff_ffff;

/// A configuration string: `None` while no directive has set it.
pub open spec fn str_view(s: Option<Vec<u8>>) -> Option<Seq<u8>> {
    match s {
        Some(v) => Some(v@),
        None => None,
    }
}

/// The bytes of a configuration string; an unset string reads as empty.
pub open spec fn str_or_empty(s: Option<Seq<u8>>) -> Seq<u8> {
    match s {
        Some(v) => v,
        None => Seq::empty(),
    }
}

/// Inheritance of a string: a value set here stays, an unset one takes the
/// enclosing level's value, and the default when that is unset too.
pub open spec fn merge_str(conf: Option<Seq<u8>>, prev: Option<Seq<u8>>, default: Seq<u8>) -> Option<
    Seq<u8>,
> {
    if conf is Some {
        conf
    } else if prev is Some {
        prev
    } else {
        Some(default)
    }
}

/// Inheritance of an unsigned number, with `NGX_CONF_UNSET_UINT` for unset.
pub open spec fn merge_uint(conf: u64, prev: u64, default: u64) -> u64 {
    if conf != NGX_CONF_UNSET_UINT {
        conf
    } else if prev != NGX_CONF_UNSET_UINT {
        prev
    } else {
        default
    }
}

/// The collector's per-location configuration.
pub struct CollectorLocConf {
    pub topic: Option<Vec<u8>>,
    pub destination_service: Option<Vec<u8>>,
}

/// The collector's per-server configuration.
pub struct CollectorSrvConf {
    pub destination_service: Option<Vec<u8>>,
    pub destination_uid: Option<Vec<u8>>,
    pub destination_ip: Option<Vec<u8>>,
    pub source_ip: Option<Vec<u8>>,
    pub source_uid: Option<Vec<u8>>,
    pub source_service: Option<Vec<u8>>,
    pub source_port: u64,
}

/// The collector's configuration for the whole http block.
pub struct CollectorMainConf {
    pub collector_server: Option<Vec<u8>>,
}

pub struct CollectorLocConfView {
    pub topic: Option<Seq<u8>>,
    pub destination_service: Option<Seq<u8>>,
}

pub struct CollectorSrvConfView {
    pub destination_service: Option<Seq<u8>>,
    pub destination_uid: Option<Seq<u8>>,
    pub destination_ip: Option<Seq<u8>>,
    pub source_ip: Option<Seq<u8>>,
    pub source_uid: Option<Seq<u8>>,
    pub source_service: Option<Seq<u8>>,
    pub source_port: u64,
}

pub struct CollectorMainConfView {
    pub collector_server: Option<Seq<u8>>,
}

impl View for CollectorLocConf {
    type V = CollectorLocConfView;

    open spec fn view(&self) -> CollectorLocConfView {
        CollectorLocConfView {
            topic: str_view(self.topic),
            destination_service: str_view(self.destination_service),
        }
    }
}

impl View for CollectorSrvConf {
    type V = CollectorSrvConfView;

    open spec fn view(&self) -> CollectorSrvConfView {
        CollectorSrvConfView {
            destination_service: str_view(self.destination_service),
            destination_uid: str_view(self.destination_uid),
            destination_ip: str_view(self.destination_ip),
            source_ip: str_view(self.source_ip),
            source_uid: str_view(self.source_uid),
            source_service: str_view(self.source_service),
            source_port: self.source_port,
        }
    }
}

impl View for CollectorMainConf {
    type V = CollectorMainConfView;

    open spec fn view(&self) -> CollectorMainConfView {
        CollectorMainConfView { collector_server: str_view(self.collector_server) }
    }
}

/// A per-server configuration that no directive has touched.
pub open spec fn unset_srv_conf() -> CollectorSrvConfView {
    CollectorSrvConfView {
        destination_service: None,
        destination_uid: None,
        destination_ip: None,
        source_ip: None,
        source_uid: None,
        source_service: None,
        source_port: NGX_CONF_UNSET_UINT,
    }
}

/// A per-location configuration that no directive has touched.
pub open spec fn unset_loc_conf() -> CollectorLocConfView {
    CollectorLocConfView { topic: None, destination_service: None }
}

/// A main configuration that no directive has touched.
pub open spec fn unset_main_conf() -> CollectorMainConfView {
    CollectorMainConfView { collector_server: None }
}

/// A server block's configuration after it inherits from the enclosing one:
/// every string but the destination address inherits, with the empty string
/// as default, and the source port inherits with default 0.
pub open spec fn merged_srv_conf(parent: CollectorSrvConfView, child: CollectorSrvConfView) -> CollectorSrvConfView {
    CollectorSrvConfView {
        destination_service: merge_str(
            child.destination_service,
            parent.destination_service,
            Seq::empty(),
        ),
        destination_uid: merge_str(child.destination_uid, parent.destination_uid, Seq::empty()),
        destination_ip: child.destination_ip,
        source_ip: merge_str(child.source_ip, parent.source_ip, Seq::empty()),
        source_uid: merge_str(child.source_uid, parent.source_uid, Seq::empty()),
        source_service: merge_str(child.source_service, parent.source_service, Seq::empty()),
        source_port: merge_uint(child.source_port, parent.source_port, 0),
    }
}

/// A location's configuration after it inherits from the enclosing one, with
/// the empty string as default.
pub open spec fn merged_loc_conf(parent: CollectorLocConfView, child: CollectorLocConfView) -> CollectorLocConfView {
    CollectorLocConfView {
        topic: merge_str(child.topic, parent.topic, Seq::empty()),
        destination_service: merge_str(
            child.destination_service,
            parent.destination_service,
            Seq::empty(),
        ),
    }
}

/// The value a directive gives: its first argument after the directive's name.
pub open spec fn directive_value(args: Seq<Vec<u8>>) -> Seq<u8> {
    args[1]@
}

/// The port number that a `source_port` argument gives: its decimal value, or
/// `NGX_CONF_UNSET_UINT` where nginx cannot read it.
pub open spec fn port_value(arg: Seq<u8>) -> u64 {
    if spec_ngx_atoi(arg) >= 0 {
        spec_ngx_atoi(arg) as u64
    } else {
        NGX_CONF_UNSET_UINT
    }
}

/// A copy of a configuration string.
pub fn copy_str(s: &Option<Vec<u8>>) -> (r: Option<Vec<u8>>)
    ensures
        str_view(r) == str_view(*s),
{
    match s {
        Some(v) => Some(copy_bytes(v.as_slice())),
        None => None,
    }
}

/// Lets a string that no directive set inherit `prev`, or `default`.
pub fn ngx_conf_merge_str_value(conf: &mut Option<Vec<u8>>, prev: &Option<Vec<u8>>, default: &[u8])
    ensures
        str_view(*final(conf)) == merge_str(str_view(*old(conf)), str_view(*prev), default@),
{
    if conf.is_none() {
        if prev.is_some() {
            *conf = copy_str(prev);
        } else {
            *conf = Some(copy_bytes(default));
        }
    }
}

/// Lets a number that no directive set inherit `prev`, or `default`.
pub fn ngx_conf_merge_uint_value(conf: &mut u64, prev: u64, default: u64)
    ensures
        *final(conf) == merge_uint(*old(conf), prev, default),
{
    if *conf == NGX_CONF_UNSET_UINT {
        if prev == NGX_CONF_UNSET_UINT {
            *conf = default;
        } else {
            *conf = prev;
        }
    }
}

/// A configuration block that starts out in a known state.
pub trait ServerConfig: Sized {
    /// Puts the block into its starting state; by default it is left as it is.
    fn init(&mut self)
        default_ensures
            *final(self) == *old(self),
    {
    }
}

impl ServerConfig for CollectorSrvConf {
    /// Marks every setting as not set by any directive.
    fn init(&mut self)
        ensures
            final(self)@ == unset_srv_conf(),
    {
        self.destination_service = None;
        self.destination_uid = None;
        self.destination_ip = None;
        self.source_ip = None;
        self.source_uid = None;
        self.source_service = None;
        self.source_port = NGX_CONF_UNSET_UINT;
    }
}

/// Creates a server block's configuration, with nothing set.
pub fn ngx_http_collector_create_srv_conf() -> (conf: CollectorSrvConf)
    ensures
        conf@ == unset_srv_conf(),
{
    let mut conf = CollectorSrvConf {
        destination_service: None,
        destination_uid: None,
        destination_ip: None,
        source_ip: None,
        source_uid: None,
        source_service: None,
        source_port: 0,
    };
    conf.init();
    conf
}

/// Creates a location's configuration, with nothing set.
pub fn ngx_http_collector_create_loc_conf() -> (conf: CollectorLocConf)
    ensures
        conf@ == unset_loc_conf(),
{
    CollectorLocConf { topic: None, destination_service: None }
}

/// Creates the main configuration, with nothing set.
pub fn ngx_http_collector_create_main_conf() -> (conf: CollectorMainConf)
    ensures
        conf@ == unset_main_conf(),
{
    CollectorMainConf { collector_server: None }
}

/// Lets a server block inherit what it does not set from the enclosing block.
pub fn ngx_http_collector_merge_srv_conf(parent: &CollectorSrvConf, child: &mut CollectorSrvConf)
    ensures
        final(child)@ == merged_srv_conf(parent@, old(child)@),
{
    let empty: Vec<u8> = Vec::new();
    ngx_conf_merge_str_value(
        &mut child.destination_service,
        &parent.destination_service,
        empty.as_slice(),
    );
    ngx_conf_merge_str_value(&mut child.destination_uid, &parent.destination_uid, empty.as_slice());
    ngx_conf_merge_str_value(&mut child.source_ip, &parent.source_ip, empty.as_slice());
    ngx_conf_merge_str_value(&mut child.source_uid, &parent.source_uid, empty.as_slice());
    ngx_conf_merge_str_value(&mut child.source_service, &parent.source_service, empty.as_slice());
    ngx_conf_merge_uint_value(&mut child.source_port, parent.source_port, 0);
}

/// Lets a location inherit what it does not set from the enclosing block.
pub fn ngx_http_collector_merge_loc_conf(parent: &CollectorLocConf, child: &mut CollectorLocConf)
    ensures
        final(child)@ == merged_loc_conf(parent@, old(child)@),
{
    let empty: Vec<u8> = Vec::new();
    ngx_conf_merge_str_value(&mut child.topic, &parent.topic, empty.as_slice());
    ngx_conf_merge_str_value(
        &mut child.destination_service,
        &parent.destination_service,
        empty.as_slice(),
    );
}

/// The value of a directive's first argument, copied.
fn directive_arg(args: &Vec<Vec<u8>>) -> (r: Vec<u8>)
    requires
        args@.len() >= 2,
    ensures
        r@ == directive_value(args@),
{
    copy_bytes(args[1].as_slice())
}

/// The `collector_topic` directive: sets the location's topic.
pub fn collector_conf_set_topic(args: &Vec<Vec<u8>>, loc_conf: &mut CollectorLocConf)
    requires
        args@.len() >= 2,
    ensures
        final(loc_conf)@ == (CollectorLocConfView {
            topic: Some(directive_value(args@)),
            ..old(loc_conf)@
        }),
{
    loc_conf.topic = Some(directive_arg(args));
}

/// The `collector_server` directive: sets the address of the collector
/// server, and registers `new_producer`, the outcome of making a producer for
/// that server, as `nginmesh_set_collector_server_config` does.
pub fn collector_conf_set_server<P, E>(
    args: &Vec<Vec<u8>>,
    main_conf: &mut CollectorMainConf,
    producers: &mut ByteMap<P>,
    new_producer: Result<P, E>,
)
    requires
        args@.len() >= 2,
        old(producers).wf(),
    ensures
        final(main_conf)@ == (CollectorMainConfView {
            collector_server: Some(directive_value(args@)),
        }),
        final(producers).wf(),
        match new_producer {
            Ok(p) => final(producers)@ == old(producers)@.insert(directive_value(args@), p),
            Err(_) => final(producers)@ == old(producers)@,
        },
{
    main_conf.collector_server = Some(directive_arg(args));
    nginmesh_set_collector_server_config(producers, args[1].as_slice(), new_producer);
}

/// The `collector_destination_service` directive.
pub fn collector_conf_set_destination_service(args: &Vec<Vec<u8>>, srv_conf: &mut CollectorSrvConf)
    requires
        args@.len() >= 2,
    ensures
        final(srv_conf)@ == (CollectorSrvConfView {
            destination_service: Some(directive_value(args@)),
            ..old(srv_conf)@
        }),
{
    srv_conf.destination_service = Some(directive_arg(args));
}

/// The `collector_destination_uid` directive.
pub fn collector_conf_set_destination_uid(args: &Vec<Vec<u8>>, srv_conf: &mut CollectorSrvConf)
    requires
        args@.len() >= 2,
    ensures
        final(srv_conf)@ == (CollectorSrvConfView {
            destination_uid: Some(directive_value(args@)),
            ..old(srv_conf)@
        }),
{
    srv_conf.destination_uid = Some(directive_arg(args));
}

/// The `collector_destination_ip` directive.
pub fn collector_conf_set_destination_ip(args: &Vec<Vec<u8>>, srv_conf: &mut CollectorSrvConf)
    requires
        args@.len() >= 2,
    ensures
        final(srv_conf)@ == (CollectorSrvConfView {
            destination_ip: Some(directive_value(args@)),
            ..old(srv_conf)@
        }),
{
    srv_conf.destination_ip = Some(directive_arg(args));
}

/// The `collector_source_ip` directive.
pub fn collector_conf_set_source_ip(args: &Vec<Vec<u8>>, srv_conf: &mut CollectorSrvConf)
    requires
        args@.len() >= 2,
    ensures
        final(srv_conf)@ == (CollectorSrvConfView {
            source_ip: Some(directive_value(args@)),
            ..old(srv_conf)@
        }),
{
    srv_conf.source_ip = Some(directive_arg(args));
}

/// The `collector_source_uid` directive.
pub fn collector_conf_set_source_uid(args: &Vec<Vec<u8>>, srv_conf: &mut CollectorSrvConf)
    requires
        args@.len() >= 2,
    ensures
        final(srv_conf)@ == (CollectorSrvConfView {
            source_uid: Some(directive_value(args@)),
            ..old(srv_conf)@
        }),
{
    srv_conf.source_uid = Some(directive_arg(args));
}

/// The `collector_source_service` directive.
pub fn collector_conf_set_source_service(args: &Vec<Vec<u8>>, srv_conf: &mut CollectorSrvConf)
    requires
        args@.len() >= 2,
    ensures
        final(srv_conf)@ == (CollectorSrvConfView {
            source_service: Some(directive_value(args@)),
            ..old(srv_conf)@
        }),
{
    srv_conf.source_service = Some(directive_arg(args));
}

/// The `collector_source_port` directive: the port is read as a decimal
/// number; an argument that is not one leaves the port unset.
pub fn collector_conf_set_source_port(args: &Vec<Vec<u8>>, srv_conf: &mut CollectorSrvConf)
    requires
        args@.len() >= 2,
    ensures
        final(srv_conf)@ == (CollectorSrvConfView {
            source_port: port_value(directive_value(args@)),
            ..old(srv_conf)@
        }),
{
    let n = ngx_atoi(args[1].as_slice());
    if n >= 0 {
        srv_conf.source_port = n as u64;
    } else {
        srv_conf.source_port = NGX_CONF_UNSET_UINT;
    }
}

/// A configuration that contributes attributes to a report.
pub trait CollectorConfig {
    fn process_istio_attr(&self, attr: &mut IstioAttributes)
        requires
            old(attr).wf(),
        ensures
            final(attr).wf(),
    ;
}

/// The attribute names that the per-server configuration fills.
pub open spec fn destination_service_name() -> Seq<u8> {
    "destination.service".spec_bytes()
}

pub open spec fn destination_uid_name() -> Seq<u8> {
    "destination.uid".spec_bytes()
}

pub open spec fn destination_ip_name() -> Seq<u8> {
    "destination.ip".spec_bytes()
}

pub open spec fn source_ip_name() -> Seq<u8> {
    "source.ip".spec_bytes()
}

pub open spec fn source_uid_name() -> Seq<u8> {
    "source.uid".spec_bytes()
}

pub open spec fn source_service_name() -> Seq<u8> {
    "source.service".spec_bytes()
}

pub open spec fn source_port_name() -> Seq<u8> {
    "source.port".spec_bytes()
}

/// Stores a string setting under `name` where it is set.
pub open spec fn put_str(m: Map<Seq<u8>, AttributeValueView>, name: Seq<u8>, s: Option<Seq<u8>>) -> Map<
    Seq<u8>,
    AttributeValueView,
> {
    match s {
        Some(v) => m.insert(name, AttributeValueView::Str(v)),
        None => m,
    }
}

/// The attributes after a per-server configuration adds its settings: each
/// string that is set, and the source port where it is set and fits a signed
/// 64-bit number.
pub open spec fn srv_conf_attributes(c: CollectorSrvConfView, m: Map<Seq<u8>, AttributeValueView>) -> Map<
    Seq<u8>,
    AttributeValueView,
> {
    let m1 = put_str(m, destination_service_name(), c.destination_service);
    let m2 = put_str(m1, destination_uid_name(), c.destination_uid);
    let m3 = put_str(m2, destination_ip_name(), c.destination_ip);
    let m4 = put_str(m3, source_ip_name(), c.source_ip);
    let m5 = put_str(m4, source_uid_name(), c.source_uid);
    let m6 = put_str(m5, source_service_name(), c.source_service);
    if c.source_port <= 0x7fff_ffff_ffff_ffffu64 {
        m6.insert(source_port_name(), AttributeValueView::Int64(c.source_port as i64))
    } else {
        m6
    }
}

/// Stores a string setting under `name` where it is set.
fn put_str_attribute(attr: &mut IstioAttributes, name: &str, s: &Option<Vec<u8>>)
    requires
        old(attr).wf(),
    ensures
        final(attr).wf(),
        final(attr)@ == put_str(old(attr)@, name.spec_bytes(), str_view(*s)),
{
    match s {
        Some(v) => attr.insert_string_attribute(name, v.as_slice()),
        None => {},
    }
}

impl CollectorConfig for CollectorSrvConf {
    /// Adds the settings of this server block as Istio attributes.
    fn process_istio_attr(&self, attr: &mut IstioAttributes)
        ensures
            final(attr)@ == srv_conf_attributes(self@, old(attr)@),
    {
        put_str_attribute(attr, "destination.service", &self.destination_service);
        put_str_attribute(attr, "destination.uid", &self.destination_uid);
        put_str_attribute(attr, "destination.ip", &self.destination_ip);
        put_str_attribute(attr, "source.ip", &self.source_ip);
        put_str_attribute(attr, "source.uid", &self.source_uid);
        put_str_attribute(attr, "source.service", &self.source_service);
        if self.source_port <= 0x7fff_ffff_ffff_ffffu64 {
            attr.insert_int64_attribute("source.port", self.source_port as i64);
        }
    }
}

} // verus!
