# collector_ngx

The logic of an nginx module of the nginMesh service mesh that reports every
request to a Kafka topic as a set of Istio attributes, verified with Verus.

- `src/config.rs`: the module's per-location, per-server and main
  configurations, the directives that set them, and how a block inherits
  from the enclosing one.
- `src/atoi.rs`: nginx's decimal conversion, used by the `source_port` directive.
- `src/attributes.rs`, `src/byte_map.rs`: the attribute set of a report, and
  the map keyed by byte strings under it and under the producer registry.
- `src/report.rs`: the report of a finished request, the upstream response
  time, and the registration of a collector server's producer.
- `src/laws.rs`: what holds across these functions.
- `app/`: the Kafka producers and the sending of reports.
