# superpilot

The decision logic of a low-latency observability sidecar, written in Verus
and proved against its contracts.

The sidecar relays TCP connections and UDP datagrams to a target service,
observes HTTP/1, HTTP/2 and QUIC traffic, keeps Prometheus metrics, and can
record traffic events.  The library (`src/`) holds what the sidecar decides:

- `config`: the configuration, its defaults and the `PROXY_MODE`/address
  overrides from the environment.
- `safety`: per-second rate limiting, deterministic sampling and the one-way
  switch that turns the recorder off on latency spikes and memory pressure, with proofs that at
  most the configured number of connections are admitted per second and that
  "one in n" sampling keeps `ceil(len / n)` of `len` calls.
- `recorder`: a bounded event buffer that drops on overflow, and the JSON
  Lines text a flush writes.
- `http1`, `http2`, `quic`: request/status lines, header blocks and their size
  limits, the HTTP/2 preface and frame types, QUIC header detection.
- `tcp`, `udp`: what each read or datagram leads to, and its metrics.
- `push`: the scrape reply head, the push-gateway address and when pushing
  gives up.
- `util`, `text`: byte-size formatting (the exact value of the `f64` result
  computed with integers), clock readings, and the string helpers.
- `metrics`: the Prometheus objects, created, registered and bumped through
  `prometheus`.  Their state is modelled (`MetricsView`: every counter's
  total, the gauges, the labelled counters, the registered names), and every
  function that counts says exactly which metric grows and by how much.
  Counting takes `&mut Metrics`; the program keeps the metrics behind a
  mutex.
- `descriptor_ids`: the FNV-1a ids under which prometheus files the metric
  names and the TCP error labels, worked out byte by byte; they differ, so
  the setup always succeeds and the error kinds are counted apart.

`app/` is the program around it: sockets, threads, files, the YAML
configuration (through serde), and the floating-point histogram observations.
