//! The Prometheus metrics that the proxy keeps.
//!
//! The counters, gauges and histograms are `prometheus` objects, held whole
//! and reached through the trusted items at the top of this file.  What they
//! hold is named (`counter_total`, `gauge_level`, `family_totals`,
//! `registered_names`, ...), and `Metrics@` gathers it into a `MetricsView`.
//! Every change goes through `&mut`, so each counting function states the
//! view after it.  Observing a histogram takes an `f64` and is left to
//! callers outside the library.

use vstd::prelude::*;
use vstd::utf8::encode_utf8;
use prometheus::{Histogram, Registry};
use crate::descriptor_ids::lemma_metric_descriptor_ids;

verus! {

#[verifier::external_type_specification]
#[verifier::external_body]
pub struct ExHistogram(prometheus::Histogram);

#[verifier::external_type_specification]
#[verifier::external_body]
pub struct ExRegistry(prometheus::Registry);

#[verifier::external_type_specification]
#[verifier::external_body]
pub struct ExPrometheusError(prometheus::Error);

#[verifier::external_type_specification]
#[verifier::external_body]
pub struct ExMetricFamily(prometheus::proto::MetricFamily);

/// A counter (`prometheus::IntCounter`).  Its type is generic over a
/// `prometheus` trait that cannot be declared here, so the counter is held
/// whole, in a private field; its name and its total are given by
/// `counter_name` and `counter_total`.
#[verifier::external_body]
pub struct Counter {
    inner: prometheus::IntCounter,
}

/// A gauge (`prometheus::IntGauge`), held whole for the reason given at
/// `Counter`; its name and level are `gauge_name` and `gauge_level`.
#[verifier::external_body]
pub struct Gauge {
    inner: prometheus::IntGauge,
}

/// A family of counters told apart by label values (`prometheus::IntCounterVec`),
/// held whole: its builder type is private to `prometheus`.  What it holds is
/// given by `family_name`, `family_label_count` and `family_totals`.
#[verifier::external_body]
pub struct CounterFamily {
    inner: prometheus::IntCounterVec,
}

/// A family of histograms told apart by label values (`prometheus::HistogramVec`),
/// held whole: its builder type is private to `prometheus`.  Histograms
/// observe floating-point values, which is done outside the library, so the
/// field is open to callers.
#[verifier::external_body]
pub struct HistogramFamily {
    pub inner: prometheus::HistogramVec,
}

/// The fully qualified name a counter was made with (fixed at creation).
pub uninterp spec fn counter_name(c: Counter) -> Seq<char>;

/// The total a counter holds (a `u64` that wraps, as `AtomicU64::fetch_add`
/// does).
pub uninterp spec fn counter_total(c: Counter) -> u64;

/// The fully qualified name a gauge was made with.
pub uninterp spec fn gauge_name(g: Gauge) -> Seq<char>;

/// The level a gauge holds (an `i64` that wraps).
pub uninterp spec fn gauge_level(g: Gauge) -> i64;

/// The fully qualified name a counter family was made with.
pub uninterp spec fn family_name(f: CounterFamily) -> Seq<char>;

/// The number of label names a counter family was made with.
pub uninterp spec fn family_label_count(f: CounterFamily) -> nat;

/// The totals of the counters of a family, by the key `prometheus` files
/// each counter under (see `label_values_key`).
pub uninterp spec fn family_totals(f: CounterFamily) -> Map<u64, u64>;

/// FNV-1a (64 bit) over `bytes`, as the `fnv` crate's `FnvHasher` computes
/// it: from the offset basis `0xcbf29ce484222325`, each byte is xored in and
/// the hash multiplied by the prime `0x100000001b3`, wrapping.
#[verifier::opaque]
pub open spec fn fnv1a(bytes: Seq<u8>) -> u64
    decreases bytes.len(),
{
    if bytes.len() == 0 {
        0xcbf29ce484222325u64
    } else {
        fnv1a_byte(fnv1a(bytes.drop_last()), bytes.last())
    }
}

/// One FNV-1a step: xor the byte in, multiply by the prime (wrapping).
pub open spec fn fnv1a_byte(h: u64, b: u8) -> u64 {
    (((h ^ (b as u64)) as int * 0x100000001b3int) % 0x1_0000_0000_0000_0000int) as u64
}

/// The UTF-8 bytes of each text, one after another.
pub open spec fn joined_bytes(values: Seq<Seq<char>>) -> Seq<u8>
    decreases values.len(),
{
    if values.len() == 0 {
        Seq::empty()
    } else {
        joined_bytes(values.drop_last()) + encode_utf8(values.last())
    }
}

/// The key under which a counter family files the counter for these label
/// values: FNV-1a over the bytes of the values one after another, with no
/// separator (`MetricVecCore::hash_label_values`), so two lists with the same
/// concatenation share a counter.
pub open spec fn label_values_key(values: Seq<Seq<char>>) -> u64 {
    fnv1a(joined_bytes(values))
}

/// The id of the descriptor of a metric named `name` with no constant
/// labels: FNV-1a over the UTF-8 bytes of the name and the separator byte
/// `0xff` (`Desc::new`).
pub open spec fn descriptor_id(name: Seq<char>) -> u64 {
    fnv1a(encode_utf8(name).push(0xffu8))
}

/// The fully qualified name a histogram was made with.
pub uninterp spec fn histogram_name(h: Histogram) -> Seq<char>;

/// The fully qualified name a histogram family was made with.
pub uninterp spec fn histogram_family_name(f: HistogramFamily) -> Seq<char>;

/// The names of the metrics registered in a registry.
pub uninterp spec fn registered_names(r: Registry) -> Set<Seq<char>>;

/// The descriptor ids a registry knows: those of its registered
/// descriptors, the ids under which its collectors are filed, and
/// `descriptor_id(n)` of every name `n` it has met in a registration (the
/// keys of its `dim_hashes_by_name`, refused registrations included).
pub uninterp spec fn known_ids(r: Registry) -> Set<u64>;

/// `a + b` wrapping past `u64::MAX`.
pub open spec fn wrapping_add_u64(a: u64, b: u64) -> u64 {
    ((a + b) % 0x1_0000_0000_0000_0000int) as u64
}

/// `a + d` wrapping within the range of `i64`.
pub open spec fn wrapping_add_i64(a: i64, d: int) -> i64 {
    (((a + d + 0x8000_0000_0000_0000int) % 0x1_0000_0000_0000_0000int) - 0x8000_0000_0000_0000int) as i64
}

/// A character that may open a metric name: an ASCII letter, `_` or `:`.
pub open spec fn metric_name_lead(c: char) -> bool {
    ('a' <= c && c <= 'z') || ('A' <= c && c <= 'Z') || c == '_' || c == ':'
}

/// A character that may open a label name: an ASCII letter or `_`.
pub open spec fn label_name_lead(c: char) -> bool {
    ('a' <= c && c <= 'z') || ('A' <= c && c <= 'Z') || c == '_'
}

/// An ASCII digit.
pub open spec fn ascii_digit(c: char) -> bool {
    '0' <= c && c <= '9'
}

/// A valid metric name: an ASCII letter, `_` or `:`, then any number of
/// ASCII letters, digits, `_` and `:`.
pub open spec fn valid_metric_name(s: Seq<char>) -> bool {
    &&& s.len() > 0
    &&& metric_name_lead(s[0])
    &&& forall|i: int| 1 <= i < s.len() ==> metric_name_lead(#[trigger] s[i]) || ascii_digit(s[i])
}

/// A valid label name: an ASCII letter or `_`, then any number of ASCII
/// letters, digits and `_`.
pub open spec fn valid_label_name(s: Seq<char>) -> bool {
    &&& s.len() > 0
    &&& label_name_lead(s[0])
    &&& forall|i: int| 1 <= i < s.len() ==> label_name_lead(#[trigger] s[i]) || ascii_digit(s[i])
}

/// The label names of a metric family are acceptable: each is a valid label
/// name and no two are the same.
pub open spec fn valid_label_names(labels: Seq<Seq<char>>) -> bool {
    &&& forall|i: int| 0 <= i < labels.len() ==> valid_label_name(#[trigger] labels[i])
    &&& forall|i: int, j: int|
        0 <= i < j < labels.len() ==> #[trigger] labels[i] != #[trigger] labels[j]
}

/// The texts of a list of string slices.
pub open spec fn texts(labels: Seq<&str>) -> Seq<Seq<char>> {
    labels.map_values(|l: &str| l@)
}

/// A single metric (counter, gauge or histogram) can be made with this name
/// and help text: the help text is not empty and the name is valid.
pub open spec fn metric_creatable(name: Seq<char>, help: Seq<char>) -> bool {
    help.len() > 0 && valid_metric_name(name)
}

/// A family of metrics can be made with this name, help text and label
/// names: those of a single metric, and valid, distinct label names.
pub open spec fn family_creatable(name: Seq<char>, help: Seq<char>, labels: Seq<Seq<char>>) -> bool {
    metric_creatable(name, help) && valid_label_names(labels)
}

/// `IntCounter::new(name, help)`: a counter starting at 0.  It is made
/// exactly when the help text is not empty and the name is a valid metric
/// name (the checks of `Desc::new`; the counter has no labels).
#[verifier::external_body]
fn new_int_counter(name: &str, help: &str) -> (r: Result<Counter, prometheus::Error>)
    ensures
        r is Ok <==> metric_creatable(name@, help@),
        r matches Ok(c) ==> counter_name(c) == name@ && counter_total(c) == 0,
{
    prometheus::IntCounter::new(name, help).map(|inner| Counter { inner })
}

/// `IntGauge::new(name, help)`: a gauge starting at 0, made exactly when the
/// help text is not empty and the name is valid (as for `new_int_counter`).
#[verifier::external_body]
fn new_int_gauge(name: &str, help: &str) -> (r: Result<Gauge, prometheus::Error>)
    ensures
        r is Ok <==> metric_creatable(name@, help@),
        r matches Ok(g) ==> gauge_name(g) == name@ && gauge_level(g) == 0,
{
    prometheus::IntGauge::new(name, help).map(|inner| Gauge { inner })
}

/// `IntCounterVec::new(Opts::new(name, help), labels)`: a family of counters
/// keyed by the values of `labels`.  It is made exactly when `Desc::new`
/// accepts the name, the help text and the label names: help not empty, a
/// valid metric name, valid and distinct label names.
#[verifier::external_body]
fn new_int_counter_vec(name: &str, help: &str, labels: &[&str]) -> (r: Result<
    CounterFamily,
    prometheus::Error,
>)
    ensures
        r is Ok <==> family_creatable(name@, help@, texts(labels@)),
        r matches Ok(f) ==> (family_name(f) == name@ && family_label_count(f) == labels@.len() && family_totals(f) == Map::<u64, u64>::empty()),
{
    prometheus::IntCounterVec::new(prometheus::Opts::new(name, help), labels).map(
        |inner| CounterFamily { inner },
    )
}

/// `HistogramVec::new(HistogramOpts::new(name, help), labels)`: a family of
/// histograms with the default buckets, keyed by the values of `labels`.  It
/// is made exactly when `Desc::new` accepts the name, the help text and the
/// label names (as for `new_int_counter_vec`); the `le` label is refused
/// only when a histogram of the family is first used, not here.
#[verifier::external_body]
fn new_histogram_vec(name: &str, help: &str, labels: &[&str]) -> (r: Result<
    HistogramFamily,
    prometheus::Error,
>)
    ensures
        r is Ok <==> family_creatable(name@, help@, texts(labels@)),
        r matches Ok(f) ==> histogram_family_name(f) == name@,
{
    prometheus::HistogramVec::new(prometheus::HistogramOpts::new(name, help), labels).map(
        |inner| HistogramFamily { inner },
    )
}

/// `Histogram::with_opts(HistogramOpts::new(name, help))`: a histogram with
/// the default buckets, made exactly when the help text is not empty and the
/// name is valid (it has no labels, and the default buckets increase).
#[verifier::external_body]
fn new_histogram(name: &str, help: &str) -> (r: Result<Histogram, prometheus::Error>)
    ensures
        r is Ok <==> metric_creatable(name@, help@),
        r matches Ok(h) ==> histogram_name(h) == name@,
{
    Histogram::with_opts(prometheus::HistogramOpts::new(name, help))
}

/// `Registry::new()`: an empty registry.
#[verifier::external_body]
fn new_registry() -> (r: Registry)
    ensures
        registered_names(r) == Set::<Seq<char>>::empty(),
        known_ids(r) == Set::<u64>::empty(),
{
    Registry::new()
}

/// `Registry::register` for a counter: adds a copy of the counter (the copy
/// shares its value).  A refusal leaves the registered names as they were,
/// and a name that is already registered is refused (the same name, with no
/// constant labels, gives the same descriptor id, or a different label set).
/// A counter whose descriptor id the registry does not know passes every
/// check of `Registry::register` (no descriptor or collector under that id,
/// no earlier dimensions for that name) and is accepted; its id is then
/// known.
#[verifier::external_body]
fn register_counter(registry: &mut Registry, c: &Counter) -> (r: Result<(), prometheus::Error>)
    ensures
        r is Ok ==> registered_names(*final(registry)) == registered_names(*old(registry)).insert(
            counter_name(*c),
        ),
        r is Err ==> registered_names(*final(registry)) == registered_names(*old(registry)),
        registered_names(*old(registry)).contains(counter_name(*c)) ==> r is Err,
        !known_ids(*old(registry)).contains(descriptor_id(counter_name(*c))) ==> r is Ok,
        r is Ok ==> known_ids(*final(registry)) == known_ids(*old(registry)).insert(descriptor_id(counter_name(*c))),
{
    registry.register(Box::new(c.inner.clone()))
}

/// `Registry::register` for a gauge (see `register_counter`).
#[verifier::external_body]
fn register_gauge(registry: &mut Registry, g: &Gauge) -> (r: Result<(), prometheus::Error>)
    ensures
        r is Ok ==> registered_names(*final(registry)) == registered_names(*old(registry)).insert(
            gauge_name(*g),
        ),
        r is Err ==> registered_names(*final(registry)) == registered_names(*old(registry)),
        registered_names(*old(registry)).contains(gauge_name(*g)) ==> r is Err,
        !known_ids(*old(registry)).contains(descriptor_id(gauge_name(*g))) ==> r is Ok,
        r is Ok ==> known_ids(*final(registry)) == known_ids(*old(registry)).insert(descriptor_id(gauge_name(*g))),
{
    registry.register(Box::new(g.inner.clone()))
}

/// `Registry::register` for a histogram (see `register_counter`).
#[verifier::external_body]
fn register_histogram(registry: &mut Registry, h: &Histogram) -> (r: Result<(), prometheus::Error>)
    ensures
        r is Ok ==> registered_names(*final(registry)) == registered_names(*old(registry)).insert(
            histogram_name(*h),
        ),
        r is Err ==> registered_names(*final(registry)) == registered_names(*old(registry)),
        registered_names(*old(registry)).contains(histogram_name(*h)) ==> r is Err,
        !known_ids(*old(registry)).contains(descriptor_id(histogram_name(*h))) ==> r is Ok,
        r is Ok ==> known_ids(*final(registry)) == known_ids(*old(registry)).insert(descriptor_id(histogram_name(*h))),
{
    registry.register(Box::new(h.clone()))
}

/// `Registry::register` for a counter family (see `register_counter`).
#[verifier::external_body]
fn register_counter_family(registry: &mut Registry, f: &CounterFamily) -> (r: Result<
    (),
    prometheus::Error,
>)
    ensures
        r is Ok ==> registered_names(*final(registry)) == registered_names(*old(registry)).insert(
            family_name(*f),
        ),
        r is Err ==> registered_names(*final(registry)) == registered_names(*old(registry)),
        registered_names(*old(registry)).contains(family_name(*f)) ==> r is Err,
        !known_ids(*old(registry)).contains(descriptor_id(family_name(*f))) ==> r is Ok,
        r is Ok ==> known_ids(*final(registry)) == known_ids(*old(registry)).insert(descriptor_id(family_name(*f))),
{
    registry.register(Box::new(f.inner.clone()))
}

/// `Registry::register` for a histogram family (see `register_counter`).
#[verifier::external_body]
fn register_histogram_family(registry: &mut Registry, f: &HistogramFamily) -> (r: Result<
    (),
    prometheus::Error,
>)
    ensures
        r is Ok ==> registered_names(*final(registry)) == registered_names(*old(registry)).insert(
            histogram_family_name(*f),
        ),
        r is Err ==> registered_names(*final(registry)) == registered_names(*old(registry)),
        registered_names(*old(registry)).contains(histogram_family_name(*f)) ==> r is Err,
        !known_ids(*old(registry)).contains(descriptor_id(histogram_family_name(*f))) ==> r is Ok,
        r is Ok ==> known_ids(*final(registry)) == known_ids(*old(registry)).insert(descriptor_id(histogram_family_name(*f))),
{
    registry.register(Box::new(f.inner.clone()))
}

/// `Registry::gather`: a snapshot of every registered metric.  The snapshot
/// reads the values at the time of the call, so nothing is stated of it.
#[verifier::external_body]
fn gather_families(registry: &Registry) -> Vec<prometheus::proto::MetricFamily> {
    registry.gather()
}

/// `TextEncoder::encode`: the Prometheus text exposition of `families`, or
/// an error when a family cannot be written.  Nothing is stated of the text.
#[verifier::external_body]
fn encode_families_text(families: &Vec<prometheus::proto::MetricFamily>) -> Result<
    Vec<u8>,
    prometheus::Error,
> {
    let mut buffer = Vec::new();
    prometheus::Encoder::encode(&prometheus::TextEncoder::new(), families, &mut buffer).map(
        |()| buffer,
    )
}

/// `IntCounter::inc_by(n)`: adds `n` to the counter's total (an
/// `AtomicU64::fetch_add`, which wraps).  The counter is reached only through
/// `&mut`, so no other change happens meanwhile.
#[verifier::external_body]
fn counter_inc_by(c: &mut Counter, n: u64)
    ensures
        counter_name(*final(c)) == counter_name(*old(c)),
        counter_total(*final(c)) == wrapping_add_u64(counter_total(*old(c)), n),
    no_unwind
{
    c.inner.inc_by(n)
}

/// `IntGauge::inc`: adds one to the gauge's level (wrapping).
#[verifier::external_body]
fn gauge_inc(g: &mut Gauge)
    ensures
        gauge_name(*final(g)) == gauge_name(*old(g)),
        gauge_level(*final(g)) == wrapping_add_i64(gauge_level(*old(g)), 1),
    no_unwind
{
    g.inner.inc()
}

/// `IntGauge::dec`: subtracts one from the gauge's level (wrapping).
#[verifier::external_body]
fn gauge_dec(g: &mut Gauge)
    ensures
        gauge_name(*final(g)) == gauge_name(*old(g)),
        gauge_level(*final(g)) == wrapping_add_i64(gauge_level(*old(g)), -1),
    no_unwind
{
    g.inner.dec()
}

/// `IntCounter::get`: the counter's total.
#[verifier::external_body]
fn counter_get(c: &Counter) -> (r: u64)
    ensures
        r == counter_total(*c),
{
    c.inner.get()
}

/// `IntGauge::get`: the gauge's level.
#[verifier::external_body]
fn gauge_get(g: &Gauge) -> (r: i64)
    ensures
        r == gauge_level(*g),
{
    g.inner.get()
}

/// The total filed under `key`, 0 for a key with no counter yet.
pub open spec fn total_at(totals: Map<u64, u64>, key: u64) -> u64 {
    if totals.contains_key(key) {
        totals[key]
    } else {
        0
    }
}

/// The totals with one more under `key`.
pub open spec fn bump_at(totals: Map<u64, u64>, key: u64) -> Map<u64, u64> {
    totals.insert(key, wrapping_add_u64(total_at(totals, key), 1))
}

/// `MetricVec::get_metric_with_label_values(values)`, then `inc` on the
/// counter it gives: the counter filed under `label_values_key(values)` (made
/// at 0 if there is none yet) grows by one.  It fails, changing nothing, when
/// the number of values differs from the number of labels of the family.
#[verifier::external_body]
fn family_inc(f: &mut CounterFamily, values: &[&str]) -> (r: Result<(), prometheus::Error>)
    ensures
        family_name(*final(f)) == family_name(*old(f)),
        family_label_count(*final(f)) == family_label_count(*old(f)),
        r is Ok <==> values@.len() == family_label_count(*old(f)),
        r is Ok ==> family_totals(*final(f)) == bump_at(
            family_totals(*old(f)),
            label_values_key(texts(values@)),
        ),
        r is Err ==> family_totals(*final(f)) == family_totals(*old(f)),
    no_unwind
{
    match f.inner.get_metric_with_label_values(values) {
        Ok(c) => Ok(c.inc()),
        Err(e) => Err(e),
    }
}

/// Why the metrics could not be set up.
#[derive(Debug)]
pub enum MetricsError {
    /// A metric could not be created.
    Create(prometheus::Error),
    /// A metric could not be registered.
    Register(prometheus::Error),
    /// The metrics could not be written out.
    Encode(prometheus::Error),
}

/// The plain counters of the metrics.
#[derive(Debug, Clone, Copy, PartialEq, Eq, Structural)]
pub enum CounterKey {
    TcpConnectionsTotal,
    TcpBytesSent,
    TcpBytesReceived,
    UdpPacketsSent,
    UdpPacketsReceived,
    UdpBytesSent,
    UdpBytesReceived,
    UdpDropsTotal,
    Http2StreamsTotal,
    Http2StreamResets,
    Http2BytesTotal,
    QuicPacketsTotal,
    QuicBytesTotal,
    RecorderEventsTotal,
    RecorderBytesWritten,
    RecorderDropsTotal,
    RecorderAutoDisabled,
    SafetyRateLimited,
    SafetySampledOut,
}

/// The name under which each plain counter is exported.
pub open spec fn counter_key_name(k: CounterKey) -> Seq<char> {
    match k {
        CounterKey::TcpConnectionsTotal => "tcp_connections_total"@,
        CounterKey::TcpBytesSent => "tcp_bytes_sent_total"@,
        CounterKey::TcpBytesReceived => "tcp_bytes_received_total"@,
        CounterKey::UdpPacketsSent => "udp_packets_sent_total"@,
        CounterKey::UdpPacketsReceived => "udp_packets_received_total"@,
        CounterKey::UdpBytesSent => "udp_bytes_sent_total"@,
        CounterKey::UdpBytesReceived => "udp_bytes_received_total"@,
        CounterKey::UdpDropsTotal => "udp_drops_total"@,
        CounterKey::Http2StreamsTotal => "http2_streams_total"@,
        CounterKey::Http2StreamResets => "http2_stream_resets_total"@,
        CounterKey::Http2BytesTotal => "http2_bytes_total"@,
        CounterKey::QuicPacketsTotal => "quic_packets_total"@,
        CounterKey::QuicBytesTotal => "quic_bytes_total"@,
        CounterKey::RecorderEventsTotal => "recorder_events_total"@,
        CounterKey::RecorderBytesWritten => "recorder_bytes_written_total"@,
        CounterKey::RecorderDropsTotal => "recorder_drops_total"@,
        CounterKey::RecorderAutoDisabled => "recorder_auto_disabled_total"@,
        CounterKey::SafetyRateLimited => "safety_rate_limited_total"@,
        CounterKey::SafetySampledOut => "safety_sampled_out_total"@,
    }
}

/// The names of every metric that the setup registers.
pub open spec fn documented_metric_names() -> Set<Seq<char>> {
    set![
        "tcp_connections_total"@,
        "tcp_bytes_sent_total"@,
        "tcp_bytes_received_total"@,
        "udp_packets_sent_total"@,
        "udp_packets_received_total"@,
        "udp_bytes_sent_total"@,
        "udp_bytes_received_total"@,
        "udp_drops_total"@,
        "http2_streams_total"@,
        "http2_stream_resets_total"@,
        "http2_bytes_total"@,
        "quic_packets_total"@,
        "quic_bytes_total"@,
        "recorder_events_total"@,
        "recorder_bytes_written_total"@,
        "recorder_drops_total"@,
        "recorder_auto_disabled_total"@,
        "safety_rate_limited_total"@,
        "safety_sampled_out_total"@,
        "tcp_active_connections"@,
        "tcp_errors_total"@,
        "tcp_connection_duration_seconds"@,
        "http_requests_total"@,
        "http_request_duration_seconds"@,
        "http_request_size_bytes"@,
        "http_response_size_bytes"@,
        "quic_rtt_milliseconds"@,
        "memory_usage_bytes"@,
    ]
}

/// What the metrics hold: the total of each plain counter and the name it is
/// exported under, the two gauges, the totals of the two counter families by
/// key, and the registered names.
pub struct MetricsView {
    pub counters: Map<CounterKey, u64>,
    pub names: Map<CounterKey, Seq<char>>,
    pub tcp_active_connections: i64,
    pub memory_usage_bytes: i64,
    pub tcp_errors: Map<u64, u64>,
    pub http_requests: Map<u64, u64>,
    pub registered: Set<Seq<char>>,
}

impl MetricsView {
    /// The metrics with `n` more on counter `k` (wrapping), nothing else
    /// changed.
    pub open spec fn bumped(self, k: CounterKey, n: u64) -> MetricsView {
        MetricsView { counters: self.counters.insert(k, wrapping_add_u64(self.counters[k], n)), ..self }
    }

    /// The metrics with one more TCP error labelled `label`.
    pub open spec fn with_tcp_error(self, label: Seq<char>) -> MetricsView {
        MetricsView { tcp_errors: bump_at(self.tcp_errors, label_values_key(seq![label])), ..self }
    }

    /// The metrics with one more HTTP request of `method` answered `status`.
    pub open spec fn with_http_request(self, method: Seq<char>, status: Seq<char>) -> MetricsView {
        MetricsView {
            http_requests: bump_at(self.http_requests, label_values_key(seq![method, status])),
            ..self
        }
    }

    /// The metrics with the active-connection gauge moved by `d` (wrapping).
    pub open spec fn with_active_moved(self, d: int) -> MetricsView {
        MetricsView { tcp_active_connections: wrapping_add_i64(self.tcp_active_connections, d), ..self }
    }
}

/// The metrics as the setup leaves them: every counter at 0 under its
/// documented name, gauges at 0, no labelled counter yet, and every metric
/// registered.
pub open spec fn initial_metrics() -> MetricsView {
    MetricsView {
        counters: Map::new(|k: CounterKey| true, |k: CounterKey| 0u64),
        names: Map::new(|k: CounterKey| true, |k: CounterKey| counter_key_name(k)),
        tcp_active_connections: 0,
        memory_usage_bytes: 0,
        tcp_errors: Map::empty(),
        http_requests: Map::empty(),
        registered: documented_metric_names(),
    }
}

/// Metrics collector for observability.
pub struct Metrics {
    registry: Registry,
    tcp_connections_total: Counter,
    tcp_bytes_sent: Counter,
    tcp_bytes_received: Counter,
    tcp_active_connections: Gauge,
    tcp_errors_total: CounterFamily,
    tcp_duration_seconds: HistogramFamily,
    udp_packets_sent: Counter,
    udp_packets_received: Counter,
    udp_bytes_sent: Counter,
    udp_bytes_received: Counter,
    udp_drops_total: Counter,
    http_requests_total: CounterFamily,
    http_request_duration_seconds: HistogramFamily,
    http_request_size_bytes: Histogram,
    http_response_size_bytes: Histogram,
    http2_streams_total: Counter,
    http2_stream_resets: Counter,
    http2_bytes_total: Counter,
    quic_packets_total: Counter,
    quic_bytes_total: Counter,
    quic_rtt_milliseconds: Histogram,
    recorder_events_total: Counter,
    recorder_bytes_written: Counter,
    recorder_drops_total: Counter,
    recorder_auto_disabled: Counter,
    safety_rate_limited: Counter,
    safety_sampled_out: Counter,
    memory_usage_bytes: Gauge,
}

/// A new counter, or a creation error when the name or help text is refused.
fn counter(name: &str, help: &str) -> (r: Result<Counter, MetricsError>)
    ensures
        r is Ok <==> metric_creatable(name@, help@),
        r matches Ok(c) ==> counter_name(c) == name@ && counter_total(c) == 0,
        r matches Err(e) ==> e is Create,
{
    match new_int_counter(name, help) {
        Ok(c) => Ok(c),
        Err(e) => Err(MetricsError::Create(e)),
    }
}

/// A new gauge, or a creation error when the name or help text is refused.
fn gauge(name: &str, help: &str) -> (r: Result<Gauge, MetricsError>)
    ensures
        r is Ok <==> metric_creatable(name@, help@),
        r matches Ok(g) ==> gauge_name(g) == name@ && gauge_level(g) == 0,
        r matches Err(e) ==> e is Create,
{
    match new_int_gauge(name, help) {
        Ok(g) => Ok(g),
        Err(e) => Err(MetricsError::Create(e)),
    }
}

/// A new counter family, or a creation error when the name, help text or
/// label names are refused.
fn counter_vec(name: &str, help: &str, labels: &[&str]) -> (r: Result<CounterFamily, MetricsError>)
    ensures
        r is Ok <==> family_creatable(name@, help@, texts(labels@)),
        r matches Ok(f) ==> (family_name(f) == name@ && family_label_count(f) == labels@.len() && family_totals(f) == Map::<u64, u64>::empty()),
        r matches Err(e) ==> e is Create,
{
    match new_int_counter_vec(name, help, labels) {
        Ok(v) => Ok(v),
        Err(e) => Err(MetricsError::Create(e)),
    }
}

/// A new histogram family, or a creation error when the name, help text or
/// label names are refused.
fn histogram_vec(name: &str, help: &str, labels: &[&str]) -> (r: Result<
    HistogramFamily,
    MetricsError,
>)
    ensures
        r is Ok <==> family_creatable(name@, help@, texts(labels@)),
        r matches Ok(f) ==> histogram_family_name(f) == name@,
        r matches Err(e) ==> e is Create,
{
    match new_histogram_vec(name, help, labels) {
        Ok(v) => Ok(v),
        Err(e) => Err(MetricsError::Create(e)),
    }
}

/// A new histogram, or a creation error when the name or help text is
/// refused.
fn histogram(name: &str, help: &str) -> (r: Result<Histogram, MetricsError>)
    ensures
        r is Ok <==> metric_creatable(name@, help@),
        r matches Ok(h) ==> histogram_name(h) == name@,
        r matches Err(e) ==> e is Create,
{
    match new_histogram(name, help) {
        Ok(h) => Ok(h),
        Err(e) => Err(MetricsError::Create(e)),
    }
}

/// Registers a metric in `registry`; a refusal is a registration error.  A
/// metric whose descriptor id the registry does not know is accepted.
fn register_c(registry: &mut Registry, c: &Counter) -> (r: Result<(), MetricsError>)
    ensures
        r matches Err(e) ==> e is Register,
        r is Ok ==> registered_names(*final(registry)) == registered_names(*old(registry)).insert(counter_name(*c)),
        !known_ids(*old(registry)).contains(descriptor_id(counter_name(*c))) ==> r is Ok,
        r is Ok ==> known_ids(*final(registry)) == known_ids(*old(registry)).insert(descriptor_id(counter_name(*c))),
        r is Err ==> registered_names(*final(registry)) == registered_names(*old(registry)),
{
    match register_counter(registry, c) {
        Ok(()) => Ok(()),
        Err(e) => Err(MetricsError::Register(e)),
    }
}

/// Registers a metric in `registry`; a refusal is a registration error.  A
/// metric whose descriptor id the registry does not know is accepted.
fn register_g(registry: &mut Registry, g: &Gauge) -> (r: Result<(), MetricsError>)
    ensures
        r matches Err(e) ==> e is Register,
        r is Ok ==> registered_names(*final(registry)) == registered_names(*old(registry)).insert(gauge_name(*g)),
        !known_ids(*old(registry)).contains(descriptor_id(gauge_name(*g))) ==> r is Ok,
        r is Ok ==> known_ids(*final(registry)) == known_ids(*old(registry)).insert(descriptor_id(gauge_name(*g))),
        r is Err ==> registered_names(*final(registry)) == registered_names(*old(registry)),
{
    match register_gauge(registry, g) {
        Ok(()) => Ok(()),
        Err(e) => Err(MetricsError::Register(e)),
    }
}

/// Registers a metric in `registry`; a refusal is a registration error.  A
/// metric whose descriptor id the registry does not know is accepted.
fn register_h(registry: &mut Registry, h: &Histogram) -> (r: Result<(), MetricsError>)
    ensures
        r matches Err(e) ==> e is Register,
        r is Ok ==> registered_names(*final(registry)) == registered_names(*old(registry)).insert(histogram_name(*h)),
        !known_ids(*old(registry)).contains(descriptor_id(histogram_name(*h))) ==> r is Ok,
        r is Ok ==> known_ids(*final(registry)) == known_ids(*old(registry)).insert(descriptor_id(histogram_name(*h))),
        r is Err ==> registered_names(*final(registry)) == registered_names(*old(registry)),
{
    match register_histogram(registry, h) {
        Ok(()) => Ok(()),
        Err(e) => Err(MetricsError::Register(e)),
    }
}

/// Registers a metric in `registry`; a refusal is a registration error.  A
/// metric whose descriptor id the registry does not know is accepted.
fn register_counters(registry: &mut Registry, f: &CounterFamily) -> (r: Result<(), MetricsError>)
    ensures
        r matches Err(e) ==> e is Register,
        r is Ok ==> registered_names(*final(registry)) == registered_names(*old(registry)).insert(family_name(*f)),
        !known_ids(*old(registry)).contains(descriptor_id(family_name(*f))) ==> r is Ok,
        r is Ok ==> known_ids(*final(registry)) == known_ids(*old(registry)).insert(descriptor_id(family_name(*f))),
        r is Err ==> registered_names(*final(registry)) == registered_names(*old(registry)),
{
    match register_counter_family(registry, f) {
        Ok(()) => Ok(()),
        Err(e) => Err(MetricsError::Register(e)),
    }
}

/// Registers a metric in `registry`; a refusal is a registration error.  A
/// metric whose descriptor id the registry does not know is accepted.
fn register_histograms(registry: &mut Registry, f: &HistogramFamily) -> (r: Result<(), MetricsError>)
    ensures
        r matches Err(e) ==> e is Register,
        r is Ok ==> registered_names(*final(registry)) == registered_names(*old(registry)).insert(histogram_family_name(*f)),
        !known_ids(*old(registry)).contains(descriptor_id(histogram_family_name(*f))) ==> r is Ok,
        r is Ok ==> known_ids(*final(registry)) == known_ids(*old(registry)).insert(descriptor_id(histogram_family_name(*f))),
        r is Err ==> registered_names(*final(registry)) == registered_names(*old(registry)),
{
    match register_histogram_family(registry, f) {
        Ok(()) => Ok(()),
        Err(e) => Err(MetricsError::Register(e)),
    }
}

/// Registers every metric in a fresh registry.  Their descriptor ids all
/// differ, so each registration is accepted; afterwards the registry holds
/// exactly the documented names.
#[verifier::spinoff_prover]
fn register_all(
    registry: &mut Registry,
    tcp_connections_total: &Counter,
    tcp_bytes_sent: &Counter,
    tcp_bytes_received: &Counter,
    tcp_active_connections: &Gauge,
    tcp_errors_total: &CounterFamily,
    tcp_duration_seconds: &HistogramFamily,
    udp_packets_sent: &Counter,
    udp_packets_received: &Counter,
    udp_bytes_sent: &Counter,
    udp_bytes_received: &Counter,
    udp_drops_total: &Counter,
    http_requests_total: &CounterFamily,
    http_request_duration_seconds: &HistogramFamily,
    http_request_size_bytes: &Histogram,
    http_response_size_bytes: &Histogram,
    http2_streams_total: &Counter,
    http2_stream_resets: &Counter,
    http2_bytes_total: &Counter,
    quic_packets_total: &Counter,
    quic_bytes_total: &Counter,
    quic_rtt_milliseconds: &Histogram,
    recorder_events_total: &Counter,
    recorder_bytes_written: &Counter,
    recorder_drops_total: &Counter,
    recorder_auto_disabled: &Counter,
    safety_rate_limited: &Counter,
    safety_sampled_out: &Counter,
    memory_usage_bytes: &Gauge,
) -> (r: Result<(), MetricsError>)
    requires
        known_ids(*old(registry)) == Set::<u64>::empty(),
        registered_names(*old(registry)) == Set::<Seq<char>>::empty(),
        counter_name(*tcp_connections_total) == "tcp_connections_total"@,
        counter_name(*tcp_bytes_sent) == "tcp_bytes_sent_total"@,
        counter_name(*tcp_bytes_received) == "tcp_bytes_received_total"@,
        gauge_name(*tcp_active_connections) == "tcp_active_connections"@,
        family_name(*tcp_errors_total) == "tcp_errors_total"@,
        histogram_family_name(*tcp_duration_seconds) == "tcp_connection_duration_seconds"@,
        counter_name(*udp_packets_sent) == "udp_packets_sent_total"@,
        counter_name(*udp_packets_received) == "udp_packets_received_total"@,
        counter_name(*udp_bytes_sent) == "udp_bytes_sent_total"@,
        counter_name(*udp_bytes_received) == "udp_bytes_received_total"@,
        counter_name(*udp_drops_total) == "udp_drops_total"@,
        family_name(*http_requests_total) == "http_requests_total"@,
        histogram_family_name(*http_request_duration_seconds) == "http_request_duration_seconds"@,
        histogram_name(*http_request_size_bytes) == "http_request_size_bytes"@,
        histogram_name(*http_response_size_bytes) == "http_response_size_bytes"@,
        counter_name(*http2_streams_total) == "http2_streams_total"@,
        counter_name(*http2_stream_resets) == "http2_stream_resets_total"@,
        counter_name(*http2_bytes_total) == "http2_bytes_total"@,
        counter_name(*quic_packets_total) == "quic_packets_total"@,
        counter_name(*quic_bytes_total) == "quic_bytes_total"@,
        histogram_name(*quic_rtt_milliseconds) == "quic_rtt_milliseconds"@,
        counter_name(*recorder_events_total) == "recorder_events_total"@,
        counter_name(*recorder_bytes_written) == "recorder_bytes_written_total"@,
        counter_name(*recorder_drops_total) == "recorder_drops_total"@,
        counter_name(*recorder_auto_disabled) == "recorder_auto_disabled_total"@,
        counter_name(*safety_rate_limited) == "safety_rate_limited_total"@,
        counter_name(*safety_sampled_out) == "safety_sampled_out_total"@,
        gauge_name(*memory_usage_bytes) == "memory_usage_bytes"@,
    ensures
        r is Ok,
        registered_names(*final(registry)) == documented_metric_names(),
{
    proof {
        lemma_metric_descriptor_ids();
    }
        register_c(registry, tcp_connections_total)?;
        register_c(registry, tcp_bytes_sent)?;
        register_c(registry, tcp_bytes_received)?;
        register_g(registry, tcp_active_connections)?;
        register_counters(registry, tcp_errors_total)?;
        register_histograms(registry, tcp_duration_seconds)?;

        register_c(registry, udp_packets_sent)?;
        register_c(registry, udp_packets_received)?;
        register_c(registry, udp_bytes_sent)?;
        register_c(registry, udp_bytes_received)?;
        register_c(registry, udp_drops_total)?;

        register_counters(registry, http_requests_total)?;
        register_histograms(registry, http_request_duration_seconds)?;
        register_h(registry, http_request_size_bytes)?;
        register_h(registry, http_response_size_bytes)?;

        register_c(registry, http2_streams_total)?;
        register_c(registry, http2_stream_resets)?;
        register_c(registry, http2_bytes_total)?;

        register_c(registry, quic_packets_total)?;
        register_c(registry, quic_bytes_total)?;
        register_h(registry, quic_rtt_milliseconds)?;

        register_c(registry, recorder_events_total)?;
        register_c(registry, recorder_bytes_written)?;
        register_c(registry, recorder_drops_total)?;
        register_c(registry, recorder_auto_disabled)?;

        register_c(registry, safety_rate_limited)?;
        register_c(registry, safety_sampled_out)?;
        register_g(registry, memory_usage_bytes)?;

    assert(registered_names(*registry) =~= documented_metric_names());
    Ok(())
}

impl Metrics {
    #[verifier::type_invariant]
    spec fn label_counts(&self) -> bool {
        &&& family_label_count(self.tcp_errors_total) == 1
        &&& family_label_count(self.http_requests_total) == 2
        &&& histogram_family_name(self.tcp_duration_seconds) == "tcp_connection_duration_seconds"@
        &&& histogram_family_name(self.http_request_duration_seconds)
            == "http_request_duration_seconds"@
        &&& histogram_name(self.http_request_size_bytes) == "http_request_size_bytes"@
        &&& histogram_name(self.http_response_size_bytes) == "http_response_size_bytes"@
        &&& histogram_name(self.quic_rtt_milliseconds) == "quic_rtt_milliseconds"@
    }

    /// The counter kept under `k`.
    closed spec fn counter_of(&self, k: CounterKey) -> Counter {
        match k {
            CounterKey::TcpConnectionsTotal => self.tcp_connections_total,
            CounterKey::TcpBytesSent => self.tcp_bytes_sent,
            CounterKey::TcpBytesReceived => self.tcp_bytes_received,
            CounterKey::UdpPacketsSent => self.udp_packets_sent,
            CounterKey::UdpPacketsReceived => self.udp_packets_received,
            CounterKey::UdpBytesSent => self.udp_bytes_sent,
            CounterKey::UdpBytesReceived => self.udp_bytes_received,
            CounterKey::UdpDropsTotal => self.udp_drops_total,
            CounterKey::Http2StreamsTotal => self.http2_streams_total,
            CounterKey::Http2StreamResets => self.http2_stream_resets,
            CounterKey::Http2BytesTotal => self.http2_bytes_total,
            CounterKey::QuicPacketsTotal => self.quic_packets_total,
            CounterKey::QuicBytesTotal => self.quic_bytes_total,
            CounterKey::RecorderEventsTotal => self.recorder_events_total,
            CounterKey::RecorderBytesWritten => self.recorder_bytes_written,
            CounterKey::RecorderDropsTotal => self.recorder_drops_total,
            CounterKey::RecorderAutoDisabled => self.recorder_auto_disabled,
            CounterKey::SafetyRateLimited => self.safety_rate_limited,
            CounterKey::SafetySampledOut => self.safety_sampled_out,
        }
    }

    /// What the metrics hold.
    pub closed spec fn view(&self) -> MetricsView {
        MetricsView {
            counters: Map::new(|k: CounterKey| true, |k: CounterKey| counter_total(self.counter_of(k))),
            names: Map::new(|k: CounterKey| true, |k: CounterKey| counter_name(self.counter_of(k))),
            tcp_active_connections: gauge_level(self.tcp_active_connections),
            memory_usage_bytes: gauge_level(self.memory_usage_bytes),
            tcp_errors: family_totals(self.tcp_errors_total),
            http_requests: family_totals(self.http_requests_total),
            registered: registered_names(self.registry),
        }
    }

    /// Creates every metric and registers it in a fresh registry.  The first
    /// creation or registration that fails ends the setup with its error.
    /// Every name, help text and label list used here is one that `prometheus`
    /// accepts, so creation never fails; the descriptor ids of the names
    /// all differ, so every registration into the fresh registry is accepted.
    /// The setup succeeds, with every metric registered and every count 0.
    pub fn new() -> (r: Result<Self, MetricsError>)
        ensures
            r is Ok,
            r matches Ok(m) ==> m@ == initial_metrics(),
    {
        let mut registry = new_registry();

        assert(metric_creatable("tcp_connections_total"@, "Total number of TCP connections"@)) by {
            reveal_strlit("tcp_connections_total");
            reveal_strlit("Total number of TCP connections");
        }
        let tcp_connections_total = counter("tcp_connections_total", "Total number of TCP connections")?;
        assert(metric_creatable("tcp_bytes_sent_total"@, "Total bytes sent over TCP"@)) by {
            reveal_strlit("tcp_bytes_sent_total");
            reveal_strlit("Total bytes sent over TCP");
        }
        let tcp_bytes_sent = counter("tcp_bytes_sent_total", "Total bytes sent over TCP")?;
        assert(metric_creatable("tcp_bytes_received_total"@, "Total bytes received over TCP"@)) by {
            reveal_strlit("tcp_bytes_received_total");
            reveal_strlit("Total bytes received over TCP");
        }
        let tcp_bytes_received = counter("tcp_bytes_received_total", "Total bytes received over TCP")?;
        assert(metric_creatable("tcp_active_connections"@, "Number of active TCP connections"@)) by {
            reveal_strlit("tcp_active_connections");
            reveal_strlit("Number of active TCP connections");
        }
        let tcp_active_connections = gauge("tcp_active_connections", "Number of active TCP connections")?;
        let tcp_errors_total_labels: &[&str] = &["error_type"];
        assert(family_creatable("tcp_errors_total"@, "Total TCP errors by type"@, texts(tcp_errors_total_labels@))) by {
            reveal_strlit("tcp_errors_total");
            reveal_strlit("Total TCP errors by type");
            reveal_strlit("error_type");
            assert(texts(tcp_errors_total_labels@) =~= seq!["error_type"@]);
        }
        let tcp_errors_total = counter_vec("tcp_errors_total", "Total TCP errors by type", tcp_errors_total_labels)?;
        let tcp_duration_seconds_labels: &[&str] = &["status"];
        assert(family_creatable("tcp_connection_duration_seconds"@, "TCP connection duration"@, texts(tcp_duration_seconds_labels@))) by {
            reveal_strlit("tcp_connection_duration_seconds");
            reveal_strlit("TCP connection duration");
            reveal_strlit("status");
            assert(texts(tcp_duration_seconds_labels@) =~= seq!["status"@]);
        }
        let tcp_duration_seconds = histogram_vec(
            "tcp_connection_duration_seconds",
            "TCP connection duration",
            tcp_duration_seconds_labels,
        )?;

        assert(metric_creatable("udp_packets_sent_total"@, "Total UDP packets sent"@)) by {
            reveal_strlit("udp_packets_sent_total");
            reveal_strlit("Total UDP packets sent");
        }
        let udp_packets_sent = counter("udp_packets_sent_total", "Total UDP packets sent")?;
        assert(metric_creatable("udp_packets_received_total"@, "Total UDP packets received"@)) by {
            reveal_strlit("udp_packets_received_total");
            reveal_strlit("Total UDP packets received");
        }
        let udp_packets_received = counter("udp_packets_received_total", "Total UDP packets received")?;
        assert(metric_creatable("udp_bytes_sent_total"@, "Total bytes sent over UDP"@)) by {
            reveal_strlit("udp_bytes_sent_total");
            reveal_strlit("Total bytes sent over UDP");
        }
        let udp_bytes_sent = counter("udp_bytes_sent_total", "Total bytes sent over UDP")?;
        assert(metric_creatable("udp_bytes_received_total"@, "Total bytes received over UDP"@)) by {
            reveal_strlit("udp_bytes_received_total");
            reveal_strlit("Total bytes received over UDP");
        }
        let udp_bytes_received = counter("udp_bytes_received_total", "Total bytes received over UDP")?;
        assert(metric_creatable("udp_drops_total"@, "Total UDP packet drops"@)) by {
            reveal_strlit("udp_drops_total");
            reveal_strlit("Total UDP packet drops");
        }
        let udp_drops_total = counter("udp_drops_total", "Total UDP packet drops")?;

        let http_requests_total_labels: &[&str] = &["method", "status"];
        assert(family_creatable("http_requests_total"@, "Total HTTP requests"@, texts(http_requests_total_labels@))) by {
            reveal_strlit("http_requests_total");
            reveal_strlit("Total HTTP requests");
            reveal_strlit("method");
            reveal_strlit("status");
            assert(texts(http_requests_total_labels@) =~= seq!["method"@, "status"@]);
            assert("method"@[0] != "status"@[0]);
        }
        let http_requests_total = counter_vec("http_requests_total", "Total HTTP requests", http_requests_total_labels)?;
        let http_request_duration_seconds_labels: &[&str] = &["method", "status"];
        assert(family_creatable("http_request_duration_seconds"@, "HTTP request duration"@, texts(http_request_duration_seconds_labels@))) by {
            reveal_strlit("http_request_duration_seconds");
            reveal_strlit("HTTP request duration");
            reveal_strlit("method");
            reveal_strlit("status");
            assert(texts(http_request_duration_seconds_labels@) =~= seq!["method"@, "status"@]);
            assert("method"@[0] != "status"@[0]);
        }
        let http_request_duration_seconds = histogram_vec(
            "http_request_duration_seconds",
            "HTTP request duration",
            http_request_duration_seconds_labels,
        )?;
        assert(metric_creatable("http_request_size_bytes"@, "HTTP request size"@)) by {
            reveal_strlit("http_request_size_bytes");
            reveal_strlit("HTTP request size");
        }
        let http_request_size_bytes = histogram("http_request_size_bytes", "HTTP request size")?;
        assert(metric_creatable("http_response_size_bytes"@, "HTTP response size"@)) by {
            reveal_strlit("http_response_size_bytes");
            reveal_strlit("HTTP response size");
        }
        let http_response_size_bytes = histogram("http_response_size_bytes", "HTTP response size")?;

        assert(metric_creatable("http2_streams_total"@, "Total HTTP/2 streams"@)) by {
            reveal_strlit("http2_streams_total");
            reveal_strlit("Total HTTP/2 streams");
        }
        let http2_streams_total = counter("http2_streams_total", "Total HTTP/2 streams")?;
        assert(metric_creatable("http2_stream_resets_total"@, "Total HTTP/2 stream resets"@)) by {
            reveal_strlit("http2_stream_resets_total");
            reveal_strlit("Total HTTP/2 stream resets");
        }
        let http2_stream_resets = counter("http2_stream_resets_total", "Total HTTP/2 stream resets")?;
        assert(metric_creatable("http2_bytes_total"@, "Total HTTP/2 bytes"@)) by {
            reveal_strlit("http2_bytes_total");
            reveal_strlit("Total HTTP/2 bytes");
        }
        let http2_bytes_total = counter("http2_bytes_total", "Total HTTP/2 bytes")?;

        assert(metric_creatable("quic_packets_total"@, "Total QUIC packets"@)) by {
            reveal_strlit("quic_packets_total");
            reveal_strlit("Total QUIC packets");
        }
        let quic_packets_total = counter("quic_packets_total", "Total QUIC packets")?;
        assert(metric_creatable("quic_bytes_total"@, "Total QUIC bytes"@)) by {
            reveal_strlit("quic_bytes_total");
            reveal_strlit("Total QUIC bytes");
        }
        let quic_bytes_total = counter("quic_bytes_total", "Total QUIC bytes")?;
        assert(metric_creatable("quic_rtt_milliseconds"@, "QUIC RTT"@)) by {
            reveal_strlit("quic_rtt_milliseconds");
            reveal_strlit("QUIC RTT");
        }
        let quic_rtt_milliseconds = histogram("quic_rtt_milliseconds", "QUIC RTT")?;

        assert(metric_creatable("recorder_events_total"@, "Total recorded events"@)) by {
            reveal_strlit("recorder_events_total");
            reveal_strlit("Total recorded events");
        }
        let recorder_events_total = counter("recorder_events_total", "Total recorded events")?;
        assert(metric_creatable("recorder_bytes_written_total"@, "Total bytes written by recorder"@)) by {
            reveal_strlit("recorder_bytes_written_total");
            reveal_strlit("Total bytes written by recorder");
        }
        let recorder_bytes_written = counter("recorder_bytes_written_total", "Total bytes written by recorder")?;
        assert(metric_creatable("recorder_drops_total"@, "Total dropped recorder events"@)) by {
            reveal_strlit("recorder_drops_total");
            reveal_strlit("Total dropped recorder events");
        }
        let recorder_drops_total = counter("recorder_drops_total", "Total dropped recorder events")?;
        assert(metric_creatable("recorder_auto_disabled_total"@, "Times recorder was auto-disabled"@)) by {
            reveal_strlit("recorder_auto_disabled_total");
            reveal_strlit("Times recorder was auto-disabled");
        }
        let recorder_auto_disabled = counter("recorder_auto_disabled_total", "Times recorder was auto-disabled")?;

        assert(metric_creatable("safety_rate_limited_total"@, "Total rate-limited requests"@)) by {
            reveal_strlit("safety_rate_limited_total");
            reveal_strlit("Total rate-limited requests");
        }
        let safety_rate_limited = counter("safety_rate_limited_total", "Total rate-limited requests")?;
        assert(metric_creatable("safety_sampled_out_total"@, "Total sampled-out requests"@)) by {
            reveal_strlit("safety_sampled_out_total");
            reveal_strlit("Total sampled-out requests");
        }
        let safety_sampled_out = counter("safety_sampled_out_total", "Total sampled-out requests")?;
        assert(metric_creatable("memory_usage_bytes"@, "Current memory usage"@)) by {
            reveal_strlit("memory_usage_bytes");
            reveal_strlit("Current memory usage");
        }
        let memory_usage_bytes = gauge("memory_usage_bytes", "Current memory usage")?;

        register_all(
            &mut registry,
            &tcp_connections_total,
            &tcp_bytes_sent,
            &tcp_bytes_received,
            &tcp_active_connections,
            &tcp_errors_total,
            &tcp_duration_seconds,
            &udp_packets_sent,
            &udp_packets_received,
            &udp_bytes_sent,
            &udp_bytes_received,
            &udp_drops_total,
            &http_requests_total,
            &http_request_duration_seconds,
            &http_request_size_bytes,
            &http_response_size_bytes,
            &http2_streams_total,
            &http2_stream_resets,
            &http2_bytes_total,
            &quic_packets_total,
            &quic_bytes_total,
            &quic_rtt_milliseconds,
            &recorder_events_total,
            &recorder_bytes_written,
            &recorder_drops_total,
            &recorder_auto_disabled,
            &safety_rate_limited,
            &safety_sampled_out,
            &memory_usage_bytes,
        )?;

        let m = Metrics {
            registry,
            tcp_connections_total,
            tcp_bytes_sent,
            tcp_bytes_received,
            tcp_active_connections,
            tcp_errors_total,
            tcp_duration_seconds,
            udp_packets_sent,
            udp_packets_received,
            udp_bytes_sent,
            udp_bytes_received,
            udp_drops_total,
            http_requests_total,
            http_request_duration_seconds,
            http_request_size_bytes,
            http_response_size_bytes,
            http2_streams_total,
            http2_stream_resets,
            http2_bytes_total,
            quic_packets_total,
            quic_bytes_total,
            quic_rtt_milliseconds,
            recorder_events_total,
            recorder_bytes_written,
            recorder_drops_total,
            recorder_auto_disabled,
            safety_rate_limited,
            safety_sampled_out,
            memory_usage_bytes,
        };
        assert(m@.counters =~= initial_metrics().counters);
        assert(m@.names =~= initial_metrics().names);
        assert(m@.registered =~= initial_metrics().registered);
        Ok(m)
    }

    /// Adds `n` to counter `k`.
    pub fn bump(&mut self, k: CounterKey, n: u64)
        ensures
            final(self)@ == old(self)@.bumped(k, n),
    {
        proof {
            use_type_invariant(&*self);
        }
        let ghost before = self@;
        match k {
            CounterKey::TcpConnectionsTotal => counter_inc_by(&mut self.tcp_connections_total, n),
            CounterKey::TcpBytesSent => counter_inc_by(&mut self.tcp_bytes_sent, n),
            CounterKey::TcpBytesReceived => counter_inc_by(&mut self.tcp_bytes_received, n),
            CounterKey::UdpPacketsSent => counter_inc_by(&mut self.udp_packets_sent, n),
            CounterKey::UdpPacketsReceived => counter_inc_by(&mut self.udp_packets_received, n),
            CounterKey::UdpBytesSent => counter_inc_by(&mut self.udp_bytes_sent, n),
            CounterKey::UdpBytesReceived => counter_inc_by(&mut self.udp_bytes_received, n),
            CounterKey::UdpDropsTotal => counter_inc_by(&mut self.udp_drops_total, n),
            CounterKey::Http2StreamsTotal => counter_inc_by(&mut self.http2_streams_total, n),
            CounterKey::Http2StreamResets => counter_inc_by(&mut self.http2_stream_resets, n),
            CounterKey::Http2BytesTotal => counter_inc_by(&mut self.http2_bytes_total, n),
            CounterKey::QuicPacketsTotal => counter_inc_by(&mut self.quic_packets_total, n),
            CounterKey::QuicBytesTotal => counter_inc_by(&mut self.quic_bytes_total, n),
            CounterKey::RecorderEventsTotal => counter_inc_by(&mut self.recorder_events_total, n),
            CounterKey::RecorderBytesWritten => counter_inc_by(&mut self.recorder_bytes_written, n),
            CounterKey::RecorderDropsTotal => counter_inc_by(&mut self.recorder_drops_total, n),
            CounterKey::RecorderAutoDisabled => counter_inc_by(&mut self.recorder_auto_disabled, n),
            CounterKey::SafetyRateLimited => counter_inc_by(&mut self.safety_rate_limited, n),
            CounterKey::SafetySampledOut => counter_inc_by(&mut self.safety_sampled_out, n),
        }
        assert(self@.counters =~= before.counters.insert(k, wrapping_add_u64(before.counters[k], n)));
        assert(self@.names =~= before.names);
    }

    /// The total of counter `k`.
    pub fn count(&self, k: CounterKey) -> (r: u64)
        ensures
            r == self@.counters[k],
    {
        match k {
            CounterKey::TcpConnectionsTotal => counter_get(&self.tcp_connections_total),
            CounterKey::TcpBytesSent => counter_get(&self.tcp_bytes_sent),
            CounterKey::TcpBytesReceived => counter_get(&self.tcp_bytes_received),
            CounterKey::UdpPacketsSent => counter_get(&self.udp_packets_sent),
            CounterKey::UdpPacketsReceived => counter_get(&self.udp_packets_received),
            CounterKey::UdpBytesSent => counter_get(&self.udp_bytes_sent),
            CounterKey::UdpBytesReceived => counter_get(&self.udp_bytes_received),
            CounterKey::UdpDropsTotal => counter_get(&self.udp_drops_total),
            CounterKey::Http2StreamsTotal => counter_get(&self.http2_streams_total),
            CounterKey::Http2StreamResets => counter_get(&self.http2_stream_resets),
            CounterKey::Http2BytesTotal => counter_get(&self.http2_bytes_total),
            CounterKey::QuicPacketsTotal => counter_get(&self.quic_packets_total),
            CounterKey::QuicBytesTotal => counter_get(&self.quic_bytes_total),
            CounterKey::RecorderEventsTotal => counter_get(&self.recorder_events_total),
            CounterKey::RecorderBytesWritten => counter_get(&self.recorder_bytes_written),
            CounterKey::RecorderDropsTotal => counter_get(&self.recorder_drops_total),
            CounterKey::RecorderAutoDisabled => counter_get(&self.recorder_auto_disabled),
            CounterKey::SafetyRateLimited => counter_get(&self.safety_rate_limited),
            CounterKey::SafetySampledOut => counter_get(&self.safety_sampled_out),
        }
    }

    /// The number of active connections the gauge shows.
    pub fn active_connections(&self) -> (r: i64)
        ensures
            r == self@.tcp_active_connections,
    {
        gauge_get(&self.tcp_active_connections)
    }

    /// Counts one TCP error labelled `label`.
    pub fn count_tcp_error(&mut self, label: &str)
        ensures
            final(self)@ == old(self)@.with_tcp_error(label@),
    {
        proof {
            use_type_invariant(&*self);
        }
        let ghost before = self@;
        let labels: [&str; 1] = [label];
        let _ = family_inc(&mut self.tcp_errors_total, &labels);
        assert(texts(labels@) =~= seq![label@]);
        assert(self@.counters =~= before.counters);
        assert(self@.names =~= before.names);
    }

    /// Counts one HTTP request of `method` answered with status `status`.
    pub fn count_http_request(&mut self, method: &str, status: &str)
        ensures
            final(self)@ == old(self)@.with_http_request(method@, status@),
    {
        proof {
            use_type_invariant(&*self);
        }
        let ghost before = self@;
        let labels: [&str; 2] = [method, status];
        let _ = family_inc(&mut self.http_requests_total, &labels);
        assert(texts(labels@) =~= seq![method@, status@]);
        assert(self@.counters =~= before.counters);
        assert(self@.names =~= before.names);
    }

    /// Counts a connection as opened: the active-connection gauge rises by 1.
    pub fn connection_opened(&mut self)
        ensures
            final(self)@ == old(self)@.with_active_moved(1),
    {
        proof {
            use_type_invariant(&*self);
        }
        let ghost before = self@;
        gauge_inc(&mut self.tcp_active_connections);
        assert(self@.counters =~= before.counters);
        assert(self@.names =~= before.names);
    }

    /// Counts a connection as closed: the active-connection gauge falls by 1.
    pub fn connection_closed(&mut self)
        ensures
            final(self)@ == old(self)@.with_active_moved(-1),
    {
        proof {
            use_type_invariant(&*self);
        }
        let ghost before = self@;
        gauge_dec(&mut self.tcp_active_connections);
        assert(self@.counters =~= before.counters);
        assert(self@.names =~= before.names);
    }

    /// The `tcp_duration_seconds` histogram, which callers outside the library observe.
    pub fn tcp_duration_seconds(&self) -> (r: &HistogramFamily)
        ensures
            histogram_family_name(*r) == "tcp_connection_duration_seconds"@,
    {
        proof {
            use_type_invariant(self);
        }
        &self.tcp_duration_seconds
    }

    /// The `http_request_duration_seconds` histogram, which callers outside the library observe.
    pub fn http_request_duration_seconds(&self) -> (r: &HistogramFamily)
        ensures
            histogram_family_name(*r) == "http_request_duration_seconds"@,
    {
        proof {
            use_type_invariant(self);
        }
        &self.http_request_duration_seconds
    }

    /// The `http_request_size_bytes` histogram, which callers outside the library observe.
    pub fn http_request_size_bytes(&self) -> (r: &Histogram)
        ensures
            histogram_name(*r) == "http_request_size_bytes"@,
    {
        proof {
            use_type_invariant(self);
        }
        &self.http_request_size_bytes
    }

    /// The `http_response_size_bytes` histogram, which callers outside the library observe.
    pub fn http_response_size_bytes(&self) -> (r: &Histogram)
        ensures
            histogram_name(*r) == "http_response_size_bytes"@,
    {
        proof {
            use_type_invariant(self);
        }
        &self.http_response_size_bytes
    }

    /// The `quic_rtt_milliseconds` histogram, which callers outside the library observe.
    pub fn quic_rtt_milliseconds(&self) -> (r: &Histogram)
        ensures
            histogram_name(*r) == "quic_rtt_milliseconds"@,
    {
        proof {
            use_type_invariant(self);
        }
        &self.quic_rtt_milliseconds
    }

    /// The Prometheus text exposition of every registered metric.  A failure
    /// is an encoding error (the text encoder refuses a family without a
    /// name); the text itself, read from the live metrics, is not stated.
    pub fn encode_text(&self) -> (r: Result<Vec<u8>, MetricsError>)
        ensures
            r matches Err(e) ==> e is Encode,
    {
        let families = gather_families(&self.registry);
        match encode_families_text(&families) {
            Ok(text) => Ok(text),
            Err(e) => Err(MetricsError::Encode(e)),
        }
    }
}

} // verus!
