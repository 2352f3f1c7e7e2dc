use std::sync::Arc;
use std::time::Duration;

use superpilot::config::{Config, RecordingMode, Sampling};
use superpilot::http2::{FrameEffect, Http2Observer};
use superpilot::metrics::{CounterKey, Metrics};
use superpilot::mitm::MitmProxy;
use superpilot::push::{metrics_reply_head, push_url, PushControl, MAX_PUSH_FAILURES};
use superpilot::quic::QuicObserver;
use superpilot::http1::{Http1Observer, HttpRequest, HttpResponse};
use superpilot::recorder::{count_written_line, event_json, EventMetadata, EventType, RecordedEvent, Recorder};
use superpilot::safety::SafetyGuard;
use superpilot::tcp::{
    admit_connection_at, count_accept_error, count_connection_closed, count_forwarded, count_read_error,
    read_error_label, relay_action, ReadOutcome, RelayAction, RelayDirection,
};
use superpilot::udp::{on_packet_at, on_receive_error, on_sent, PacketAction};
use superpilot::util::{address_with_default_port, timestamp_millis_of, timestamp_secs_of};

fn guard(limit: u64, sampling: Sampling, max_latency_ms: u64) -> SafetyGuard {
    let mut config = Config::default();
    config.safety.rate_limit_requests_per_sec = limit;
    config.safety.sampling = sampling;
    config.safety.max_latency_ms = max_latency_ms;
    SafetyGuard::new_at(Arc::new(config), 100)
}

#[test]
fn rate_limit_resets_each_second() {
    let mut g = guard(3, Sampling::KeepAll, 100);
    let mut m = Metrics::new().unwrap();
    assert!(g.should_allow_connection_at(&mut m, 100));
    assert!(g.should_allow_connection_at(&mut m, 100));
    assert!(g.should_allow_connection_at(&mut m, 100));
    assert!(!g.should_allow_connection_at(&mut m, 100));
    assert!(!g.should_allow_connection_at(&mut m, 99));
    // A later second starts a fresh window.
    assert!(g.should_allow_connection_at(&mut m, 101));
    assert!(g.should_allow_connection_at(&mut m, 101));
    assert!(g.should_allow_connection_at(&mut m, 101));
    assert!(!g.should_allow_connection_at(&mut m, 101));
    // Refusals by the limit are not sampling refusals.
    assert_eq!(m.count(CounterKey::SafetySampledOut), 0);
    // Packets have their own counter.
    assert!(g.should_allow_packet_at(&mut m, 101));
}

#[test]
fn zero_limit_refuses_everything() {
    let mut g = guard(0, Sampling::KeepOneIn(0), 100);
    let mut m = Metrics::new().unwrap();
    assert!(!g.should_allow_connection_at(&mut m, 100));
    assert!(!g.should_allow_packet_at(&mut m, 200));
}

#[test]
fn sampling_keeps_one_in_three() {
    let mut g = guard(1000, Sampling::KeepOneIn(3), 100);
    let mut m = Metrics::new().unwrap();
    let kept: Vec<bool> = (0..7).map(|_| g.should_allow_connection_at(&mut m, 100)).collect();
    assert_eq!(kept, vec![true, false, false, true, false, false, true]);
    assert_eq!(m.count(CounterKey::SafetySampledOut), 4);
}

#[test]
fn latency_spike_turns_the_recorder_off_once() {
    let mut g = guard(10, Sampling::KeepAll, 100);
    let mut m = Metrics::new().unwrap();
    assert!(!g.is_recorder_disabled());
    assert_eq!(g.disable_reason(), "");
    assert!(g.check_latency(&mut m, Duration::from_millis(100)));
    assert!(!g.is_recorder_disabled());
    assert!(!g.check_latency(&mut m, Duration::from_millis(100) + Duration::from_nanos(1)));
    assert!(g.is_recorder_disabled());
    assert_eq!(g.disable_reason(), "latency_spike");
    // Once off, later spikes are answered with true.
    assert!(g.check_latency(&mut m, Duration::from_secs(5)));
    assert!(g.is_recorder_disabled());
    assert_eq!(m.count(CounterKey::RecorderAutoDisabled), 1);
}

#[test]
fn memory_pressure_turns_the_recorder_off() {
    let mut config = Config::default();
    config.safety.max_memory_mb = 1;
    let mut g = SafetyGuard::new_at(Arc::new(config), 100);
    let mut m = Metrics::new().unwrap();
    assert!(g.check_memory_at(&mut m, 1024 * 1024, 100));
    assert!(!g.is_recorder_disabled());
    assert!(!g.check_memory_at(&mut m, 1024 * 1024 + 1, 100));
    assert!(g.is_recorder_disabled());
    assert_eq!(g.disable_reason(), "memory_pressure");
    assert_eq!(m.count(CounterKey::RecorderAutoDisabled), 1);
    // Still over the limit: still refused, counted once.
    assert!(!g.check_memory(&mut m, 5 * 1024 * 1024));
    assert_eq!(m.count(CounterKey::RecorderAutoDisabled), 1);
}

#[test]
fn latency_in_whole_seconds() {
    let mut g = guard(10, Sampling::KeepAll, 2000);
    let mut m = Metrics::new().unwrap();
    assert!(g.check_latency_at(&mut m, 2, 0, 7));
    assert!(!g.check_latency_at(&mut m, 2, 1, 7));
    let mut g = guard(10, Sampling::KeepAll, 2000);
    let mut m = Metrics::new().unwrap();
    assert!(!g.check_latency(&mut m, Duration::new(3, 0)));
}

fn event(ts: u64, payload: Option<Vec<u8>>) -> RecordedEvent {
    RecordedEvent {
        timestamp: ts,
        event_type: EventType::HttpRequest,
        metadata: EventMetadata {
            source: "10.0.0.1:5000".to_string(),
            destination: "10.0.0.2:80".to_string(),
            protocol: "http".to_string(),
            method: Some("GET".to_string()),
            path: Some("/".to_string()),
            status: None,
        },
        payload,
    }
}

fn recorder(mode: RecordingMode, size: usize) -> Recorder {
    let mut config = Config::default();
    config.recorder.mode = mode;
    config.recorder.buffer_size = size;
    config.recorder.output_path = "/var/rec".to_string();
    Recorder::new(Arc::new(config))
}

#[test]
fn recorder_drops_when_off_or_full() {
    let mut r = recorder(RecordingMode::Payload, 2);
    let mut m = Metrics::new().unwrap();
    r.record(&mut m, event(1, None));
    assert_eq!(r.pending_count(), 0);
    r.enable();
    r.record(&mut m, event(2, Some(vec![1, 2])));
    r.record(&mut m, event(3, None));
    r.record(&mut m, event(4, None));
    assert_eq!(r.pending_count(), 2);
    assert_eq!(m.count(CounterKey::RecorderEventsTotal), 2);
    assert_eq!(m.count(CounterKey::RecorderDropsTotal), 1);
    let lines = r.pending_json_lines();
    assert_eq!(
        lines[0],
        "{\"timestamp\":2,\"type\":\"http_request\",\"metadata\":{\"source\":\"10.0.0.1:5000\",\"dest\":\"10.0.0.2:80\"}}"
    );
    assert!(lines[1].starts_with("{\"timestamp\":3,"));
    r.mark_flushed();
    assert_eq!(r.pending_count(), 0);
    r.record(&mut m, event(5, None));
    assert_eq!(r.pending_count(), 1);
    assert!(r.pending_json_lines()[0].starts_with("{\"timestamp\":5,"));
    assert_eq!(r.flush_path(1700000000), "/var/rec/recording_1700000000.jsonl");
}

#[test]
fn recorder_mode_off_records_nothing() {
    let mut r = recorder(RecordingMode::Off, 10);
    let mut m = Metrics::new().unwrap();
    r.enable();
    r.record(&mut m, event(1, Some(vec![9])));
    assert_eq!(r.pending_count(), 0);
    let mut r = recorder(RecordingMode::Metadata, 10);
    let mut m = Metrics::new().unwrap();
    r.enable();
    r.record(&mut m, event(1, Some(vec![9])));
    assert_eq!(r.pending_count(), 1);
}

#[test]
fn event_json_names_each_type() {
    let mut e = event(0, None);
    for (t, name) in [
        (EventType::HttpRequest, "http_request"),
        (EventType::HttpResponse, "http_response"),
        (EventType::TcpConnection, "tcp_connection"),
        (EventType::UdpPacket, "udp_packet"),
    ] {
        e.event_type = t;
        assert!(event_json(&e).contains(&format!("\"type\":\"{}\"", name)));
    }
}

#[test]
fn push_stops_after_five_failures() {
    let mut p = PushControl::new();
    assert!(p.is_push_enabled());
    for _ in 0..4 {
        assert!(p.record_push(false));
    }
    assert!(p.record_push(true));
    for _ in 0..(MAX_PUSH_FAILURES - 1) {
        assert!(p.record_push(false));
    }
    assert!(!p.record_push(false));
    assert!(!p.is_push_enabled());
}

#[test]
fn push_and_scrape_text() {
    assert_eq!(
        push_url("http://gw:9091", "superpilot", "node-1"),
        "http://gw:9091/metrics/job/superpilot/instance/node-1"
    );
    assert_eq!(
        metrics_reply_head(1234),
        "HTTP/1.1 200 OK\r\nContent-Type: text/plain\r\nContent-Length: 1234\r\n\r\n"
    );
}

#[test]
fn http2_frames() {
    assert_eq!(Http2Observer::frame_effect(&[0; 8]), FrameEffect::Ignored);
    assert_eq!(Http2Observer::frame_effect(&[0, 0, 0, 0, 0, 0, 0, 0, 0, 7]), FrameEffect::Bytes(10));
    assert_eq!(Http2Observer::frame_effect(&[0, 0, 0, 1, 0, 0, 0, 0, 1]), FrameEffect::NewStream);
    assert_eq!(Http2Observer::frame_effect(&[0, 0, 0, 3, 0, 0, 0, 0, 1]), FrameEffect::StreamReset);
    assert_eq!(Http2Observer::frame_effect(&[0, 0, 0, 4, 0, 0, 0, 0, 0]), FrameEffect::Bytes(9));
    let obs = Http2Observer::new(Arc::new(Config::default()));
    let mut m = Metrics::new().unwrap();
    obs.observe_frame(&mut m, &[0, 0, 0, 1, 0, 0, 0, 0, 1]);
    obs.observe_frame(&mut m, &[0, 0, 0, 3, 0, 0, 0, 0, 1]);
    obs.observe_frame(&mut m, &[0, 0, 0, 0, 0, 0, 0, 0, 0, 7]);
    obs.observe_frame(&mut m, &[0; 8]);
    assert_eq!(m.count(CounterKey::Http2StreamsTotal), 1);
    assert_eq!(m.count(CounterKey::Http2StreamResets), 1);
    assert_eq!(m.count(CounterKey::Http2BytesTotal), 10);
    assert!(!Http2Observer::is_http2(b"PRI * HTTP/2.0\r\n\r\nSM\r\n\r"));
    assert!(Http2Observer::is_http2(b"PRI * HTTP/2.0\r\n\r\nSM\r\n\r\nextra"));
}

#[test]
fn quic_headers() {
    assert!(!QuicObserver::is_quic(&[]));
    assert!(!QuicObserver::is_quic(&[0xC0, 0, 0, 0, 0]));
    assert!(QuicObserver::is_quic(&[0x80, 0, 0, 1, 0]));
    // Too short for a version: the short-header bit decides.
    assert!(QuicObserver::is_quic(&[0xC0, 0, 0]));
    assert!(!QuicObserver::is_quic(&[0x80, 0, 0]));
    let obs = QuicObserver::new(Arc::new(Config::default()));
    let mut m = Metrics::new().unwrap();
    obs.count_packet(&mut m, &[0x40, 1]);
    assert_eq!(m.count(CounterKey::QuicPacketsTotal), 1);
    assert_eq!(m.count(CounterKey::QuicBytesTotal), 2);
}

#[test]
fn mitm_steps_succeed() {
    let m = MitmProxy::new(Arc::new(Config::default()));
    assert!(m.generate_cert_for_host("example.com").is_ok());
    assert!(m.handle_connect("example.com", 443).is_ok());
}

#[test]
fn relay_decisions() {
    assert_eq!(relay_action(ReadOutcome::Closed), RelayAction::Finish);
    assert_eq!(relay_action(ReadOutcome::Data(5)), RelayAction::Forward(5));
    assert_eq!(relay_action(ReadOutcome::WouldBlock), RelayAction::Continue);
    assert_eq!(relay_action(ReadOutcome::Failed), RelayAction::Abort);
    assert_eq!(read_error_label(RelayDirection::ClientToTarget), "client_read");
    assert_eq!(read_error_label(RelayDirection::TargetToClient), "target_read");
}

#[test]
fn connection_admission_counts() {
    let mut g = guard(1, Sampling::KeepAll, 100);
    let mut m = Metrics::new().unwrap();
    assert!(admit_connection_at(&mut g, &mut m, 100));
    assert!(!admit_connection_at(&mut g, &mut m, 100));
    assert_eq!(m.count(CounterKey::TcpConnectionsTotal), 1);
    assert_eq!(m.count(CounterKey::SafetyRateLimited), 1);
    assert_eq!(m.active_connections(), 1);
    count_connection_closed(&mut m);
    assert_eq!(m.active_connections(), 0);
    count_forwarded(&mut m, RelayDirection::ClientToTarget, 7);
    count_forwarded(&mut m, RelayDirection::TargetToClient, 3);
    assert_eq!(m.count(CounterKey::TcpBytesSent), 7);
    assert_eq!(m.count(CounterKey::TcpBytesReceived), 3);
    count_read_error(&mut m, RelayDirection::TargetToClient);
    count_accept_error(&mut m);
    let text = String::from_utf8(m.encode_text().unwrap()).unwrap();
    assert!(text.contains("tcp_errors_total{error_type=\"target_read\"} 1"));
    assert!(text.contains("tcp_errors_total{error_type=\"accept\"} 1"));
}

#[test]
fn udp_packet_decisions() {
    let mut g = guard(2, Sampling::KeepAll, 100);
    let mut m = Metrics::new().unwrap();
    assert_eq!(on_packet_at(&mut g, &mut m, 100, 50, 100), PacketAction::TooLarge);
    assert_eq!(on_packet_at(&mut g, &mut m, 10, 50, 100), PacketAction::Forward);
    assert_eq!(on_packet_at(&mut g, &mut m, 10, 50, 100), PacketAction::RateLimited);
    assert_eq!(m.count(CounterKey::UdpDropsTotal), 2);
    assert_eq!(m.count(CounterKey::UdpPacketsReceived), 1);
    assert_eq!(m.count(CounterKey::UdpBytesReceived), 10);
    assert_eq!(m.count(CounterKey::SafetyRateLimited), 1);
    assert!(on_sent(&mut m, Some(10), 10));
    assert!(!on_sent(&mut m, Some(9), 10));
    assert!(!on_sent(&mut m, None, 10));
    assert_eq!(m.count(CounterKey::UdpPacketsSent), 1);
    assert_eq!(m.count(CounterKey::UdpBytesSent), 10);
    assert_eq!(m.count(CounterKey::UdpDropsTotal), 4);
    on_receive_error(&mut m);
    assert_eq!(m.count(CounterKey::UdpDropsTotal), 5);
}

#[test]
fn clock_readings() {
    assert_eq!(timestamp_secs_of(Some((1700000000, 999_999_999))), 1700000000);
    assert_eq!(timestamp_millis_of(Some((1700000000, 999_999_999))), 1700000000999);
    assert_eq!(timestamp_secs_of(None), 0);
    assert_eq!(timestamp_millis_of(None), 0);
    // The millisecond count keeps the low 64 bits, as `as_millis() as u64` does.
    let big = u64::MAX / 1000 + 1;
    assert_eq!(timestamp_millis_of(Some((big, 0))), ((big as u128 * 1000) as u64));
}

#[test]
fn scrape_reply_matches_its_body() {
    let mut metrics = Metrics::new().unwrap();
    metrics.bump(CounterKey::TcpConnectionsTotal, 1);
    let (head, body) = superpilot::push::metrics_reply(&metrics).unwrap();
    let text = String::from_utf8(body.clone()).unwrap();
    assert!(text.contains("tcp_connections_total 1"));
    assert_eq!(head, metrics_reply_head(body.len()));
}

#[test]
fn scrape_reply_for_written_text() {
    let text = b"up 1\n".to_vec();
    let (head, body) = superpilot::push::metrics_reply_for(Ok(text.clone())).unwrap();
    assert_eq!(body, text);
    assert_eq!(head, "HTTP/1.1 200 OK\r\nContent-Type: text/plain\r\nContent-Length: 5\r\n\r\n");
}

#[test]
fn scrape_reply_for_failed_encoding_is_none() {
    let err = superpilot::metrics::MetricsError::Encode(prometheus::Error::Msg("no name".to_string()));
    assert!(superpilot::push::metrics_reply_for(Err(err)).is_none());
}

#[test]
fn metrics_setup_succeeds_on_a_fresh_registry() {
    // A fresh setup registers every metric, so it succeeds.
    assert!(Metrics::new().is_ok());
}

#[test]
fn setup_registers_every_metric_at_zero() {
    let m = Metrics::new().unwrap();
    assert_eq!(m.count(CounterKey::TcpBytesSent), 0);
    assert_eq!(m.active_connections(), 0);
    let mut m = m;
    m.bump(CounterKey::RecorderEventsTotal, 1);
    let text = String::from_utf8(m.encode_text().unwrap()).unwrap();
    for name in ["tcp_connections_total", "tcp_bytes_sent_total", "tcp_bytes_received_total",
        "tcp_active_connections", "udp_drops_total", "http2_streams_total", "quic_bytes_total",
        "recorder_events_total", "recorder_auto_disabled_total", "safety_rate_limited_total",
        "safety_sampled_out_total", "memory_usage_bytes", "http_request_size_bytes",
        "quic_rtt_milliseconds"] {
        assert!(text.contains(&format!("# TYPE {} ", name)), "{}", name);
    }
    assert!(text.contains("recorder_events_total 1"));
}

#[test]
fn http_requests_are_counted_by_method_and_status() {
    let obs = Http1Observer::new(Arc::new(Config::default()));
    let mut m = Metrics::new().unwrap();
    let req = HttpRequest { method: "GET".to_string(), path: "/".to_string(), version: "HTTP/1.1".to_string(), headers_size: 0, body: None };
    let resp = HttpResponse { status: 404, version: "HTTP/1.1".to_string(), headers_size: 0, body: None };
    obs.count_request(&mut m, &req, &resp);
    obs.count_request(&mut m, &req, &resp);
    let text = String::from_utf8(m.encode_text().unwrap()).unwrap();
    assert!(text.contains("http_requests_total{method=\"GET\",status=\"404\"} 2"));
}

#[test]
fn flushed_lines_are_counted_in_bytes() {
    let mut m = Metrics::new().unwrap();
    let mut e = event(42, None);
    e.event_type = EventType::TcpConnection;
    e.metadata.source = "a".to_string();
    e.metadata.destination = "b".to_string();
    let line = event_json(&e);
    assert_eq!(line, "{\"timestamp\":42,\"type\":\"tcp_connection\",\"metadata\":{\"source\":\"a\",\"dest\":\"b\"}}");
    count_written_line(&mut m, &line);
    assert_eq!(m.count(CounterKey::RecorderBytesWritten), line.len() as u64);
    count_written_line(&mut m, "\u{e9}");
    assert_eq!(m.count(CounterKey::RecorderBytesWritten), line.len() as u64 + 2);
}

#[test]
fn event_json_escapes_text() {
    let mut e = event(1, None);
    e.metadata.source = "x\"y".to_string();
    e.metadata.destination = "a\\b\n\u{1}".to_string();
    let line = event_json(&e);
    assert!(line.contains("\"source\":\"x\\\"y\""));
    assert!(line.contains("\"dest\":\"a\\\\b\\n\\u0001\""));
}

#[test]
fn addresses_get_the_default_port() {
    assert_eq!(address_with_default_port("127.0.0.1", 9090), "127.0.0.1:9090");
    assert_eq!(address_with_default_port("127.0.0.1:8080", 9090), "127.0.0.1:8080");
    assert_eq!(address_with_default_port("::1", 9090), "[::1]:9090");
    assert_eq!(address_with_default_port("fe80::1:2", 80), "[fe80::1:2]:80");
    assert_eq!(address_with_default_port("[::1]", 9090), "[::1]:9090");
    assert_eq!(address_with_default_port("[::1]:8080", 9090), "[::1]:8080");
    assert_eq!(address_with_default_port("example.com", 443), "example.com:443");
}

#[test]
fn histograms_are_the_documented_ones() {
    let m = Metrics::new().unwrap();
    assert_eq!(prometheus::core::Collector::desc(&m.tcp_duration_seconds().inner)[0].fq_name, "tcp_connection_duration_seconds");
    assert_eq!(prometheus::core::Collector::desc(&m.http_request_duration_seconds().inner)[0].fq_name, "http_request_duration_seconds");
    assert_eq!(prometheus::core::Collector::desc(m.http_request_size_bytes())[0].fq_name, "http_request_size_bytes");
    assert_eq!(prometheus::core::Collector::desc(m.http_response_size_bytes())[0].fq_name, "http_response_size_bytes");
    assert_eq!(prometheus::core::Collector::desc(m.quic_rtt_milliseconds())[0].fq_name, "quic_rtt_milliseconds");
}
