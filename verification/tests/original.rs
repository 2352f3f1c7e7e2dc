use std::sync::Arc;

use superpilot::config::{Config, Sampling};
use superpilot::http1::Http1Observer;
use superpilot::http2::Http2Observer;
use superpilot::metrics::Metrics;
use superpilot::mitm::MitmProxy;
use superpilot::quic::QuicObserver;
use superpilot::recorder::Recorder;
use superpilot::safety::SafetyGuard;
use superpilot::util::{
    address_with_default_port, current_timestamp_millis, current_timestamp_secs, format_bytes,
};

#[test]
fn test_format_bytes() {
    assert_eq!(format_bytes(500), "500.00 B");
    assert_eq!(format_bytes(1024), "1.00 KB");
    assert_eq!(format_bytes(1024 * 1024), "1.00 MB");
    assert_eq!(format_bytes(1024 * 1024 * 1024), "1.00 GB");
}

/// The port of an `ip:port` address text.
fn port_of(addr: &str) -> u16 {
    addr.rsplit(':').next().unwrap().parse().unwrap()
}

#[test]
fn test_parse_addr_with_default() {
    let addr = address_with_default_port("127.0.0.1:8080", 9090);
    assert_eq!(port_of(&addr), 8080);

    let addr = address_with_default_port("127.0.0.1", 9090);
    assert_eq!(port_of(&addr), 9090);
}

#[test]
fn test_timestamps() {
    let secs = current_timestamp_secs();
    let millis = current_timestamp_millis();

    assert!(secs > 0);
    assert!(millis > 0);
    assert!(millis > secs * 1000);
}

#[test]
fn test_http1_observer_creation() {
    let config = Arc::new(Config::default());
    let _metrics = Metrics::new().unwrap();
    let _observer = Http1Observer::new(config);
    assert!(true);
}

#[test]
fn test_http2_detection() {
    let preface = b"PRI * HTTP/2.0\r\n\r\nSM\r\n\r\n";
    assert!(Http2Observer::is_http2(preface));
    assert!(!Http2Observer::is_http2(b"GET / HTTP/1.1\r\n"));
}

#[test]
fn test_http2_observer_creation() {
    let config = Arc::new(Config::default());
    let _metrics = Metrics::new().unwrap();
    let _observer = Http2Observer::new(config);
    assert!(true);
}

#[test]
fn test_default_config() {
    let config = Config::default();
    assert_eq!(config.listen_addr.port(), 8080);
    assert_eq!(config.target_addr.port(), 8081);
}

#[test]
fn test_metrics_initialization() {
    let metrics = Metrics::new();
    assert!(metrics.is_ok());
}

#[test]
fn test_mitm_proxy_creation() {
    let config = Arc::new(Config::default());
    let _mitm = MitmProxy::new(config);
    assert!(true);
}

#[test]
fn test_quic_detection() {
    let quic_long = vec![0xC0, 0x00, 0x00, 0x00, 0x01];
    assert!(QuicObserver::is_quic(&quic_long));

    let quic_short = vec![0x40, 0x01, 0x02, 0x03];
    assert!(QuicObserver::is_quic(&quic_short));

    let not_quic = vec![0x00, 0x01, 0x02, 0x03];
    assert!(!QuicObserver::is_quic(&not_quic));
}

#[test]
fn test_quic_observer_creation() {
    let config = Arc::new(Config::default());
    let _metrics = Metrics::new().unwrap();
    let _observer = QuicObserver::new(config);
    assert!(true);
}

#[test]
fn test_recorder_creation() {
    let config = Arc::new(Config::default());
    let _metrics = Metrics::new().unwrap();
    let recorder = Recorder::new(config);
    assert!(!recorder.is_enabled());
}

#[test]
fn test_recorder_enable_disable() {
    let config = Arc::new(Config::default());
    let _metrics = Metrics::new().unwrap();
    let mut recorder = Recorder::new(config);

    assert!(!recorder.is_enabled());
    recorder.enable();
    assert!(recorder.is_enabled());
    recorder.disable();
    assert!(!recorder.is_enabled());
}

#[test]
fn test_safety_guard_creation() {
    let config = Arc::new(Config::default());
    let _metrics = Metrics::new().unwrap();
    let _guard = SafetyGuard::new(config);
    assert!(true);
}

#[test]
fn test_rate_limiting() {
    let mut config = Config::default();
    config.safety.rate_limit_requests_per_sec = 10;
    config.safety.sampling = Sampling::KeepAll; // a sampling rate of 1.0: no sampling

    let config = Arc::new(config);
    let mut metrics = Metrics::new().unwrap();
    let mut guard = SafetyGuard::new(config);

    for _ in 0..10 {
        assert!(guard.should_allow_connection(&mut metrics));
    }

    assert!(!guard.should_allow_connection(&mut metrics));
}

#[test]
fn test_sampling() {
    let mut config = Config::default();
    config.safety.rate_limit_requests_per_sec = 100000;
    config.safety.sampling = Sampling::KeepOneIn(2); // a sampling rate of 0.5

    let config = Arc::new(config);
    let mut metrics = Metrics::new().unwrap();
    let mut guard = SafetyGuard::new(config);

    let mut allowed = 0;
    let total = 100;

    for _ in 0..total {
        if guard.should_allow_connection(&mut metrics) {
            allowed += 1;
        }
    }

    assert!(allowed > 30 && allowed < 70);
}
