use std::sync::Arc;

use superpilot::config::{Config, ProxyMode, SockAddr};
use superpilot::http1::{
    parse_request_line, parse_status_line, status_label, HeaderLine, Http1Error, Http1Observer,
};
use superpilot::metrics::Metrics;
use superpilot::text::{chars_of, decimal_chars, first_words, is_ws_char, parse_unsigned_range};

#[test]
fn whitespace_matches_char_is_whitespace() {
    for u in 0u32..=0x10FFFF {
        if let Some(c) = char::from_u32(u) {
            assert_eq!(is_ws_char(c), c.is_whitespace(), "U+{:04X}", u);
        }
    }
}

#[test]
fn only_two_non_ascii_characters_lowercase_to_ascii() {
    for u in 0x80u32..=0x10FFFF {
        if let Some(c) = char::from_u32(u) {
            let first = c.to_lowercase().next().unwrap();
            if first.is_ascii() {
                assert!(u == 0x130 || u == 0x212A, "U+{:04X}", u);
            }
        }
    }
}

fn samples() -> Vec<String> {
    let mut v: Vec<String> = vec![
        "GET / HTTP/1.1\r\n", "  GET   /a  HTTP/1.0  \n", "GET /\r\n", "", " \t\r\n", "POST",
        "a\u{2003}b\u{3000}c", "\u{85}x\u{a0}y z\u{2029}", "x y z w", "HTTP/1.1 200 OK\r\n",
        "HTTP/1.1 abc OK", "HTTP/1.1 +404", "HTTP/1.1 65535", "HTTP/1.1 65536", "HTTP/1.1 -1",
        "HTTP/1.1 0042 x", "HTTP/1.1", "HTTP/1.1 ٣", "tcp", "TCP", "Udp", "HTTP", "https", "tc p",
        "\u{212A}", "t\u{0130}", "",
    ]
    .into_iter()
    .map(|s| s.to_string())
    .collect();
    let pieces = ["a", "GE", " ", "\t", "\u{2000}", "/x", ":", "+", "1", "9", "\r\n", "é", "K", "\u{212A}"];
    let mut x: u32 = 12345;
    for _ in 0..3000 {
        let mut s = String::new();
        x = x.wrapping_mul(1103515245).wrapping_add(12345);
        let n = (x >> 16) % 9;
        for _ in 0..n {
            x = x.wrapping_mul(1103515245).wrapping_add(12345);
            s.push_str(pieces[((x >> 16) as usize) % pieces.len()]);
        }
        v.push(s);
    }
    v
}

#[test]
fn request_line_matches_split_whitespace() {
    for s in samples() {
        let parts: Vec<&str> = s.trim().split_whitespace().collect();
        let expected = if parts.len() < 3 {
            Err(Http1Error::InvalidRequestLine)
        } else {
            Ok((parts[0].to_string(), parts[1].to_string(), parts[2].to_string()))
        };
        assert_eq!(parse_request_line(&s), expected, "{:?}", s);
    }
}

#[test]
fn status_line_matches_split_whitespace_and_parse() {
    for s in samples() {
        let parts: Vec<&str> = s.trim().split_whitespace().collect();
        let expected = if parts.len() < 2 {
            Err(Http1Error::InvalidResponseLine)
        } else {
            Ok((parts[0].to_string(), parts[1].parse::<u16>().unwrap_or(0)))
        };
        assert_eq!(parse_status_line(&s), expected, "{:?}", s);
    }
}

#[test]
fn proxy_mode_matches_lowercase_names() {
    for s in samples() {
        let expected = match s.to_lowercase().as_str() {
            "tcp" => ProxyMode::Tcp,
            "udp" => ProxyMode::Udp,
            "http" => ProxyMode::Http,
            _ => ProxyMode::Tcp,
        };
        assert_eq!(ProxyMode::from_name(&s), expected, "{:?}", s);
    }
    assert_eq!(ProxyMode::from_name("UDP"), ProxyMode::Udp);
    assert_eq!(ProxyMode::from_name("hTtP"), ProxyMode::Http);
    assert_eq!(ProxyMode::from_name("quic"), ProxyMode::Tcp);
}

#[test]
fn words_and_numbers() {
    let cs = chars_of("  one two\tthree  ");
    let w = first_words(&cs, 2);
    assert_eq!(w.len(), 2);
    assert_eq!(w[0].iter().collect::<String>(), "one");
    assert_eq!(w[1].iter().collect::<String>(), "two");
    assert_eq!(first_words(&chars_of(" \n"), 3).len(), 0);

    assert_eq!(decimal_chars(0).iter().collect::<String>(), "0");
    assert_eq!(decimal_chars(1234567890123).iter().collect::<String>(), "1234567890123");
    assert_eq!(decimal_chars(u128::MAX).iter().collect::<String>(), u128::MAX.to_string());

    let digits = chars_of("+18446744073709551615");
    assert_eq!(parse_unsigned_range(&digits, 0, digits.len(), u64::MAX), Some(u64::MAX));
    let too_big = chars_of("18446744073709551616");
    assert_eq!(parse_unsigned_range(&too_big, 0, too_big.len(), u64::MAX), None);
    let inner = chars_of("x42y");
    assert_eq!(parse_unsigned_range(&inner, 1, 3, 100), Some(42));
    assert_eq!(parse_unsigned_range(&inner, 1, 3, 41), None);
    assert_eq!(parse_unsigned_range(&inner, 1, 1, 100), None);
    let plus = chars_of("+");
    assert_eq!(parse_unsigned_range(&plus, 0, 1, 100), None);
}

fn observer(max_header: usize, max_body: usize) -> Http1Observer {
    let mut config = Config::default();
    config.http.max_header_size = max_header;
    config.http.max_body_size = max_body;
    Http1Observer::new(Arc::new(config))
}

#[test]
fn header_block_scanning() {
    let obs = observer(8192, 1024 * 1024);
    let start = "GET /index.html HTTP/1.1\r\n";
    let mut scan = obs.start_head(start);
    assert_eq!(scan.headers_size, start.len());
    assert_eq!(scan.content_length, 0);

    assert_eq!(obs.scan_header_line(&mut scan, "Host: example.com\r\n"), HeaderLine::Header);
    assert_eq!(obs.scan_header_line(&mut scan, "CONTENT-LENGTH:  42 \r\n"), HeaderLine::Header);
    assert_eq!(scan.content_length, 42);
    assert_eq!(obs.scan_header_line(&mut scan, "\r\n"), HeaderLine::End);
    assert_eq!(scan.headers_size, start.len() + 19 + 22 + 2);
    assert_eq!(obs.body_length(&scan), Some(42));
}

#[test]
fn content_length_values() {
    let obs = observer(8192, 100);
    let cases: Vec<(&str, usize)> = vec![
        ("Content-Length: 7\r\n", 7),
        ("content-length:+7\n", 7),
        ("Content-Length: seven\r\n", 0),
        ("Content-Length: 7:8\r\n", 7),
        ("Content-Length:\r\n", 0),
        ("Content-Length: 99999999999999999999999\r\n", 0),
        ("Content-Length : 7\r\n", 5),
        ("X-Content-Length: 7\r\n", 5),
        ("Content-\u{212A}ength: 7\r\n", 5),
    ];
    for (line, expected) in cases {
        let mut scan = obs.start_head("GET / HTTP/1.1\r\n");
        scan.content_length = 5;
        obs.scan_header_line(&mut scan, line);
        assert_eq!(scan.content_length, expected, "{:?}", line);
    }
    let mut scan = obs.start_head("GET / HTTP/1.1\r\n");
    scan.content_length = 101;
    assert_eq!(obs.body_length(&scan), None);
    scan.content_length = 100;
    assert_eq!(obs.body_length(&scan), Some(100));
    scan.content_length = 0;
    assert_eq!(obs.body_length(&scan), None);
}

#[test]
fn header_block_too_large() {
    let obs = observer(30, 100);
    let mut scan = obs.start_head("GET / HTTP/1.1\r\n");
    assert_eq!(scan.headers_size, 16);
    assert_eq!(obs.scan_header_line(&mut scan, "A: 123456789\r\n"), HeaderLine::Header);
    assert_eq!(scan.headers_size, 30);
    assert_eq!(obs.scan_header_line(&mut scan, "B: 1\r\n"), HeaderLine::TooLarge);
    // Past the limit even the closing blank line is refused.
    assert_eq!(obs.scan_header_line(&mut scan, "\r\n"), HeaderLine::TooLarge);
}

#[test]
fn long_request_line_alone_is_too_large() {
    let obs = observer(8192, 1024 * 1024);
    let line = format!("GET /{} HTTP/1.1\r\n", "a".repeat(9000));
    let mut scan = obs.start_head(&line);
    assert_eq!(scan.headers_size, 9016);
    assert_eq!(obs.scan_header_line(&mut scan, "\r\n"), HeaderLine::TooLarge);
    assert_eq!(scan.headers_size, 9018);
}

#[test]
fn head_at_the_limit_ends() {
    let obs = observer(18, 100);
    let mut scan = obs.start_head("GET / HTTP/1.1\r\n");
    assert_eq!(obs.scan_header_line(&mut scan, "\r\n"), HeaderLine::End);
    assert_eq!(scan.headers_size, 18);
}

#[test]
fn status_labels() {
    assert_eq!(status_label(200), "200");
    assert_eq!(status_label(0), "0");
    assert_eq!(status_label(65535), "65535");
}

#[test]
fn env_configuration() {
    let c = Config::from_env(None, None, None);
    assert_eq!(c.listen_addr, SockAddr::v4(0, 0, 0, 0, 8080));
    assert_eq!(c.target_addr, SockAddr::v4(127, 0, 0, 1, 8081));
    assert_eq!(c.mode, ProxyMode::Tcp);

    let c = Config::from_env(Some(SockAddr::v4(10, 0, 0, 1, 80)), None, Some("UDP"));
    assert_eq!(c.listen_addr, SockAddr::v4(10, 0, 0, 1, 80));
    assert_eq!(c.target_addr.port(), 8081);
    assert_eq!(c.mode, ProxyMode::Udp);
    assert_eq!(c.metrics_addr.port(), 9090);
    assert_eq!(c.tcp.buffer_size, 8192);

    let c = Config::from_env(None, Some(SockAddr::v4(1, 2, 3, 4, 5)), Some("sctp"));
    assert_eq!(c.target_addr, SockAddr::v4(1, 2, 3, 4, 5));
    assert_eq!(c.mode, ProxyMode::Tcp);
}

#[test]
fn default_settings() {
    let c = Config::default();
    assert_eq!(c.metrics_addr.port(), 9090);
    assert_eq!(c.udp.buffer_size, 65536);
    assert_eq!(c.udp.max_packet_size, 65507);
    assert_eq!(c.http.max_header_size, 8192);
    assert_eq!(c.http.max_body_size, 1048576);
    assert!(!c.recorder.enabled);
    assert_eq!(c.recorder.output_path, "/tmp/recordings");
    assert_eq!(c.safety.rate_limit_requests_per_sec, 10000);
    assert_eq!(c.prometheus.job_name, "superpilot");
    assert_eq!(c.prometheus.instance, "localhost");
    assert_eq!(c.prometheus.push_interval_secs, 60);
    assert!(c.prometheus.push_gateway_url.is_none());
}
