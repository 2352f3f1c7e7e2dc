//! Configuration: proxy mode, buffer sizes, limits and the defaults.

use vstd::prelude::*;
use crate::text::{ascii_prefix_ci, ascii_prefix_ci_exec, chars_of};

verus! {

/// An IP address, as `std::net::IpAddr` holds it.
#[derive(Clone, Copy, Debug, PartialEq, Eq)]
pub enum IpAddress {
    V4(u8, u8, u8, u8),
    V6 { segments: [u16; 8], flowinfo: u32, scope_id: u32 },
}

/// A socket address: an IP address and a port.
#[derive(Clone, Copy, Debug, PartialEq, Eq)]
pub struct SockAddr {
    pub ip: IpAddress,
    pub port: u16,
}

impl SockAddr {
    /// An IPv4 socket address.
    pub fn v4(a: u8, b: u8, c: u8, d: u8, port: u16) -> (r: SockAddr)
        ensures
            r.ip == IpAddress::V4(a, b, c, d),
            r.port == port,
    {
        SockAddr { ip: IpAddress::V4(a, b, c, d), port }
    }

    /// The port.
    pub fn port(&self) -> (r: u16)
        ensures
            r == self.port,
    {
        self.port
    }
}

/// How traffic is handled.
#[derive(Clone, Copy, Debug, PartialEq, Eq, Structural)]
pub enum ProxyMode {
    Tcp,
    Udp,
    Http,
}

/// `s` equals the lowercase ASCII word `w`, ignoring ASCII case.
pub open spec fn names(s: Seq<char>, w: Seq<char>) -> bool {
    s.len() == w.len() && ascii_prefix_ci(s, w)
}

/// The mode that a `PROXY_MODE` value selects: `tcp`, `udp` or `http` in any
/// letter case, and `Tcp` for anything else.
pub open spec fn proxy_mode_named(s: Seq<char>) -> ProxyMode {
    if names(s, seq!['t', 'c', 'p']) {
        ProxyMode::Tcp
    } else if names(s, seq!['u', 'd', 'p']) {
        ProxyMode::Udp
    } else if names(s, seq!['h', 't', 't', 'p']) {
        ProxyMode::Http
    } else {
        ProxyMode::Tcp
    }
}

impl ProxyMode {
    /// The mode named by `name` (case-insensitive); `Tcp` when the name is
    /// none of `tcp`, `udp`, `http`.
    pub fn from_name(name: &str) -> (r: ProxyMode)
        ensures
            r == proxy_mode_named(name@),
    {
        let cs = chars_of(name);
        let n = cs.len();
        let tcp = vec!['t', 'c', 'p'];
        let udp = vec!['u', 'd', 'p'];
        let http = vec!['h', 't', 't', 'p'];
        assert(cs@.subrange(0, n as int) =~= cs@);
        if n == 3 && ascii_prefix_ci_exec(&cs, 0, &tcp) {
            ProxyMode::Tcp
        } else if n == 3 && ascii_prefix_ci_exec(&cs, 0, &udp) {
            ProxyMode::Udp
        } else if n == 4 && ascii_prefix_ci_exec(&cs, 0, &http) {
            ProxyMode::Http
        } else {
            ProxyMode::Tcp
        }
    }
}

#[derive(Clone, Copy, Debug)]
pub struct TcpConfig {
    pub buffer_size: usize,
    pub connection_timeout_secs: u64,
}

#[derive(Clone, Copy, Debug)]
pub struct UdpConfig {
    pub buffer_size: usize,
    pub max_packet_size: usize,
}

#[derive(Clone, Copy, Debug)]
pub struct HttpConfig {
    pub max_header_size: usize,
    pub max_body_size: usize,
}

/// What the recorder keeps of an event.
#[derive(Clone, Copy, Debug, PartialEq, Eq, Structural)]
pub enum RecordingMode {
    Off,
    Metadata,
    Payload,
}

#[derive(Clone, Debug)]
pub struct RecorderConfig {
    pub enabled: bool,
    pub mode: RecordingMode,
    pub buffer_size: usize,
    pub output_path: String,
    pub tls_mitm: bool,
    pub ca_cert_path: Option<String>,
    pub ca_key_path: Option<String>,
}

/// Which admitted calls the safety guard keeps.  A sampling rate `r` of at
/// least 1 keeps every call; below 1 it keeps one call in `(1 / r) as u64`.
#[derive(Clone, Copy, Debug, PartialEq, Eq, Structural)]
pub enum Sampling {
    KeepAll,
    KeepOneIn(u64),
}

#[derive(Clone, Copy, Debug)]
pub struct SafetyConfig {
    pub max_memory_mb: usize,
    pub max_latency_ms: u64,
    pub rate_limit_requests_per_sec: u64,
    pub sampling: Sampling,
}

#[derive(Clone, Debug)]
pub struct PrometheusConfig {
    pub push_gateway_url: Option<String>,
    pub push_interval_secs: u64,
    pub job_name: String,
    pub instance: String,
}

/// The default push settings: no gateway, a 60 s interval, job `superpilot`,
/// instance `localhost`.
pub open spec fn is_default_prometheus(p: PrometheusConfig) -> bool {
    &&& p.push_gateway_url is None
    &&& p.push_interval_secs == 60
    &&& p.job_name@ == "superpilot"@
    &&& p.instance@ == "localhost"@
}

impl Default for PrometheusConfig {
    fn default() -> (r: Self)
        ensures
            is_default_prometheus(r),
    {
        PrometheusConfig {
            push_gateway_url: None,
            push_interval_secs: 60,
            job_name: "superpilot".to_owned(),
            instance: "localhost".to_owned(),
        }
    }
}

#[derive(Clone, Debug)]
pub struct Config {
    pub listen_addr: SockAddr,
    pub target_addr: SockAddr,
    pub mode: ProxyMode,
    pub metrics_addr: SockAddr,
    pub tcp: TcpConfig,
    pub udp: UdpConfig,
    pub http: HttpConfig,
    pub recorder: RecorderConfig,
    pub safety: SafetyConfig,
    pub prometheus: PrometheusConfig,
}

/// The default listen address, `0.0.0.0:8080`.
pub open spec fn default_listen_addr() -> SockAddr {
    SockAddr { ip: IpAddress::V4(0, 0, 0, 0), port: 8080 }
}

/// The default target address, `127.0.0.1:8081`.
pub open spec fn default_target_addr() -> SockAddr {
    SockAddr { ip: IpAddress::V4(127, 0, 0, 1), port: 8081 }
}

/// Every setting but the listen address, the target address and the mode has
/// its default value.
pub open spec fn has_default_settings(c: Config) -> bool {
    &&& c.metrics_addr == SockAddr { ip: IpAddress::V4(0, 0, 0, 0), port: 9090 }
    &&& c.tcp.buffer_size == 8192
    &&& c.tcp.connection_timeout_secs == 300
    &&& c.udp.buffer_size == 65536
    &&& c.udp.max_packet_size == 65507
    &&& c.http.max_header_size == 8192
    &&& c.http.max_body_size == 1024 * 1024
    &&& !c.recorder.enabled
    &&& c.recorder.mode == RecordingMode::Off
    &&& c.recorder.buffer_size == 1024 * 1024
    &&& c.recorder.output_path@ == "/tmp/recordings"@
    &&& !c.recorder.tls_mitm
    &&& c.recorder.ca_cert_path is None
    &&& c.recorder.ca_key_path is None
    &&& c.safety.max_memory_mb == 256
    &&& c.safety.max_latency_ms == 100
    &&& c.safety.rate_limit_requests_per_sec == 10000
    &&& c.safety.sampling == Sampling::KeepAll
    &&& is_default_prometheus(c.prometheus)
}

/// The default configuration.
pub open spec fn is_default_config(c: Config) -> bool {
    &&& c.listen_addr == default_listen_addr()
    &&& c.target_addr == default_target_addr()
    &&& c.mode == ProxyMode::Tcp
    &&& has_default_settings(c)
}

impl Default for Config {
    fn default() -> (r: Self)
        ensures
            is_default_config(r),
    {
        Config {
            listen_addr: SockAddr::v4(0, 0, 0, 0, 8080),
            target_addr: SockAddr::v4(127, 0, 0, 1, 8081),
            mode: ProxyMode::Tcp,
            metrics_addr: SockAddr::v4(0, 0, 0, 0, 9090),
            tcp: TcpConfig { buffer_size: 8192, connection_timeout_secs: 300 },
            udp: UdpConfig { buffer_size: 65536, max_packet_size: 65507 },
            http: HttpConfig { max_header_size: 8192, max_body_size: 1024 * 1024 },
            recorder: RecorderConfig {
                enabled: false,
                mode: RecordingMode::Off,
                buffer_size: 1024 * 1024,
                output_path: "/tmp/recordings".to_owned(),
                tls_mitm: false,
                ca_cert_path: None,
                ca_key_path: None,
            },
            safety: SafetyConfig {
                max_memory_mb: 256,
                max_latency_ms: 100,
                rate_limit_requests_per_sec: 10000,
                sampling: Sampling::KeepAll,
            },
            prometheus: PrometheusConfig::default(),
        }
    }
}

impl Config {
    /// The configuration that the environment selects: the defaults, with the
    /// listen and target addresses replaced by those given (a `LISTEN_ADDR` or
    /// `TARGET_ADDR` that was set and parsed) and the mode by the one that a
    /// set `PROXY_MODE` names.
    pub fn from_env(
        listen_addr: Option<SockAddr>,
        target_addr: Option<SockAddr>,
        proxy_mode: Option<&str>,
    ) -> (r: Config)
        ensures
            r.listen_addr == (match listen_addr {
                Some(a) => a,
                None => default_listen_addr(),
            }),
            r.target_addr == (match target_addr {
                Some(a) => a,
                None => default_target_addr(),
            }),
            r.mode == (match proxy_mode {
                Some(m) => proxy_mode_named(m@),
                None => ProxyMode::Tcp,
            }),
            has_default_settings(r),
    {
        let mut config = Config::default();
        if let Some(a) = listen_addr {
            config.listen_addr = a;
        }
        if let Some(a) = target_addr {
            config.target_addr = a;
        }
        if let Some(m) = proxy_mode {
            config.mode = ProxyMode::from_name(m);
        }
        config
    }
}

} // verus!
