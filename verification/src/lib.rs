//! Superpilot: the decision logic of a production-safe observability sidecar.

pub mod text;
pub mod util;
pub mod config;
pub mod metrics;
pub mod descriptor_ids;
pub mod safety;
pub mod recorder;
pub mod http1;
pub mod http2;
pub mod quic;
pub mod mitm;
pub mod tcp;
pub mod udp;
pub mod push;
