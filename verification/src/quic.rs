//! QUIC observation: telling QUIC packets apart by their first bytes.

use vstd::prelude::*;
use crate::config::Config;
use crate::metrics::{CounterKey, Metrics};

verus! {

/// The version field of a long-header packet: bytes 1 to 4, big-endian.
pub open spec fn long_header_version(data: Seq<u8>) -> nat {
    data[1] as nat * 16777216 + data[2] as nat * 65536 + data[3] as nat * 256 + data[4] as nat
}

/// Whether a datagram looks like QUIC: a long header (top bit set) with a
/// version field present must carry a version other than 0; otherwise the
/// second-highest bit must be set.
pub open spec fn is_quic_spec(data: Seq<u8>) -> bool {
    if data.len() == 0 {
        false
    } else if (data[0] & 0x80) != 0 && data.len() >= 5 {
        long_header_version(data) != 0
    } else {
        (data[0] & 0x40) != 0
    }
}

/// QUIC detection by the first byte's two top bits: a datagram whose first
/// byte has neither the long-header bit (0x80) nor the fixed bit (0x40) is
/// never QUIC; without the long-header bit the version field is not
/// consulted and the fixed bit alone decides; with it, a datagram of at
/// least 5 bytes is QUIC exactly when its version (bytes 1 to 4) is not 0.
pub proof fn lemma_quic_header_bits(data: Seq<u8>)
    ensures
        data.len() == 0 ==> !is_quic_spec(data),
        data.len() > 0 && data[0] & 0xC0 == 0 ==> !is_quic_spec(data),
        data.len() > 0 && data[0] & 0x80 == 0 ==> (is_quic_spec(data) <==> data[0] & 0x40 != 0),
        data.len() >= 5 && data[0] & 0x80 != 0 ==> (is_quic_spec(data) <==> (data[1] != 0
            || data[2] != 0 || data[3] != 0 || data[4] != 0)),
{
    if data.len() > 0 {
        let b = data[0];
        assert(b & 0xC0 == 0 ==> b & 0x80 == 0 && b & 0x40 == 0) by (bit_vector);
    }
}

/// QUIC/HTTP/3 observer (observe-only).
pub struct QuicObserver {
    config: std::sync::Arc<Config>,
}

impl QuicObserver {
    /// The configuration the observer holds.
    pub closed spec fn config(&self) -> Config {
        *self.config
    }

    /// An observer with this configuration; the metrics it counts in are
    /// handed to each call.
    pub fn new(config: std::sync::Arc<Config>) -> (r: Self)
        ensures
            r.config() == *config,
    {
        QuicObserver { config }
    }

    /// Detects a QUIC packet by its header format.
    pub fn is_quic(data: &[u8]) -> (r: bool)
        ensures
            r == is_quic_spec(data@),
    {
        if data.len() == 0 {
            return false;
        }
        let first_byte = data[0];
        let is_long_header = (first_byte & 0x80) != 0;
        if is_long_header && data.len() >= 5 {
            let version: u32 = (data[1] as u32) * 16777216 + (data[2] as u32) * 65536 + (data[3] as u32)
                * 256 + (data[4] as u32);
            return version != 0;
        }
        (first_byte & 0x40) != 0
    }

    /// Counts a packet and its bytes.
    pub fn count_packet(&self, metrics: &mut Metrics, data: &[u8])
        ensures
            final(metrics)@ == old(metrics)@.bumped(CounterKey::QuicPacketsTotal, 1).bumped(
                CounterKey::QuicBytesTotal,
                data@.len() as u64,
            ),
    {
        metrics.bump(CounterKey::QuicPacketsTotal, 1);
        metrics.bump(CounterKey::QuicBytesTotal, data.len() as u64);
    }
}

} // verus!
