//! The decisions of the UDP forwarder for each datagram.

use vstd::prelude::*;
use crate::metrics::{CounterKey, Metrics, MetricsView};
use crate::safety::{after_sampling, packet_decision, packet_rate_limited, sampling_ok, SafetyGuard};
use crate::util::{clock_since_epoch, timestamp_secs_of};

verus! {

/// What happens to a received datagram.
#[derive(Debug, Clone, Copy, PartialEq, Eq, Structural)]
pub enum PacketAction {
    /// The safety guard refused it: dropped.
    RateLimited,
    /// Larger than the maximum packet size: dropped.
    TooLarge,
    /// Forwarded to the target.
    Forward,
}

/// The guard decides first; an allowed datagram larger than `max_packet` is
/// dropped; the rest are forwarded.
pub open spec fn packet_action_spec(allowed: bool, len: usize, max_packet: usize) -> PacketAction {
    if !allowed {
        PacketAction::RateLimited
    } else if len > max_packet {
        PacketAction::TooLarge
    } else {
        PacketAction::Forward
    }
}

/// The metrics after a datagram's fate is decided: a refusal counts as
/// rate-limited and dropped, an oversized datagram as dropped, a forwarded
/// one as received with its bytes.
pub open spec fn after_packet(m: MetricsView, action: PacketAction, len: usize) -> MetricsView {
    match action {
        PacketAction::RateLimited => m.bumped(CounterKey::SafetyRateLimited, 1).bumped(
            CounterKey::UdpDropsTotal,
            1,
        ),
        PacketAction::TooLarge => m.bumped(CounterKey::UdpDropsTotal, 1),
        PacketAction::Forward => m.bumped(CounterKey::UdpPacketsReceived, 1).bumped(
            CounterKey::UdpBytesReceived,
            len as u64,
        ),
    }
}

/// Decides a datagram of `len` bytes arriving at second `now`, and counts
/// it (see `after_packet`), after what the guard's sampling counted.
pub fn on_packet_at(
    safety: &mut SafetyGuard,
    metrics: &mut Metrics,
    len: usize,
    max_packet: usize,
    now: u64,
) -> (r: PacketAction)
    requires
        sampling_ok(old(safety).sampling()),
    ensures
        ({
            let (allowed, s) = packet_decision(old(safety)@, old(safety).limit(), old(safety).sampling(), now);
            &&& final(safety)@ == s
            &&& r == packet_action_spec(allowed, len, max_packet)
            &&& final(metrics)@ == after_packet(
                after_sampling(old(metrics)@, !allowed && !packet_rate_limited(old(safety)@, old(safety).limit(), now)),
                r,
                len,
            )
        }),
        final(safety).config() == old(safety).config(),
{
    let allowed = safety.should_allow_packet_at(metrics, now);
    let action = if !allowed {
        PacketAction::RateLimited
    } else if len > max_packet {
        PacketAction::TooLarge
    } else {
        PacketAction::Forward
    };
    count_packet(metrics, action, len);
    action
}

/// Decides a datagram of `len` bytes arriving now (see `on_packet_at`).
pub fn on_packet(safety: &mut SafetyGuard, metrics: &mut Metrics, len: usize, max_packet: usize) -> (r:
    PacketAction)
    requires
        sampling_ok(old(safety).sampling()),
    ensures
        exists|now: u64|
            {
                let (allowed, s) = #[trigger] packet_decision(
                    old(safety)@,
                    old(safety).limit(),
                    old(safety).sampling(),
                    now,
                );
                &&& final(safety)@ == s
                &&& r == packet_action_spec(allowed, len, max_packet)
                &&& final(metrics)@ == after_packet(
                    after_sampling(old(metrics)@, !allowed && !packet_rate_limited(old(safety)@, old(safety).limit(), now)),
                    r,
                    len,
                )
            },
        final(safety).config() == old(safety).config(),
{
    let now = timestamp_secs_of(clock_since_epoch());
    on_packet_at(safety, metrics, len, max_packet, now)
}

fn count_packet(metrics: &mut Metrics, action: PacketAction, len: usize)
    ensures
        final(metrics)@ == after_packet(old(metrics)@, action, len),
{
    match action {
        PacketAction::RateLimited => {
            metrics.bump(CounterKey::SafetyRateLimited, 1);
            metrics.bump(CounterKey::UdpDropsTotal, 1);
        },
        PacketAction::TooLarge => {
            metrics.bump(CounterKey::UdpDropsTotal, 1);
        },
        PacketAction::Forward => {
            metrics.bump(CounterKey::UdpPacketsReceived, 1);
            metrics.bump(CounterKey::UdpBytesReceived, len as u64);
        },
    }
}

/// Whether a send delivered the whole datagram.
pub open spec fn send_complete(sent: Option<usize>, len: usize) -> bool {
    sent == Some(len)
}

/// The metrics after forwarding a datagram of `len` bytes: a complete send
/// counts as sent with its bytes, anything else as a drop.
pub open spec fn after_send(m: MetricsView, sent: Option<usize>, len: usize) -> MetricsView {
    if send_complete(sent, len) {
        m.bumped(CounterKey::UdpPacketsSent, 1).bumped(CounterKey::UdpBytesSent, len as u64)
    } else {
        m.bumped(CounterKey::UdpDropsTotal, 1)
    }
}

/// Counts the outcome of forwarding a datagram of `len` bytes (`sent` is the
/// number of bytes sent, `None` for a failed send; see `after_send`).
/// Answers whether the send was complete.
pub fn on_sent(metrics: &mut Metrics, sent: Option<usize>, len: usize) -> (r: bool)
    ensures
        r == send_complete(sent, len),
        final(metrics)@ == after_send(old(metrics)@, sent, len),
{
    match sent {
        Some(n) => {
            if n == len {
                metrics.bump(CounterKey::UdpPacketsSent, 1);
                metrics.bump(CounterKey::UdpBytesSent, n as u64);
                true
            } else {
                metrics.bump(CounterKey::UdpDropsTotal, 1);
                false
            }
        },
        None => {
            metrics.bump(CounterKey::UdpDropsTotal, 1);
            false
        },
    }
}

/// Counts a failed receive as a drop.
pub fn on_receive_error(metrics: &mut Metrics)
    ensures
        final(metrics)@ == old(metrics)@.bumped(CounterKey::UdpDropsTotal, 1),
{
    metrics.bump(CounterKey::UdpDropsTotal, 1);
}

} // verus!
