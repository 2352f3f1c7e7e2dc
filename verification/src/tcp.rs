//! The decisions of the TCP relay: admitting a connection, and what each read
//! on either side of a relayed connection leads to.
//!
//! The sockets are driven outside the library; after each read the caller
//! asks `relay_action` what to do and reports the outcome through the
//! functions here, which keep the metrics.

use vstd::prelude::*;
use crate::metrics::{CounterKey, Metrics, MetricsView};
use crate::safety::{after_sampling, connection_decision, connection_rate_limited, sampling_ok, SafetyGuard};
use crate::util::{clock_since_epoch, timestamp_secs_of};

verus! {

/// Which way bytes are being relayed.
#[derive(Debug, Clone, Copy, PartialEq, Eq, Structural)]
pub enum RelayDirection {
    /// Read from the client, written to the target.
    ClientToTarget,
    /// Read from the target, written to the client.
    TargetToClient,
}

/// How a non-blocking read ended.
#[derive(Debug, Clone, Copy, PartialEq, Eq, Structural)]
pub enum ReadOutcome {
    /// The peer closed the connection (a read of 0 bytes).
    Closed,
    /// `n > 0` bytes were read.
    Data(usize),
    /// No data was ready.
    WouldBlock,
    /// The read failed.
    Failed,
}

/// What the relay does after a read.
#[derive(Debug, Clone, Copy, PartialEq, Eq, Structural)]
pub enum RelayAction {
    /// Stop relaying: the connection is over.
    Finish,
    /// Write the `n` bytes read to the other side.
    Forward(usize),
    /// Nothing to do now; go on with the other side.
    Continue,
    /// Give up on the connection with an error.
    Abort,
}

/// The relay's answer to a read: a close finishes the connection, data is
/// forwarded, an empty read moves on, a failure aborts.
pub open spec fn relay_action_spec(outcome: ReadOutcome) -> RelayAction {
    match outcome {
        ReadOutcome::Closed => RelayAction::Finish,
        ReadOutcome::Data(n) => RelayAction::Forward(n),
        ReadOutcome::WouldBlock => RelayAction::Continue,
        ReadOutcome::Failed => RelayAction::Abort,
    }
}

/// What to do after a read.
pub fn relay_action(outcome: ReadOutcome) -> (r: RelayAction)
    ensures
        r == relay_action_spec(outcome),
{
    match outcome {
        ReadOutcome::Closed => RelayAction::Finish,
        ReadOutcome::Data(n) => RelayAction::Forward(n),
        ReadOutcome::WouldBlock => RelayAction::Continue,
        ReadOutcome::Failed => RelayAction::Abort,
    }
}

/// The error label of a failed read on the side that `direction` reads
/// from: `client_read` or `target_read`.
pub open spec fn read_error_label_spec(direction: RelayDirection) -> Seq<char> {
    match direction {
        RelayDirection::ClientToTarget => "client_read"@,
        RelayDirection::TargetToClient => "target_read"@,
    }
}

/// The error label of a failed read.
pub fn read_error_label(direction: RelayDirection) -> (r: &'static str)
    ensures
        r@ == read_error_label_spec(direction),
{
    match direction {
        RelayDirection::ClientToTarget => "client_read",
        RelayDirection::TargetToClient => "target_read",
    }
}

/// The metrics after a connection is admitted (one more connection, one
/// more active) or refused (one more rate-limited).
pub open spec fn after_admission(m: MetricsView, admitted: bool) -> MetricsView {
    if admitted {
        m.bumped(CounterKey::TcpConnectionsTotal, 1).with_active_moved(1)
    } else {
        m.bumped(CounterKey::SafetyRateLimited, 1)
    }
}

/// Admits or refuses a new connection at second `now`, as the safety guard
/// decides, and counts it: a refusal as rate-limited, an admission as a new
/// and active connection (after what the guard's sampling counted).
pub fn admit_connection_at(safety: &mut SafetyGuard, metrics: &mut Metrics, now: u64) -> (r: bool)
    requires
        sampling_ok(old(safety).sampling()),
    ensures
        (r, final(safety)@) == connection_decision(
            old(safety)@,
            old(safety).limit(),
            old(safety).sampling(),
            now,
        ),
        final(safety).config() == old(safety).config(),
        final(metrics)@ == after_admission(
            after_sampling(old(metrics)@, !r && !connection_rate_limited(old(safety)@, old(safety).limit(), now)),
            r,
        ),
{
    if !safety.should_allow_connection_at(metrics, now) {
        metrics.bump(CounterKey::SafetyRateLimited, 1);
        return false;
    }
    metrics.bump(CounterKey::TcpConnectionsTotal, 1);
    metrics.connection_opened();
    true
}

/// Admits or refuses a new connection now (see `admit_connection_at`).
pub fn admit_connection(safety: &mut SafetyGuard, metrics: &mut Metrics) -> (r: bool)
    requires
        sampling_ok(old(safety).sampling()),
    ensures
        exists|now: u64|
            {
                &&& (r, final(safety)@) == #[trigger] connection_decision(
                    old(safety)@,
                    old(safety).limit(),
                    old(safety).sampling(),
                    now,
                )
                &&& final(metrics)@ == after_admission(
                    after_sampling(old(metrics)@, !r && !connection_rate_limited(old(safety)@, old(safety).limit(), now)),
                    r,
                )
            },
        final(safety).config() == old(safety).config(),
{
    let now = timestamp_secs_of(clock_since_epoch());
    admit_connection_at(safety, metrics, now)
}

/// The counter that bytes relayed in `direction` go to: sent to the target,
/// or received from it.
pub open spec fn forwarded_counter(direction: RelayDirection) -> CounterKey {
    match direction {
        RelayDirection::ClientToTarget => CounterKey::TcpBytesSent,
        RelayDirection::TargetToClient => CounterKey::TcpBytesReceived,
    }
}

/// Counts `n` bytes relayed in `direction`: sent to the target, or received
/// from it.
pub fn count_forwarded(metrics: &mut Metrics, direction: RelayDirection, n: usize)
    ensures
        final(metrics)@ == old(metrics)@.bumped(forwarded_counter(direction), n as u64),
{
    match direction {
        RelayDirection::ClientToTarget => metrics.bump(CounterKey::TcpBytesSent, n as u64),
        RelayDirection::TargetToClient => metrics.bump(CounterKey::TcpBytesReceived, n as u64),
    }
}

/// Counts a failed read under its side's label.
pub fn count_read_error(metrics: &mut Metrics, direction: RelayDirection)
    ensures
        final(metrics)@ == old(metrics)@.with_tcp_error(read_error_label_spec(direction)),
{
    metrics.count_tcp_error(read_error_label(direction));
}

/// Counts a failed accept.
pub fn count_accept_error(metrics: &mut Metrics)
    ensures
        final(metrics)@ == old(metrics)@.with_tcp_error("accept"@),
{
    metrics.count_tcp_error("accept");
}

/// Counts a connection as no longer active.
pub fn count_connection_closed(metrics: &mut Metrics)
    ensures
        final(metrics)@ == old(metrics)@.with_active_moved(-1),
{
    metrics.connection_closed();
}

} // verus!
