//! The safety guard: per-second rate limiting, deterministic sampling and the
//! one-way switch that turns the recorder off under pressure.

use vstd::prelude::*;
use crate::config::{Config, Sampling};
use crate::metrics::{CounterKey, Metrics, MetricsView};
use crate::util::{
    clock_since_epoch, duration_secs, duration_subsec, duration_subsec_nanos, duration_whole_secs,
    timestamp_secs_of,
};

verus! {

/// The mutable state of a `SafetyGuard`.
pub struct GuardView {
    pub connections: u64,
    pub packets: u64,
    pub last_reset: u64,
    pub sample_counter: u64,
    pub recorder_disabled: bool,
    pub disable_timestamp: u64,
    /// Why the recorder was turned off (empty while it is on).
    pub disable_reason: Seq<char>,
}

/// `x + 1`, wrapping to 0 past `u64::MAX` (as `AtomicU64::fetch_add` does).
pub open spec fn wrap_inc(x: u64) -> u64 {
    if x == u64::MAX {
        0
    } else {
        (x + 1) as u64
    }
}

/// The state after the once-a-second reset: a call in a later second than the
/// last reset zeroes both counters and records the new second.
pub open spec fn reset_if_new_second(s: GuardView, now: u64) -> GuardView {
    if now > s.last_reset {
        GuardView { connections: 0, packets: 0, last_reset: now, ..s }
    } else {
        s
    }
}

/// The sampling decision: keep every call, or keep the calls whose sample
/// counter (counting every call that reaches sampling) is a multiple of `n`.
pub open spec fn sample(s: GuardView, sampling: Sampling) -> (bool, GuardView) {
    match sampling {
        Sampling::KeepAll => (true, s),
        Sampling::KeepOneIn(n) => (
            s.sample_counter % n == 0,
            GuardView { sample_counter: wrap_inc(s.sample_counter), ..s },
        ),
    }
}

/// A connection arriving at second `now`: after the reset, the connection
/// counter is bumped; the connection is admitted when the count before it was
/// below `limit` and sampling keeps it.
pub open spec fn connection_decision(s: GuardView, limit: u64, sampling: Sampling, now: u64) -> (
    bool,
    GuardView,
) {
    let s1 = reset_if_new_second(s, now);
    let s2 = GuardView { connections: wrap_inc(s1.connections), ..s1 };
    if s1.connections >= limit {
        (false, s2)
    } else {
        sample(s2, sampling)
    }
}

/// A packet arriving at second `now`, counted against the packet counter as
/// `connection_decision` counts connections.
pub open spec fn packet_decision(s: GuardView, limit: u64, sampling: Sampling, now: u64) -> (
    bool,
    GuardView,
) {
    let s1 = reset_if_new_second(s, now);
    let s2 = GuardView { packets: wrap_inc(s1.packets), ..s1 };
    if s1.packets >= limit {
        (false, s2)
    } else {
        sample(s2, sampling)
    }
}

/// The recorder switch turned off at second `now` for `reason`: the first
/// time it is turned off the second and the reason are recorded; later calls
/// change nothing.
pub open spec fn disable(s: GuardView, now: u64, reason: Seq<char>) -> GuardView {
    if s.recorder_disabled {
        s
    } else {
        GuardView { recorder_disabled: true, disable_timestamp: now, disable_reason: reason, ..s }
    }
}

/// Whether a call arriving at second `now` meets the per-second limit
/// already reached (it is refused before sampling).
pub open spec fn connection_rate_limited(s: GuardView, limit: u64, now: u64) -> bool {
    reset_if_new_second(s, now).connections >= limit
}

/// Whether a packet arriving at second `now` meets the per-second limit
/// already reached.
pub open spec fn packet_rate_limited(s: GuardView, limit: u64, now: u64) -> bool {
    reset_if_new_second(s, now).packets >= limit
}

/// The metrics after a call that sampling turned away (`sampled_out`): one
/// more on the sampled-out counter; otherwise unchanged.
pub open spec fn after_sampling(m: MetricsView, sampled_out: bool) -> MetricsView {
    if sampled_out {
        m.bumped(CounterKey::SafetySampledOut, 1)
    } else {
        m
    }
}

/// The metrics after the recorder switch is turned off from state `s`: the
/// first time counts one auto-disable; later times change nothing.
pub open spec fn after_disable(m: MetricsView, s: GuardView) -> MetricsView {
    if s.recorder_disabled {
        m
    } else {
        m.bumped(CounterKey::RecorderAutoDisabled, 1)
    }
}

/// Sampling can run: a "one in n" sampling has `n > 0`.
pub open spec fn sampling_ok(sampling: Sampling) -> bool {
    sampling matches Sampling::KeepOneIn(n) ==> n > 0
}

/// Safety guard for preventing resource exhaustion.
pub struct SafetyGuard {
    config: std::sync::Arc<Config>,
    connections_this_second: u64,
    packets_this_second: u64,
    last_reset: u64,
    sample_counter: u64,
    recorder_disabled: bool,
    disable_timestamp: u64,
    disable_reason: String,
}

impl SafetyGuard {
    /// The guard's counters and switch.
    pub closed spec fn view(&self) -> GuardView {
        GuardView {
            connections: self.connections_this_second,
            packets: self.packets_this_second,
            last_reset: self.last_reset,
            sample_counter: self.sample_counter,
            recorder_disabled: self.recorder_disabled,
            disable_timestamp: self.disable_timestamp,
            disable_reason: self.disable_reason@,
        }
    }

    /// The configuration the guard enforces.
    pub closed spec fn config(&self) -> Config {
        *self.config
    }

    /// Admissions allowed per second.
    pub open spec fn limit(&self) -> u64 {
        self.config().safety.rate_limit_requests_per_sec
    }

    /// The sampling the guard applies.
    pub open spec fn sampling(&self) -> Sampling {
        self.config().safety.sampling
    }

    /// A guard whose first second is `now`: counters at zero, recorder on.
    pub fn new_at(config: std::sync::Arc<Config>, now: u64) -> (r: Self)
        ensures
            r.config() == *config,
            r@ == (GuardView {
                connections: 0,
                packets: 0,
                last_reset: now,
                sample_counter: 0,
                recorder_disabled: false,
                disable_timestamp: 0,
                disable_reason: Seq::empty(),
            }),
    {
        SafetyGuard {
            config,
            connections_this_second: 0,
            packets_this_second: 0,
            last_reset: now,
            sample_counter: 0,
            recorder_disabled: false,
            disable_timestamp: 0,
            disable_reason: String::new(),
        }
    }

    /// A guard whose first second is the current one.
    pub fn new(config: std::sync::Arc<Config>) -> (r: Self)
        ensures
            r.config() == *config,
            r@.connections == 0,
            r@.packets == 0,
            r@.sample_counter == 0,
            !r@.recorder_disabled,
            r@.disable_timestamp == 0,
            r@.disable_reason == Seq::<char>::empty(),
    {
        let now = timestamp_secs_of(clock_since_epoch());
        Self::new_at(config, now)
    }

    fn reset_counters_if_needed(&mut self, now: u64)
        ensures
            final(self)@ == reset_if_new_second(old(self)@, now),
            final(self).config() == old(self).config(),
    {
        if now > self.last_reset {
            self.last_reset = now;
            self.connections_this_second = 0;
            self.packets_this_second = 0;
        }
    }

    fn should_sample(&mut self, metrics: &mut Metrics) -> (r: bool)
        requires
            sampling_ok(old(self).sampling()),
        ensures
            (r, final(self)@) == sample(old(self)@, old(self).sampling()),
            final(self).config() == old(self).config(),
            final(metrics)@ == after_sampling(old(metrics)@, !r),
    {
        match self.config.safety.sampling {
            Sampling::KeepAll => true,
            Sampling::KeepOneIn(n) => {
                let counter = self.sample_counter;
                self.sample_counter = if counter == u64::MAX {
                    0
                } else {
                    counter + 1
                };
                if counter % n == 0 {
                    true
                } else {
                    metrics.bump(CounterKey::SafetySampledOut, 1);
                    false
                }
            },
        }
    }

    /// Rate limiting and sampling for a connection arriving at second `now`.
    pub fn should_allow_connection_at(&mut self, metrics: &mut Metrics, now: u64) -> (r: bool)
        requires
            sampling_ok(old(self).sampling())
                || reset_if_new_second(old(self)@, now).connections >= old(self).limit(),
        ensures
            (r, final(self)@) == connection_decision(old(self)@, old(self).limit(), old(self).sampling(), now),
            final(self).config() == old(self).config(),
            final(metrics)@ == after_sampling(
                old(metrics)@,
                !r && !connection_rate_limited(old(self)@, old(self).limit(), now),
            ),
    {
        self.reset_counters_if_needed(now);
        let count = self.connections_this_second;
        self.connections_this_second = if count == u64::MAX {
            0
        } else {
            count + 1
        };
        let limit = self.config.safety.rate_limit_requests_per_sec;
        if count >= limit {
            return false;
        }
        self.should_sample(metrics)
    }

    /// Rate limiting and sampling for a packet arriving at second `now`.
    pub fn should_allow_packet_at(&mut self, metrics: &mut Metrics, now: u64) -> (r: bool)
        requires
            sampling_ok(old(self).sampling())
                || reset_if_new_second(old(self)@, now).packets >= old(self).limit(),
        ensures
            (r, final(self)@) == packet_decision(old(self)@, old(self).limit(), old(self).sampling(), now),
            final(self).config() == old(self).config(),
            final(metrics)@ == after_sampling(
                old(metrics)@,
                !r && !packet_rate_limited(old(self)@, old(self).limit(), now),
            ),
    {
        self.reset_counters_if_needed(now);
        let count = self.packets_this_second;
        self.packets_this_second = if count == u64::MAX {
            0
        } else {
            count + 1
        };
        let limit = self.config.safety.rate_limit_requests_per_sec;
        if count >= limit {
            return false;
        }
        self.should_sample(metrics)
    }

    /// Check if a connection should be allowed now (rate limiting, then
    /// sampling).
    pub fn should_allow_connection(&mut self, metrics: &mut Metrics) -> (r: bool)
        requires
            sampling_ok(old(self).sampling()),
        ensures
            exists|now: u64|
                {
                    &&& (r, final(self)@) == #[trigger] connection_decision(
                        old(self)@,
                        old(self).limit(),
                        old(self).sampling(),
                        now,
                    )
                    &&& final(metrics)@ == after_sampling(
                        old(metrics)@,
                        !r && !connection_rate_limited(old(self)@, old(self).limit(), now),
                    )
                },
            final(self).config() == old(self).config(),
    {
        let now = timestamp_secs_of(clock_since_epoch());
        self.should_allow_connection_at(metrics, now)
    }

    /// Check if a packet should be allowed now (rate limiting, then sampling).
    pub fn should_allow_packet(&mut self, metrics: &mut Metrics) -> (r: bool)
        requires
            sampling_ok(old(self).sampling()),
        ensures
            exists|now: u64|
                {
                    &&& (r, final(self)@) == #[trigger] packet_decision(
                        old(self)@,
                        old(self).limit(),
                        old(self).sampling(),
                        now,
                    )
                    &&& final(metrics)@ == after_sampling(
                        old(metrics)@,
                        !r && !packet_rate_limited(old(self)@, old(self).limit(), now),
                    )
                },
            final(self).config() == old(self).config(),
    {
        let now = timestamp_secs_of(clock_since_epoch());
        self.should_allow_packet_at(metrics, now)
    }

    /// Turns the recorder off at second `now` (once; later calls change
    /// nothing) and counts the first time in the metrics.
    pub fn disable_recorder_at(&mut self, metrics: &mut Metrics, reason: &str, now: u64)
        ensures
            final(self)@ == disable(old(self)@, now, reason@),
            final(self).config() == old(self).config(),
            final(metrics)@ == after_disable(old(metrics)@, old(self)@),
    {
        if !self.recorder_disabled {
            self.recorder_disabled = true;
            self.disable_timestamp = now;
            self.disable_reason = reason.to_owned();
            metrics.bump(CounterKey::RecorderAutoDisabled, 1);
        }
    }

    /// Turns the recorder off now, for `reason`.
    pub fn disable_recorder(&mut self, metrics: &mut Metrics, reason: &str)
        ensures
            exists|now: u64| final(self)@ == disable(old(self)@, now, reason@),
            final(self).config() == old(self).config(),
            final(metrics)@ == after_disable(old(metrics)@, old(self)@),
    {
        let now = timestamp_secs_of(clock_since_epoch());
        self.disable_recorder_at(metrics, reason, now);
    }

    /// A latency of `latency_secs` seconds and `latency_nanos` nanoseconds
    /// observed at second `now`: above the configured maximum, with the
    /// recorder still on, it turns the recorder off and answers `false`;
    /// otherwise it answers `true` and changes nothing.
    pub fn check_latency_at(&mut self, metrics: &mut Metrics, latency_secs: u64, latency_nanos: u32, now: u64) -> (r: bool)
        requires
            latency_nanos < 1_000_000_000,
        ensures
            ({
                let over = latency_secs * 1_000_000_000 + latency_nanos > old(self).config().safety.max_latency_ms
                    * 1_000_000;
                &&& r == !(over && !old(self)@.recorder_disabled)
                &&& final(self)@ == (if r { old(self)@ } else { disable(old(self)@, now, "latency_spike"@) })
            }),
            final(self).config() == old(self).config(),
            final(metrics)@ == (if r { old(metrics)@ } else { after_disable(old(metrics)@, old(self)@) }),
    {
        let lat: u128 = (latency_secs as u128) * 1_000_000_000 + (latency_nanos as u128);
        let max: u128 = (self.config.safety.max_latency_ms as u128) * 1_000_000;
        if lat > max && !self.recorder_disabled {
            self.disable_recorder_at(metrics, "latency_spike", now);
            return false;
        }
        true
    }

    /// Check if the recorder should be turned off for a latency spike.
    pub fn check_latency(&mut self, metrics: &mut Metrics, latency: std::time::Duration) -> (r: bool)
        ensures
            ({
                let over = duration_whole_secs(latency) * 1_000_000_000 + duration_subsec(latency)
                    > old(self).config().safety.max_latency_ms * 1_000_000;
                &&& r == !(over && !old(self)@.recorder_disabled)
                &&& (r ==> final(self)@ == old(self)@)
                &&& (!r ==> exists|now: u64| final(self)@ == disable(old(self)@, now, "latency_spike"@))
            }),
            final(self).config() == old(self).config(),
            final(metrics)@ == (if r { old(metrics)@ } else { after_disable(old(metrics)@, old(self)@) }),
    {
        let secs = duration_secs(&latency);
        let nanos = duration_subsec_nanos(&latency);
        let now = timestamp_secs_of(clock_since_epoch());
        self.check_latency_at(metrics, secs, nanos, now)
    }

    /// Memory pressure check at second `now`, given the memory in use
    /// (`used_bytes`, measured by the caller): within the configured maximum
    /// it answers `true` and changes nothing; above it, it turns the recorder
    /// off (once) and answers `false`.
    pub fn check_memory_at(&mut self, metrics: &mut Metrics, used_bytes: u64, now: u64) -> (r: bool)
        ensures
            r == (used_bytes <= old(self).config().safety.max_memory_mb * 1024 * 1024),
            final(self)@ == (if r { old(self)@ } else { disable(old(self)@, now, "memory_pressure"@) }),
            final(self).config() == old(self).config(),
            final(metrics)@ == (if r { old(metrics)@ } else { after_disable(old(metrics)@, old(self)@) }),
    {
        let max: u128 = (self.config.safety.max_memory_mb as u128) * 1024 * 1024;
        if (used_bytes as u128) > max {
            self.disable_recorder_at(metrics, "memory_pressure", now);
            return false;
        }
        true
    }

    /// Memory pressure check now, given the memory in use (see
    /// `check_memory_at`).
    pub fn check_memory(&mut self, metrics: &mut Metrics, used_bytes: u64) -> (r: bool)
        ensures
            r == (used_bytes <= old(self).config().safety.max_memory_mb * 1024 * 1024),
            r ==> final(self)@ == old(self)@,
            !r ==> exists|now: u64| final(self)@ == disable(old(self)@, now, "memory_pressure"@),
            final(self).config() == old(self).config(),
            final(metrics)@ == (if r { old(metrics)@ } else { after_disable(old(metrics)@, old(self)@) }),
    {
        let now = timestamp_secs_of(clock_since_epoch());
        self.check_memory_at(metrics, used_bytes, now)
    }

    /// Whether the recorder has been turned off.
    pub fn is_recorder_disabled(&self) -> (r: bool)
        ensures
            r == self@.recorder_disabled,
    {
        self.recorder_disabled
    }

    /// Why the recorder was turned off (empty while it is on).
    pub fn disable_reason(&self) -> (r: &str)
        ensures
            r@ == self@.disable_reason,
    {
        self.disable_reason.as_str()
    }
}

/// Connections arriving at the seconds `nows`, one after another, from state
/// `s`: how many are admitted, and the state after the last.
pub open spec fn run_connections(s: GuardView, limit: u64, sampling: Sampling, nows: Seq<u64>) -> (
    nat,
    GuardView,
)
    decreases nows.len(),
{
    if nows.len() == 0 {
        (0, s)
    } else {
        let (admitted, s1) = connection_decision(s, limit, sampling, nows[0]);
        let (rest, s2) = run_connections(s1, limit, sampling, nows.drop_first());
        (rest + if admitted {
            1nat
        } else {
            0nat
        }, s2)
    }
}

/// The number of multiples of `n` among `c, c + 1, ..., c + len - 1`.
pub open spec fn multiples_in(c: nat, len: nat, n: nat) -> nat
    decreases len,
{
    if len == 0 {
        0
    } else {
        (if c % n == 0 {
            1nat
        } else {
            0nat
        }) + multiples_in(c + 1, (len - 1) as nat, n)
    }
}

proof fn lemma_run_same_second(s: GuardView, limit: u64, sampling: Sampling, nows: Seq<u64>)
    requires
        forall|i: int| 0 <= i < nows.len() ==> nows[i] <= s.last_reset,
        s.connections + nows.len() <= u64::MAX,
    ensures
        run_connections(s, limit, sampling, nows).0 <= if s.connections >= limit {
            0
        } else {
            limit - s.connections
        },
    decreases nows.len(),
{
    if nows.len() > 0 {
        let (a, s1) = connection_decision(s, limit, sampling, nows[0]);
        assert(s1.connections == s.connections + 1);
        assert(s1.last_reset == s.last_reset);
        lemma_run_same_second(s1, limit, sampling, nows.drop_first());
    }
}

/// Rate limiting: of the connections that arrive within one second, at most
/// the configured limit are admitted (while the counter does not wrap).
pub proof fn lemma_rate_limit_per_second(
    s: GuardView,
    limit: u64,
    sampling: Sampling,
    now: u64,
    nows: Seq<u64>,
)
    requires
        forall|i: int| 0 <= i < nows.len() ==> nows[i] == now,
        s.connections + nows.len() <= u64::MAX,
    ensures
        run_connections(s, limit, sampling, nows).0 <= limit,
{
    if nows.len() > 0 {
        let (a, s1) = connection_decision(s, limit, sampling, nows[0]);
        assert(s1.last_reset >= now);
        assert(s1.connections <= s.connections + 1);
        lemma_run_same_second(s1, limit, sampling, nows.drop_first());
        if a {
            assert(reset_if_new_second(s, now).connections < limit);
        }
    }
}

proof fn lemma_multiples_step(c: int, n: int)
    requires
        n > 0,
        c >= 0,
    ensures
        (c + n) / n == (c + n - 1) / n + if c % n == 0 {
            1int
        } else {
            0int
        },
{
    assert((c + n) / n == c / n + 1) by (nonlinear_arith)
        requires
            n > 0,
    ;
    if c % n == 0 {
        assert((c + n - 1) / n == c / n) by (nonlinear_arith)
            requires
                n > 0,
                c % n == 0,
        ;
    } else {
        assert((c + n - 1) / n == c / n + 1) by (nonlinear_arith)
            requires
                n > 0,
                c % n != 0,
        ;
    }
}

/// Among `len` consecutive numbers from `c`, the multiples of `n` number
/// `ceil((c + len) / n) - ceil(c / n)`.
pub proof fn lemma_multiples_in(c: nat, len: nat, n: nat)
    requires
        n > 0,
    ensures
        multiples_in(c, len, n) + (c + n - 1) / (n as int) == (c + len + n - 1) / (n as int),
    decreases len,
{
    if len > 0 {
        lemma_multiples_in(c + 1, (len - 1) as nat, n);
        lemma_multiples_step(c as int, n as int);
        assert(c + 1 + (len - 1) + n - 1 == c + len + n - 1);
    }
}

proof fn lemma_run_sampling(s: GuardView, limit: u64, n: u64, nows: Seq<u64>)
    requires
        n > 0,
        forall|i: int| 0 <= i < nows.len() ==> nows[i] <= s.last_reset,
        s.connections + nows.len() <= limit,
        s.sample_counter + nows.len() <= u64::MAX,
    ensures
        run_connections(s, limit, Sampling::KeepOneIn(n), nows).0 == multiples_in(
            s.sample_counter as nat,
            nows.len(),
            n as nat,
        ),
    decreases nows.len(),
{
    if nows.len() > 0 {
        let (a, s1) = connection_decision(s, limit, Sampling::KeepOneIn(n), nows[0]);
        assert(s1.connections == s.connections + 1);
        assert(s1.sample_counter == s.sample_counter + 1);
        assert(a == (s.sample_counter % n == 0));
        lemma_run_sampling(s1, limit, n, nows.drop_first());
    }
}

/// Sampling: with a "one in n" sampling and a limit that the calls do not
/// reach, a run of `len` connections in one second from a fresh sample
/// counter admits `ceil(len / n)` of them.
pub proof fn lemma_sampling_keeps_one_in_n(s: GuardView, limit: u64, n: u64, nows: Seq<u64>)
    requires
        n > 0,
        s.sample_counter == 0,
        forall|i: int| 0 <= i < nows.len() ==> nows[i] <= s.last_reset,
        s.connections + nows.len() <= limit,
    ensures
        run_connections(s, limit, Sampling::KeepOneIn(n), nows).0 == (nows.len() + n - 1) / (
        n as int),
{
    lemma_run_sampling(s, limit, n, nows);
    lemma_multiples_in(0, nows.len(), n as nat);
    assert((n - 1) / (n as int) == 0) by (nonlinear_arith)
        requires
            n > 0,
    ;
}

/// The once-a-second reset only starts new counting windows: a call in a
/// later second zeroes the connection and packet counts and records the
/// second; the sample counter, the recorder switch, its second and its
/// reason are left as they were, and a call in the same or an earlier second
/// changes nothing.
pub proof fn lemma_reset_keeps_the_rest(s: GuardView, now: u64)
    ensures
        reset_if_new_second(s, now).sample_counter == s.sample_counter,
        reset_if_new_second(s, now).recorder_disabled == s.recorder_disabled,
        reset_if_new_second(s, now).disable_timestamp == s.disable_timestamp,
        reset_if_new_second(s, now).disable_reason == s.disable_reason,
        now > s.last_reset ==> reset_if_new_second(s, now).connections == 0
            && reset_if_new_second(s, now).packets == 0 && reset_if_new_second(s, now).last_reset
            == now,
        now <= s.last_reset ==> reset_if_new_second(s, now) == s,
{
}

/// One connection at second `now` with "one in n" sampling: it is refused
/// when the connections counted in the current second (after the reset)
/// have reached the limit; otherwise it is admitted exactly when the sample
/// counter, whatever the second, is a multiple of `n`, and that counter
/// moves on by one.
pub proof fn lemma_connection_sampling_step(s: GuardView, limit: u64, n: u64, now: u64)
    requires
        n > 0,
        s.sample_counter < u64::MAX,
    ensures
        ({
            let (admitted, t) = connection_decision(s, limit, Sampling::KeepOneIn(n), now);
            let counted = if now > s.last_reset { 0 } else { s.connections };
            &&& counted >= limit ==> !admitted && t.sample_counter == s.sample_counter
            &&& counted < limit ==> admitted == (s.sample_counter % n == 0) && t.sample_counter
                == s.sample_counter + 1
        }),
{
}

/// One packet at second `now` with "one in n" sampling: refused when the
/// packets counted in the current second have reached the limit; otherwise
/// admitted exactly when the sample counter, whatever the second, is a
/// multiple of `n`, and that counter moves on by one.
pub proof fn lemma_packet_sampling_step(s: GuardView, limit: u64, n: u64, now: u64)
    requires
        n > 0,
        s.sample_counter < u64::MAX,
    ensures
        ({
            let (admitted, t) = packet_decision(s, limit, Sampling::KeepOneIn(n), now);
            let counted = if now > s.last_reset { 0 } else { s.packets };
            &&& counted >= limit ==> !admitted && t.sample_counter == s.sample_counter
            &&& counted < limit ==> admitted == (s.sample_counter % n == 0) && t.sample_counter
                == s.sample_counter + 1
        }),
{
}

/// Packets arriving at the seconds `nows`, one after another, from state
/// `s`: how many are admitted, and the state after the last.
pub open spec fn run_packets(s: GuardView, limit: u64, sampling: Sampling, nows: Seq<u64>) -> (
    nat,
    GuardView,
)
    decreases nows.len(),
{
    if nows.len() == 0 {
        (0, s)
    } else {
        let (admitted, s1) = packet_decision(s, limit, sampling, nows[0]);
        let (rest, s2) = run_packets(s1, limit, sampling, nows.drop_first());
        (rest + if admitted {
            1nat
        } else {
            0nat
        }, s2)
    }
}

proof fn lemma_run_connections_sampling_any(s: GuardView, limit: u64, n: u64, nows: Seq<u64>)
    requires
        n > 0,
        s.connections + nows.len() <= limit,
        s.sample_counter + nows.len() <= u64::MAX,
    ensures
        run_connections(s, limit, Sampling::KeepOneIn(n), nows).0 == multiples_in(
            s.sample_counter as nat,
            nows.len(),
            n as nat,
        ),
    decreases nows.len(),
{
    if nows.len() > 0 {
        let (a, s1) = connection_decision(s, limit, Sampling::KeepOneIn(n), nows[0]);
        assert(s1.connections <= s.connections + 1);
        assert(s1.sample_counter == s.sample_counter + 1);
        assert(a == (s.sample_counter % n == 0));
        lemma_run_connections_sampling_any(s1, limit, n, nows.drop_first());
    }
}

proof fn lemma_run_packets_sampling_any(s: GuardView, limit: u64, n: u64, nows: Seq<u64>)
    requires
        n > 0,
        s.packets + nows.len() <= limit,
        s.sample_counter + nows.len() <= u64::MAX,
    ensures
        run_packets(s, limit, Sampling::KeepOneIn(n), nows).0 == multiples_in(
            s.sample_counter as nat,
            nows.len(),
            n as nat,
        ),
    decreases nows.len(),
{
    if nows.len() > 0 {
        let (a, s1) = packet_decision(s, limit, Sampling::KeepOneIn(n), nows[0]);
        assert(s1.packets <= s.packets + 1);
        assert(s1.sample_counter == s.sample_counter + 1);
        assert(a == (s.sample_counter % n == 0));
        lemma_run_packets_sampling_any(s1, limit, n, nows.drop_first());
    }
}

/// Sampling over any seconds: with "one in n" sampling and a limit that the
/// calls do not reach, a run of `len` connections from a fresh sample
/// counter admits `ceil(len / n)` of them, whatever seconds they arrive at
/// (the sample counter runs on across seconds).
pub proof fn lemma_connection_sampling_any_seconds(s: GuardView, limit: u64, n: u64, nows: Seq<u64>)
    requires
        n > 0,
        s.sample_counter == 0,
        s.connections + nows.len() <= limit,
    ensures
        run_connections(s, limit, Sampling::KeepOneIn(n), nows).0 == (nows.len() + n - 1) / (
        n as int),
{
    lemma_run_connections_sampling_any(s, limit, n, nows);
    lemma_multiples_in(0, nows.len(), n as nat);
    assert((n - 1) / (n as int) == 0) by (nonlinear_arith)
        requires
            n > 0,
    ;
}

/// Packet sampling: with "one in n" sampling and a limit that the packets do
/// not reach, a run of `len` packets from a fresh sample counter admits
/// `ceil(len / n)` of them, whatever seconds they arrive at.
pub proof fn lemma_packet_sampling_keeps_one_in_n(s: GuardView, limit: u64, n: u64, nows: Seq<u64>)
    requires
        n > 0,
        s.sample_counter == 0,
        s.packets + nows.len() <= limit,
    ensures
        run_packets(s, limit, Sampling::KeepOneIn(n), nows).0 == (nows.len() + n - 1) / (n as int),
{
    lemma_run_packets_sampling_any(s, limit, n, nows);
    lemma_multiples_in(0, nows.len(), n as nat);
    assert((n - 1) / (n as int) == 0) by (nonlinear_arith)
        requires
            n > 0,
    ;
}

/// Connections and packets are limited separately: a connection leaves the
/// packet count as the once-a-second reset left it, and a packet leaves the
/// connection count.
pub proof fn lemma_separate_counters(s: GuardView, limit: u64, sampling: Sampling, now: u64)
    ensures
        connection_decision(s, limit, sampling, now).1.packets == reset_if_new_second(s, now).packets,
        packet_decision(s, limit, sampling, now).1.connections == reset_if_new_second(
            s,
            now,
        ).connections,
{
}

/// The recorder switch only turns one way: once off it stays off, and the
/// second and the reason it was turned off are kept.
pub proof fn lemma_disable_is_final(
    s: GuardView,
    now: u64,
    reason: Seq<char>,
    later: u64,
    other: Seq<char>,
)
    ensures
        disable(s, now, reason).recorder_disabled,
        disable(disable(s, now, reason), later, other) == disable(s, now, reason),
        s.recorder_disabled ==> disable(s, now, reason) == s,
{
}

} // verus!
