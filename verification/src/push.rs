//! Serving and pushing metrics: the reply head of the pull endpoint, the
//! push-gateway address, and when pushing gives up.

use vstd::prelude::*;
use crate::metrics::{Metrics, MetricsError};
use crate::text::{decimal, push_decimal, push_str};

verus! {

/// Consecutive failed pushes after which pushing is switched off.
pub const MAX_PUSH_FAILURES: u32 = 5;

/// The head of the reply to a metrics scrape whose body has `len` bytes.
pub open spec fn metrics_reply_head_spec(len: nat) -> Seq<char> {
    "HTTP/1.1 200 OK\r\nContent-Type: text/plain\r\nContent-Length: "@ + decimal(len)
        + "\r\n\r\n"@
}

/// The head of the reply to a metrics scrape whose body has `len` bytes.
pub fn metrics_reply_head(len: usize) -> (r: String)
    ensures
        r@ == metrics_reply_head_spec(len as nat),
{
    let mut s = String::new();
    push_str(&mut s, "HTTP/1.1 200 OK\r\nContent-Type: text/plain\r\nContent-Length: ");
    push_decimal(&mut s, len as u128);
    push_str(&mut s, "\r\n\r\n");
    assert(s@ =~= metrics_reply_head_spec(len as nat));
    s
}

/// The reply to a metrics scrape for the outcome of writing the metrics out:
/// the head and the text when there is a text, `None` when writing failed.
pub fn metrics_reply_for(encoded: Result<Vec<u8>, MetricsError>) -> (r: Option<(String, Vec<u8>)>)
    ensures
        r is Some <==> encoded is Ok,
        encoded matches Ok(text) ==> (r matches Some((head, body)) && body@ == text@
            && head@ == metrics_reply_head_spec(text@.len())),
{
    match encoded {
        Ok(body) => {
            let head = metrics_reply_head(body.len());
            Some((head, body))
        },
        Err(_) => None,
    }
}

/// The reply to a metrics scrape: the head and the text exposition, or
/// `None` when the metrics cannot be written out.
pub fn metrics_reply(metrics: &Metrics) -> (r: Option<(String, Vec<u8>)>)
    ensures
        r matches Some((head, body)) ==> head@ == metrics_reply_head_spec(body@.len()),
{
    metrics_reply_for(metrics.encode_text())
}

/// The push-gateway address for a job and an instance.
pub open spec fn push_url_spec(gateway: Seq<char>, job: Seq<char>, instance: Seq<char>) -> Seq<char> {
    gateway + "/metrics/job/"@ + job + "/instance/"@ + instance
}

/// The push-gateway address for a job and an instance.
pub fn push_url(gateway: &str, job: &str, instance: &str) -> (r: String)
    ensures
        r@ == push_url_spec(gateway@, job@, instance@),
{
    let mut s = String::new();
    push_str(&mut s, gateway);
    push_str(&mut s, "/metrics/job/");
    push_str(&mut s, job);
    push_str(&mut s, "/instance/");
    push_str(&mut s, instance);
    assert(s@ =~= push_url_spec(gateway@, job@, instance@));
    s
}

/// When metrics pushing continues: the count of consecutive failures, and
/// whether pushing is still on.
#[derive(Debug, Clone, Copy)]
pub struct PushControl {
    consecutive_failures: u32,
    enabled: bool,
}

impl PushControl {
    /// Consecutive failed pushes so far.
    pub closed spec fn failures(&self) -> nat {
        self.consecutive_failures as nat
    }

    /// Whether pushing is still on.
    pub closed spec fn enabled(&self) -> bool {
        self.enabled
    }

    /// Pushing is on exactly while fewer than the maximum of consecutive
    /// failures happened.
    pub closed spec fn wf(&self) -> bool {
        &&& self.consecutive_failures <= MAX_PUSH_FAILURES
        &&& self.enabled <==> self.consecutive_failures < MAX_PUSH_FAILURES
    }

    /// Pushing on, no failures yet.
    pub fn new() -> (r: Self)
        ensures
            r.wf(),
            r.enabled(),
            r.failures() == 0,
    {
        PushControl { consecutive_failures: 0, enabled: true }
    }

    /// Whether pushing is still on.
    pub fn is_push_enabled(&self) -> (r: bool)
        ensures
            r == self.enabled(),
    {
        self.enabled
    }

    /// Takes in the outcome of a push: a success clears the failure count; a
    /// failure adds one, and the last allowed one switches pushing off.
    /// Answers whether pushing is still on.
    pub fn record_push(&mut self, succeeded: bool) -> (r: bool)
        requires
            old(self).wf(),
            old(self).enabled(),
        ensures
            final(self).wf(),
            final(self).failures() == (if succeeded {
                0
            } else {
                old(self).failures() + 1
            }),
            r == final(self).enabled(),
            r == (final(self).failures() < MAX_PUSH_FAILURES),
    {
        if succeeded {
            self.consecutive_failures = 0;
        } else {
            self.consecutive_failures = self.consecutive_failures + 1;
            if self.consecutive_failures >= MAX_PUSH_FAILURES {
                self.enabled = false;
            }
        }
        self.enabled
    }
}

} // verus!
