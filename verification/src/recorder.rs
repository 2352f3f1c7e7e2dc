//! The traffic recorder: a bounded buffer of events that drops on overflow,
//! and the JSON Lines text that a flush writes.

use vstd::prelude::*;
use vstd::string::StringSliceAdditionalSpecFns;
use crate::config::{Config, RecordingMode};
use crate::metrics::{CounterKey, Metrics, MetricsView};
use crate::text::{decimal, json_escaped, push_decimal, push_json_escaped, push_str};

verus! {

/// What kind of traffic an event records.
#[derive(Clone, Copy, Debug, PartialEq, Eq, Structural)]
pub enum EventType {
    HttpRequest,
    HttpResponse,
    TcpConnection,
    UdpPacket,
}

#[derive(Clone, Debug)]
pub struct EventMetadata {
    pub source: String,
    pub destination: String,
    pub protocol: String,
    pub method: Option<String>,
    pub path: Option<String>,
    pub status: Option<u16>,
}

#[derive(Clone, Debug)]
pub struct RecordedEvent {
    pub timestamp: u64,
    pub event_type: EventType,
    pub metadata: EventMetadata,
    pub payload: Option<Vec<u8>>,
}

/// The event as the recording mode keeps it: without its payload in metadata
/// mode.
pub open spec fn kept_event(e: RecordedEvent, mode: RecordingMode) -> RecordedEvent {
    if mode == RecordingMode::Metadata {
        RecordedEvent { payload: None, ..e }
    } else {
        e
    }
}

/// The name of an event type in the recording.
pub open spec fn event_type_name(t: EventType) -> Seq<char> {
    match t {
        EventType::HttpRequest => "http_request"@,
        EventType::HttpResponse => "http_response"@,
        EventType::TcpConnection => "tcp_connection"@,
        EventType::UdpPacket => "udp_packet"@,
    }
}

/// The JSON line written for an event: its timestamp, type, source and
/// destination, the two texts escaped as JSON strings.
pub open spec fn json_line(e: RecordedEvent) -> Seq<char> {
    "{\"timestamp\":"@ + decimal(e.timestamp as nat) + ",\"type\":\""@ + event_type_name(
        e.event_type,
    ) + "\",\"metadata\":{\"source\":\""@ + json_escaped(e.metadata.source@) + "\",\"dest\":\""@
        + json_escaped(e.metadata.destination@) + "\"}}"@
}

/// The file a flush at second `now` writes to.
pub open spec fn flush_file(output_path: Seq<char>, now: u64) -> Seq<char> {
    output_path + "/recording_"@ + decimal(now as nat) + ".jsonl"@
}

/// The JSON line for one event.
pub fn event_json(e: &RecordedEvent) -> (r: String)
    ensures
        r@ == json_line(*e),
{
    let mut s = String::new();
    push_str(&mut s, "{\"timestamp\":");
    push_decimal(&mut s, e.timestamp as u128);
    push_str(&mut s, ",\"type\":\"");
    let name = match e.event_type {
        EventType::HttpRequest => "http_request",
        EventType::HttpResponse => "http_response",
        EventType::TcpConnection => "tcp_connection",
        EventType::UdpPacket => "udp_packet",
    };
    push_str(&mut s, name);
    push_str(&mut s, "\",\"metadata\":{\"source\":\"");
    push_json_escaped(&mut s, e.metadata.source.as_str());
    push_str(&mut s, "\",\"dest\":\"");
    push_json_escaped(&mut s, e.metadata.destination.as_str());
    push_str(&mut s, "\"}}");
    assert(s@ =~= json_line(*e));
    s
}

/// The metrics after an event reaches the buffer: one more recorded event
/// when it is appended, one more drop when the buffer is full.
pub open spec fn after_record(m: MetricsView, appended: bool) -> MetricsView {
    if appended {
        m.bumped(CounterKey::RecorderEventsTotal, 1)
    } else {
        m.bumped(CounterKey::RecorderDropsTotal, 1)
    }
}

/// Counts a line written by a flush: its UTF-8 bytes (the newline that
/// follows it is not counted).
pub fn count_written_line(metrics: &mut Metrics, line: &str)
    ensures
        final(metrics)@ == old(metrics)@.bumped(CounterKey::RecorderBytesWritten, line.len() as u64),
{
    metrics.bump(CounterKey::RecorderBytesWritten, line.len() as u64);
}

/// Records traffic events into a bounded buffer.
pub struct Recorder {
    config: std::sync::Arc<Config>,
    enabled: bool,
    buffer: Vec<RecordedEvent>,
    buffer_pos: usize,
    max_buffer_size: usize,
}

impl Recorder {
    /// The events recorded since the last flush, oldest first.
    pub closed spec fn pending(&self) -> Seq<RecordedEvent> {
        self.buffer@.take(self.buffer_pos as int)
    }

    /// How many events the buffer holds at most.
    pub closed spec fn capacity(&self) -> nat {
        self.max_buffer_size as nat
    }

    /// Whether recording is switched on.
    pub closed spec fn enabled(&self) -> bool {
        self.enabled
    }

    /// The configuration the recorder follows.
    pub closed spec fn config(&self) -> Config {
        *self.config
    }

    /// The buffer is consistent: never more pending events than the capacity,
    /// which is the configured buffer size.
    pub closed spec fn wf(&self) -> bool {
        &&& self.buffer_pos <= self.buffer@.len()
        &&& self.buffer@.len() <= self.max_buffer_size
        &&& self.max_buffer_size == self.config.recorder.buffer_size
    }

    /// The buffer holds at most `recorder.buffer_size` events, as configured.
    pub proof fn lemma_capacity_is_configured(&self)
        requires
            self.wf(),
        ensures
            self.capacity() == self.config().recorder.buffer_size,
    {
    }

    /// The buffer never holds more pending events than its capacity: events
    /// beyond it are dropped, never queued.
    pub proof fn lemma_pending_within_capacity(&self)
        requires
            self.wf(),
        ensures
            self.pending().len() <= self.capacity(),
    {
    }

    /// A recorder that is switched off, with an empty buffer of the configured
    /// size.
    pub fn new(config: std::sync::Arc<Config>) -> (r: Self)
        ensures
            r.wf(),
            !r.enabled(),
            r.pending() == Seq::<RecordedEvent>::empty(),
            r.capacity() == config.recorder.buffer_size,
            r.config() == *config,
    {
        let max_buffer_size = config.recorder.buffer_size;
        Recorder {
            config,
            enabled: false,
            buffer: Vec::with_capacity(max_buffer_size),
            buffer_pos: 0,
            max_buffer_size,
        }
    }

    /// Whether recording is switched on.
    pub fn is_enabled(&self) -> (r: bool)
        ensures
            r == self.enabled(),
    {
        self.enabled
    }

    /// Switches recording on.
    pub fn enable(&mut self)
        requires
            old(self).wf(),
        ensures
            final(self).wf(),
            final(self).enabled(),
            final(self).pending() == old(self).pending(),
            final(self).capacity() == old(self).capacity(),
            final(self).config() == old(self).config(),
    {
        self.enabled = true;
    }

    /// Switches recording off.
    pub fn disable(&mut self)
        requires
            old(self).wf(),
        ensures
            final(self).wf(),
            !final(self).enabled(),
            final(self).pending() == old(self).pending(),
            final(self).capacity() == old(self).capacity(),
            final(self).config() == old(self).config(),
    {
        self.enabled = false;
    }

    /// Records an event: nothing happens while recording is off or the mode
    /// is `Off`; otherwise the event (without its payload in metadata mode) is
    /// appended and counted, unless the buffer is full, in which case it is
    /// dropped and counted as a drop.
    pub fn record(&mut self, metrics: &mut Metrics, event: RecordedEvent)
        requires
            old(self).wf(),
        ensures
            final(metrics)@ == (if old(self).enabled() && old(self).config().recorder.mode
                != RecordingMode::Off {
                after_record(old(metrics)@, old(self).pending().len() < old(self).capacity())
            } else {
                old(metrics)@
            }),
            final(self).wf(),
            final(self).enabled() == old(self).enabled(),
            final(self).capacity() == old(self).capacity(),
            final(self).config() == old(self).config(),
            final(self).pending() == (if old(self).enabled() && old(self).config().recorder.mode
                != RecordingMode::Off && old(self).pending().len() < old(self).capacity() {
                old(self).pending().push(kept_event(event, old(self).config().recorder.mode))
            } else {
                old(self).pending()
            }),
    {
        if !self.is_enabled() {
            return;
        }
        match self.config.recorder.mode {
            RecordingMode::Off => {},
            RecordingMode::Metadata => {
                self.record_internal(
                    metrics,
                    RecordedEvent {
                        timestamp: event.timestamp,
                        event_type: event.event_type,
                        metadata: event.metadata,
                        payload: None,
                    },
                );
            },
            RecordingMode::Payload => {
                self.record_internal(metrics, event);
            },
        }
    }

    fn record_internal(&mut self, metrics: &mut Metrics, event: RecordedEvent)
        requires
            old(self).wf(),
        ensures
            final(metrics)@ == after_record(old(metrics)@, old(self).pending().len() < old(self).capacity()),
            final(self).wf(),
            final(self).enabled() == old(self).enabled(),
            final(self).capacity() == old(self).capacity(),
            final(self).config() == old(self).config(),
            final(self).pending() == (if old(self).pending().len() < old(self).capacity() {
                old(self).pending().push(event)
            } else {
                old(self).pending()
            }),
    {
        let pos = self.buffer_pos;
        if pos >= self.max_buffer_size {
            metrics.bump(CounterKey::RecorderDropsTotal, 1);
            return;
        }
        if pos < self.buffer.len() {
            self.buffer.set(pos, event);
        } else {
            self.buffer.push(event);
        }
        self.buffer_pos = pos + 1;
        assert(self.buffer@.take(self.buffer_pos as int) =~= old(self).buffer@.take(pos as int).push(
            event,
        ));
        metrics.bump(CounterKey::RecorderEventsTotal, 1);
    }

    /// How many events wait for a flush.
    pub fn pending_count(&self) -> (r: usize)
        requires
            self.wf(),
        ensures
            r == self.pending().len(),
    {
        self.buffer_pos
    }

    /// The JSON lines of the events waiting for a flush, in order.
    pub fn pending_json_lines(&self) -> (r: Vec<String>)
        requires
            self.wf(),
        ensures
            r@.len() == self.pending().len(),
            forall|i: int| 0 <= i < r@.len() ==> #[trigger] r@[i]@ == json_line(self.pending()[i]),
    {
        let mut out: Vec<String> = Vec::new();
        let mut i: usize = 0;
        while i < self.buffer_pos
            invariant
                self.wf(),
                i <= self.buffer_pos,
                out@.len() == i,
                forall|k: int| 0 <= k < i ==> #[trigger] out@[k]@ == json_line(self.pending()[k]),
            decreases self.buffer_pos - i,
        {
            out.push(event_json(&self.buffer[i]));
            i = i + 1;
        }
        out
    }

    /// The file that a flush at second `now` writes.
    pub fn flush_path(&self, now: u64) -> (r: String)
        ensures
            r@ == flush_file(self.config().recorder.output_path@, now),
    {
        let mut s = String::new();
        push_str(&mut s, self.config.recorder.output_path.as_str());
        push_str(&mut s, "/recording_");
        push_decimal(&mut s, now as u128);
        push_str(&mut s, ".jsonl");
        assert(s@ =~= flush_file(self.config().recorder.output_path@, now));
        s
    }

    /// Empties the buffer after its events were written.
    pub fn mark_flushed(&mut self)
        requires
            old(self).wf(),
        ensures
            final(self).wf(),
            final(self).pending() == Seq::<RecordedEvent>::empty(),
            final(self).enabled() == old(self).enabled(),
            final(self).capacity() == old(self).capacity(),
            final(self).config() == old(self).config(),
    {
        self.buffer_pos = 0;
    }
}

} // verus!
