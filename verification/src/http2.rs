//! HTTP/2 observation: the connection preface and frame types.

use vstd::prelude::*;
use crate::config::Config;
use crate::metrics::{CounterKey, Metrics, MetricsView};

verus! {

/// The bytes of the HTTP/2 client connection preface,
/// `PRI * HTTP/2.0\r\n\r\nSM\r\n\r\n`.
pub open spec fn http2_preface() -> Seq<u8> {
    seq![0x50u8, 0x52u8, 0x49u8, 0x20u8, 0x2au8, 0x20u8, 0x48u8, 0x54u8, 0x54u8, 0x50u8, 0x2fu8, 0x32u8, 0x2eu8, 0x30u8, 0x0du8, 0x0au8, 0x0du8, 0x0au8, 0x53u8, 0x4du8, 0x0du8, 0x0au8, 0x0du8, 0x0au8]
}

/// What a frame counts for.
#[derive(Debug, Clone, Copy, PartialEq, Eq, Structural)]
pub enum FrameEffect {
    /// Shorter than a frame header (9 bytes): nothing is counted.
    Ignored,
    /// A DATA frame or a frame of another type: its length counts as bytes.
    Bytes(usize),
    /// A HEADERS frame: a new stream.
    NewStream,
    /// An RST_STREAM frame: a stream reset.
    StreamReset,
}

/// The effect of a frame: frames shorter than 9 bytes are ignored; the type
/// byte (offset 3) picks a new stream (1), a reset (3), or the frame's length
/// in bytes (any other type).
pub open spec fn frame_effect_spec(data: Seq<u8>) -> FrameEffect {
    if data.len() < 9 {
        FrameEffect::Ignored
    } else if data[3] == 1 {
        FrameEffect::NewStream
    } else if data[3] == 3 {
        FrameEffect::StreamReset
    } else {
        FrameEffect::Bytes(data.len() as usize)
    }
}

/// What a frame counts as, by its type byte: a frame shorter than the
/// 9-byte header counts as nothing; otherwise it is a new stream exactly when
/// its type byte is 1 (HEADERS), a stream reset exactly when it is 3
/// (RST_STREAM), and any other frame counts its whole length in bytes.
pub proof fn lemma_frame_types(data: Seq<u8>)
    ensures
        data.len() < 9 ==> frame_effect_spec(data) == FrameEffect::Ignored,
        data.len() >= 9 ==> (frame_effect_spec(data) == FrameEffect::NewStream <==> data[3] == 1),
        data.len() >= 9 ==> (frame_effect_spec(data) == FrameEffect::StreamReset <==> data[3] == 3),
        data.len() >= 9 && data[3] != 1 && data[3] != 3 ==> frame_effect_spec(data)
            == FrameEffect::Bytes(data.len() as usize),
{
}

/// The metrics after a frame with this effect: one more stream, one more
/// reset, or its bytes; an ignored frame changes nothing.
pub open spec fn after_frame(m: MetricsView, effect: FrameEffect) -> MetricsView {
    match effect {
        FrameEffect::Ignored => m,
        FrameEffect::Bytes(n) => m.bumped(CounterKey::Http2BytesTotal, n as u64),
        FrameEffect::NewStream => m.bumped(CounterKey::Http2StreamsTotal, 1),
        FrameEffect::StreamReset => m.bumped(CounterKey::Http2StreamResets, 1),
    }
}

/// HTTP/2 observer (observe-only).
pub struct Http2Observer {
    config: std::sync::Arc<Config>,
}

impl Http2Observer {
    /// The configuration the observer holds.
    pub closed spec fn config(&self) -> Config {
        *self.config
    }

    /// An observer with this configuration; the metrics it counts in are
    /// handed to each call.
    pub fn new(config: std::sync::Arc<Config>) -> (r: Self)
        ensures
            r.config() == *config,
    {
        Http2Observer { config }
    }

    /// Detects HTTP/2 from the connection preface: `data` begins with it.
    pub fn is_http2(data: &[u8]) -> (r: bool)
        ensures
            r == (data@.len() >= http2_preface().len() && data@.subrange(
                0,
                http2_preface().len() as int,
            ) == http2_preface()),
    {
        let preface: Vec<u8> = vec![0x50u8, 0x52u8, 0x49u8, 0x20u8, 0x2au8, 0x20u8, 0x48u8, 0x54u8, 0x54u8, 0x50u8, 0x2fu8, 0x32u8, 0x2eu8, 0x30u8, 0x0du8, 0x0au8, 0x0du8, 0x0au8, 0x53u8, 0x4du8, 0x0du8, 0x0au8, 0x0du8, 0x0au8];
        assert(preface@ == http2_preface());
        if data.len() < preface.len() {
            return false;
        }
        let mut i: usize = 0;
        while i < preface.len()
            invariant
                i <= preface@.len(),
                preface@ == http2_preface(),
                data@.len() >= preface@.len(),
                forall|k: int| 0 <= k < i ==> data@[k] == preface@[k],
            decreases preface@.len() - i,
        {
            if data[i] != preface[i] {
                assert(data@.subrange(0, preface@.len() as int)[i as int] != http2_preface()[i as int]);
                return false;
            }
            i = i + 1;
        }
        assert(data@.subrange(0, preface@.len() as int) =~= http2_preface());
        true
    }

    /// The effect a frame has on the counts.
    pub fn frame_effect(data: &[u8]) -> (r: FrameEffect)
        ensures
            r == frame_effect_spec(data@),
    {
        if data.len() < 9 {
            return FrameEffect::Ignored;
        }
        let frame_type = data[3];
        if frame_type == 1 {
            FrameEffect::NewStream
        } else if frame_type == 3 {
            FrameEffect::StreamReset
        } else {
            FrameEffect::Bytes(data.len())
        }
    }

    /// Observes a frame: counts a new stream, a reset, or its bytes, as
    /// `frame_effect` decides; nothing else changes.
    pub fn observe_frame(&self, metrics: &mut Metrics, data: &[u8])
        ensures
            final(metrics)@ == after_frame(old(metrics)@, frame_effect_spec(data@)),
    {
        match Self::frame_effect(data) {
            FrameEffect::Ignored => {},
            FrameEffect::Bytes(n) => metrics.bump(CounterKey::Http2BytesTotal, n as u64),
            FrameEffect::NewStream => metrics.bump(CounterKey::Http2StreamsTotal, 1),
            FrameEffect::StreamReset => metrics.bump(CounterKey::Http2StreamResets, 1),
        }
    }
}

} // verus!
