//! The tick-driven decode/convert/stream cycle.
//!
//! Once per scheduler tick the host drives one cycle: it asks
//! [`next_action`] what to do, performs the returned capture-service or
//! sink call, feeds the outcome back as the matching [`TickEvent`], and
//! stops as soon as the action is [`TickAction::Done`]. The first event of
//! a tick is always [`TickEvent::Start`] carrying the current recording
//! state; every later event reports the outcome of the action just
//! performed. The decisions — whether to proceed at all, how many bytes to
//! fetch, how many of them to decode, and how many decoded bytes become
//! samples — are all made here and verified; the host only executes them.

use vstd::prelude::*;

use crate::capture::CaptureError;
use crate::capture::RecordingState;

verus! {

/// Samples per second that the decoder is asked to produce.
pub const VOICE_OUTPUT_SAMPLE_RATE: u32 = 11025;

/// Width the decoded buffer is provisioned with, in bytes per sample.
/// The conversion itself consumes one byte per sample; sizing the buffer
/// at two bytes per sample leaves deliberate headroom, so a decoder that
/// reports more than one byte per sample never overruns the buffer.
pub const BYTES_PER_SAMPLE: usize = 2;

/// Capacity of the compressed-byte buffer handed to a fetch, in bytes.
pub const COMPRESSED_CAPACITY: usize = 1024;

/// Capacity of the decoded buffer: one second of audio at the target rate
/// and provisioned width, `VOICE_OUTPUT_SAMPLE_RATE * BYTES_PER_SAMPLE`.
pub const DECODED_CAPACITY: usize = 22050;

/// The decoded-buffer capacity is exactly one second of audio at the
/// target sample rate and the provisioned byte width.
pub proof fn law_decoded_capacity()
    ensures
        DECODED_CAPACITY == VOICE_OUTPUT_SAMPLE_RATE * BYTES_PER_SAMPLE,
{
}

/// One outcome the host reports back to the pipeline during a tick.
#[derive(Clone, Copy, Debug, PartialEq, Eq)]
#[allow(inconsistent_fields)]
pub enum TickEvent {
    /// A new tick begins; carries the recording state read this tick.
    Start { state: RecordingState },
    /// The service answered the availability query: how many compressed
    /// bytes it has buffered, or a transient error code.
    Available { outcome: Result<u32, CaptureError> },
    /// A fetch finished: how many compressed bytes the service actually
    /// wrote into the buffer, and its result code.
    Fetched { bytes_written: usize, outcome: Result<(), CaptureError> },
    /// A decode finished: how many decoded bytes the decoder actually
    /// wrote, and its result code.
    Decoded { bytes_written: usize, outcome: Result<(), CaptureError> },
    /// The samples were handed to the playback sink.
    Streamed,
}

/// The next call the host must perform within the current tick, or `Done`
/// when the tick's work is over.
#[derive(Clone, Copy, Debug, PartialEq, Eq, Structural)]
pub enum TickAction {
    /// Nothing further this tick.
    Done,
    /// Ask the capture service how many compressed bytes are buffered.
    QueryAvailable,
    /// Fetch up to `capacity` compressed bytes into a fresh buffer.
    Fetch { capacity: usize },
    /// Decode exactly the first `compressed_len` fetched bytes — never the
    /// full buffer — into a buffer of `out_capacity` bytes at `sample_rate`.
    Decode { compressed_len: usize, out_capacity: usize, sample_rate: u32 },
    /// Convert exactly the first `sample_count` decoded bytes into samples
    /// and append them, in order, to the playback sink.
    Stream { sample_count: usize },
}

/// What a conforming host does after reporting `event`: the full decision
/// rule of the cycle. Every transient error code and every zero byte count
/// ends the tick silently; only a successful, non-empty outcome advances it.
pub open spec fn action_of(event: TickEvent) -> TickAction {
    match event {
        TickEvent::Start { state } => if state is Recording {
            TickAction::QueryAvailable
        } else {
            TickAction::Done
        },
        TickEvent::Available { outcome } => match outcome {
            Ok(count) => if count > 0 {
                TickAction::Fetch { capacity: COMPRESSED_CAPACITY }
            } else {
                TickAction::Done
            },
            Err(_) => TickAction::Done,
        },
        TickEvent::Fetched { bytes_written, outcome } => if outcome is Ok && bytes_written > 0 {
            TickAction::Decode {
                compressed_len: bytes_written,
                out_capacity: DECODED_CAPACITY,
                sample_rate: VOICE_OUTPUT_SAMPLE_RATE,
            }
        } else {
            TickAction::Done
        },
        TickEvent::Decoded { bytes_written, outcome } => if outcome is Ok && bytes_written > 0 {
            TickAction::Stream { sample_count: bytes_written }
        } else {
            TickAction::Done
        },
        TickEvent::Streamed => TickAction::Done,
    }
}

/// Decides the next call of the current tick from the outcome the host
/// just reported.
pub fn next_action(event: TickEvent) -> (action: TickAction)
    ensures
        action == action_of(event),
{
    match event {
        TickEvent::Start { state } => match state {
            RecordingState::Recording => TickAction::QueryAvailable,
            RecordingState::Idle => TickAction::Done,
        },
        TickEvent::Available { outcome } => match outcome {
            Ok(count) => if count > 0 {
                TickAction::Fetch { capacity: COMPRESSED_CAPACITY }
            } else {
                TickAction::Done
            },
            Err(_) => TickAction::Done,
        },
        TickEvent::Fetched { bytes_written, outcome } => match outcome {
            Ok(_) => if bytes_written > 0 {
                TickAction::Decode {
                    compressed_len: bytes_written,
                    out_capacity: DECODED_CAPACITY,
                    sample_rate: VOICE_OUTPUT_SAMPLE_RATE,
                }
            } else {
                TickAction::Done
            },
            Err(_) => TickAction::Done,
        },
        TickEvent::Decoded { bytes_written, outcome } => match outcome {
            Ok(_) => if bytes_written > 0 {
                TickAction::Stream { sample_count: bytes_written }
            } else {
                TickAction::Done
            },
            Err(_) => TickAction::Done,
        },
        TickEvent::Streamed => TickAction::Done,
    }
}

/// Copies exactly the first `bytes_written` bytes of a fetched buffer into
/// the frame handed to the decoder, discarding the stale remainder.
pub fn truncate_frame(buffer: &Vec<u8>, bytes_written: usize) -> (frame: Vec<u8>)
    requires
        bytes_written <= buffer.len(),
    ensures
        frame@ == buffer@.subrange(0, bytes_written as int),
        frame@.len() == bytes_written,
{
    let mut frame: Vec<u8> = Vec::new();
    let mut i: usize = 0;
    while i < bytes_written
        invariant
            i <= bytes_written <= buffer.len(),
            frame@.len() == i,
            forall|j: int| 0 <= j < i ==> frame@[j] == buffer@[j],
        decreases bytes_written - i,
    {
        frame.push(buffer[i]);
        i += 1;
    }
    proof {
        assert(frame@ =~= buffer@.subrange(0, bytes_written as int));
    }
    frame
}

/// The capture-service calls and the single sink append that one tick
/// performs, in order, when the recording state is `state` and the service
/// would report `available` to the query, `(fetch_bytes, fetch_outcome)`
/// to the fetch, and `(decode_bytes, decode_outcome)` to the decode.
pub open spec fn tick_actions(
    state: RecordingState,
    available: Result<u32, CaptureError>,
    fetch_bytes: usize,
    fetch_outcome: Result<(), CaptureError>,
    decode_bytes: usize,
    decode_outcome: Result<(), CaptureError>,
) -> Seq<TickAction> {
    let query = action_of(TickEvent::Start { state });
    if query is Done {
        Seq::empty()
    } else {
        let fetch = action_of(TickEvent::Available { outcome: available });
        if fetch is Done {
            seq![query]
        } else {
            let decode = action_of(TickEvent::Fetched {
                bytes_written: fetch_bytes,
                outcome: fetch_outcome,
            });
            if decode is Done {
                seq![query, fetch]
            } else {
                let stream = action_of(TickEvent::Decoded {
                    bytes_written: decode_bytes,
                    outcome: decode_outcome,
                });
                if stream is Done {
                    seq![query, fetch, decode]
                } else {
                    seq![query, fetch, decode, stream]
                }
            }
        }
    }
}

/// While the recording state is idle, a tick performs no work at all:
/// no capture-service call and no sink append, whatever the service
/// would have reported.
pub proof fn law_idle_tick_inert(
    state: RecordingState,
    available: Result<u32, CaptureError>,
    fetch_bytes: usize,
    fetch_outcome: Result<(), CaptureError>,
    decode_bytes: usize,
    decode_outcome: Result<(), CaptureError>,
)
    requires
        state is Idle,
    ensures
        tick_actions(state, available, fetch_bytes, fetch_outcome, decode_bytes, decode_outcome)
            =~= Seq::<TickAction>::empty(),
{
}

/// When the availability query reports zero buffered bytes or any error
/// code, the tick performs nothing beyond that query: no fetch, no decode,
/// no conversion, no sink append.
pub proof fn law_no_bytes_no_work(
    state: RecordingState,
    available: Result<u32, CaptureError>,
    fetch_bytes: usize,
    fetch_outcome: Result<(), CaptureError>,
    decode_bytes: usize,
    decode_outcome: Result<(), CaptureError>,
)
    requires
        available is Err || available->Ok_0 == 0,
    ensures
        forall|i: int|
            0 <= i < tick_actions(
                state,
                available,
                fetch_bytes,
                fetch_outcome,
                decode_bytes,
                decode_outcome,
            ).len() ==> tick_actions(
                state,
                available,
                fetch_bytes,
                fetch_outcome,
                decode_bytes,
                decode_outcome,
            )[i] is QueryAvailable,
{
}

/// Whatever a tick does, the byte counts it acts on are exactly the counts
/// the service reported: a decode consumes exactly the fetched byte count
/// — never the buffer's capacity — and a sink append carries exactly the
/// decoded byte count.
pub proof fn law_exact_byte_counts(
    state: RecordingState,
    available: Result<u32, CaptureError>,
    fetch_bytes: usize,
    fetch_outcome: Result<(), CaptureError>,
    decode_bytes: usize,
    decode_outcome: Result<(), CaptureError>,
)
    ensures
        forall|i: int|
            0 <= i < tick_actions(
                state,
                available,
                fetch_bytes,
                fetch_outcome,
                decode_bytes,
                decode_outcome,
            ).len() ==> ((#[trigger] tick_actions(
                state,
                available,
                fetch_bytes,
                fetch_outcome,
                decode_bytes,
                decode_outcome,
            )[i]) matches TickAction::Decode { compressed_len, .. } ==> compressed_len
                == fetch_bytes),
        forall|i: int|
            0 <= i < tick_actions(
                state,
                available,
                fetch_bytes,
                fetch_outcome,
                decode_bytes,
                decode_outcome,
            ).len() ==> ((#[trigger] tick_actions(
                state,
                available,
                fetch_bytes,
                fetch_outcome,
                decode_bytes,
                decode_outcome,
            )[i]) matches TickAction::Stream { sample_count } ==> sample_count == decode_bytes),
{
}

/// A fully successful tick while recording — some bytes available, a
/// non-empty fetch, a non-empty decode — performs exactly the four calls
/// of the cycle in order: query, fetch at the fixed capacity, decode of
/// exactly the fetched bytes, and one sink append of exactly the decoded
/// byte count.
pub proof fn law_full_cycle(
    state: RecordingState,
    count: u32,
    fetch_bytes: usize,
    decode_bytes: usize,
)
    requires
        state is Recording,
        count > 0,
        fetch_bytes > 0,
        decode_bytes > 0,
    ensures
        tick_actions(
            state,
            Ok(count),
            fetch_bytes,
            Ok(()),
            decode_bytes,
            Ok(()),
        ) =~= seq![
            TickAction::QueryAvailable,
            (TickAction::Fetch { capacity: COMPRESSED_CAPACITY }),
            (TickAction::Decode {
                compressed_len: fetch_bytes,
                out_capacity: DECODED_CAPACITY,
                sample_rate: VOICE_OUTPUT_SAMPLE_RATE,
            }),
            (TickAction::Stream { sample_count: decode_bytes }),
        ],
{
}

} // verus!
