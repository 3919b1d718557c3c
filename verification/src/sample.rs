//! Byte-to-sample conversion.
//!
//! The decoder emits unsigned 8-bit bytes, one per sample. Each byte `b`
//! in `[0, 255]` becomes the amplitude `(2*b - 255) / 255`, which lies in
//! the closed range `[-1, 1]`. The amplitude is held exactly as its
//! numerator over the fixed denominator 255, so the mapping is integer
//! arithmetic throughout; the host divides by 255 in floating point only
//! at the moment it hands a sample to the playback sink.

use vstd::prelude::*;

verus! {

/// The fixed denominator of a normalized sample's amplitude.
pub const SAMPLE_DENOMINATOR: i16 = 255;

/// A single-channel audio amplitude in `[-1, 1]`, held exactly as
/// `numerator / 255`. The numerator always lies in `[-255, 255]`.
#[derive(Clone, Copy, Debug, PartialEq, Eq, Structural)]
pub struct NormalizedSample {
    pub numerator: i16,
}

/// The amplitude numerator a decoded byte maps to: `2*b - 255`.
pub open spec fn sample_numerator(b: u8) -> int {
    2 * (b as int) - 255
}

/// The sample a decoded byte maps to.
pub open spec fn sample_of_byte(b: u8) -> NormalizedSample {
    NormalizedSample { numerator: sample_numerator(b) as i16 }
}

/// A sample whose amplitude lies in `[-1, 1]`.
pub open spec fn is_normalized(s: NormalizedSample) -> bool {
    -255 <= s.numerator <= 255
}

/// The samples a run of decoded bytes maps to, in order, one per byte.
pub open spec fn converted_samples(bytes: Seq<u8>) -> Seq<NormalizedSample> {
    bytes.map(|i: int, b: u8| sample_of_byte(b))
}

impl NormalizedSample {
    /// Converts one decoded byte: treat it as an unsigned 8-bit magnitude,
    /// scale `[0, 255]` onto `[-1, 1]`.
    pub fn from_byte(b: u8) -> (s: NormalizedSample)
        ensures
            s == sample_of_byte(b),
            is_normalized(s),
    {
        NormalizedSample { numerator: 2 * (b as i16) - 255 }
    }
}

/// Converts exactly the first `bytes_written` bytes of a decoded frame into
/// samples, in input order: one sample per valid byte, and the stale bytes
/// beyond `bytes_written` contribute nothing.
pub fn convert_frame(decoded: &Vec<u8>, bytes_written: usize) -> (samples: Vec<
    NormalizedSample,
>)
    requires
        bytes_written <= decoded.len(),
    ensures
        samples@ == converted_samples(decoded@.subrange(0, bytes_written as int)),
        samples@.len() == bytes_written,
        forall|j: int| 0 <= j < bytes_written ==> samples@[j] == sample_of_byte(decoded@[j]),
{
    let mut samples: Vec<NormalizedSample> = Vec::new();
    let mut i: usize = 0;
    while i < bytes_written
        invariant
            i <= bytes_written <= decoded.len(),
            samples@.len() == i,
            forall|j: int| 0 <= j < i ==> samples@[j] == sample_of_byte(decoded@[j]),
        decreases bytes_written - i,
    {
        samples.push(NormalizedSample::from_byte(decoded[i]));
        i += 1;
    }
    proof {
        assert(samples@ =~= converted_samples(decoded@.subrange(0, bytes_written as int)));
    }
    samples
}

/// Endpoints and midpoint of the conversion: a zero byte is the lowest
/// amplitude `-1` (numerator `-255`), byte 255 is the highest amplitude
/// `+1` (numerator `255`), and the midpoint bytes 127 and 128 land within
/// one denominator step of silence (numerators `-1` and `1`).
pub proof fn law_conversion_endpoints()
    ensures
        sample_of_byte(0).numerator == -255,
        sample_of_byte(255).numerator == 255,
        sample_of_byte(127).numerator == -1,
        sample_of_byte(128).numerator == 1,
{
}

/// Every converted sample is normalized: its amplitude lies in `[-1, 1]`.
pub proof fn law_conversion_normalized(b: u8)
    ensures
        is_normalized(sample_of_byte(b)),
{
}

} // verus!
