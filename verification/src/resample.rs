//! Planning for one-shot sample-rate conversion.
//!
//! The numeric conversion itself runs on floating-point frames in the
//! unverified shell; this module owns the decisions around it: validating
//! the configuration, deciding whether a conversion is needed at all, and
//! fixing the expected output length.

use vstd::prelude::*;

use crate::errors::SpeechError;

verus! {

/// The fixed rate the inference engine requires, in hertz.
pub const WHISPER_SAMPLE_RATE: u32 = 16000;

/// What to do with a finished recording.
#[derive(Clone, Copy, Debug, PartialEq, Eq, Structural)]
pub enum ResampleDecision {
    /// Source rate equals the target rate: hand the samples through
    /// unchanged.
    Passthrough,
    /// Convert, expecting this many output samples (the source length
    /// scaled by target over source rate, rounded down).
    Convert { expected_output_len: usize },
}

/// The output length a conversion of `len` samples from `from` to `to`
/// hertz is expected to produce.
pub open spec fn spec_expected_output_len(len: int, from: int, to: int) -> int {
    len * to / from
}

/// Validate a conversion request and decide what to do with it.
///
/// Fails with [`SpeechError::Resample`] exactly on an invalid
/// configuration: an empty input, a zero rate, or an expected output too
/// long for this machine. Otherwise decides `Passthrough` exactly when the
/// rates are equal, and fixes the expected output length otherwise.
pub fn prepare_resample(input_len: usize, from_rate: u32, to_rate: u32) -> (r: Result<
    ResampleDecision,
    SpeechError,
>)
    ensures
        match r {
            Ok(d) => {
                &&& input_len > 0
                &&& from_rate > 0
                &&& to_rate > 0
                &&& spec_expected_output_len(input_len as int, from_rate as int, to_rate as int)
                    <= usize::MAX
                &&& match d {
                    ResampleDecision::Passthrough => from_rate == to_rate,
                    ResampleDecision::Convert { expected_output_len } => from_rate != to_rate
                        && expected_output_len == spec_expected_output_len(
                        input_len as int,
                        from_rate as int,
                        to_rate as int,
                    ),
                }
            },
            Err(e) => e == SpeechError::Resample && (input_len == 0 || from_rate == 0 || to_rate
                == 0 || spec_expected_output_len(
                input_len as int,
                from_rate as int,
                to_rate as int,
            ) > usize::MAX),
        },
{
    if input_len == 0 || from_rate == 0 || to_rate == 0 {
        return Err(SpeechError::Resample);
    }
    if from_rate == to_rate {
        proof {
            assert(spec_expected_output_len(input_len as int, from_rate as int, to_rate as int)
                == input_len as int) by (nonlinear_arith)
                requires
                    from_rate == to_rate,
                    from_rate > 0,
                    input_len > 0,
            ;
        }
        return Ok(ResampleDecision::Passthrough);
    }
    proof {
        assert((input_len as int) * (to_rate as int) <= u128::MAX) by (nonlinear_arith)
            requires
                input_len <= usize::MAX,
                to_rate <= u32::MAX,
        ;
    }
    let wide: u128 = (input_len as u128) * (to_rate as u128) / (from_rate as u128);
    proof {
        assert(wide == spec_expected_output_len(input_len as int, from_rate as int, to_rate as int));
    }
    if wide > usize::MAX as u128 {
        return Err(SpeechError::Resample);
    }
    Ok(ResampleDecision::Convert { expected_output_len: wide as usize })
}

} // verus!
