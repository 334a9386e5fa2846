//! Configuration of the moving-average smoothing pipeline for muscle signals.
//!
//! The smoother itself averages real-valued samples over [`SampleWindow`]s;
//! this module fixes its options and the integer lengths of its windows.
//!
//! [`SampleWindow`]: crate::window::SampleWindow
use vstd::prelude::*;

verus! {

/// Options of the smoothing pipeline.
#[derive(Clone, Copy, Debug, PartialEq, Eq, Structural)]
pub enum EmgOptions {
    ReferenceAvailable,
    ReferenceUnavailable,
    HighPassFilterOn,
    HighPassFilterOff,
}

/// Length of the short smoothing window: an eighth of the samples in one
/// period of the highest muscle frequency, at least 1.
pub fn lowpass_window_length(sample_frequency: usize, max_emg_frequency: usize) -> (r: usize)
    requires
        max_emg_frequency > 0,
    ensures
        r == (if sample_frequency as int / (8 * max_emg_frequency) >= 1 {
            sample_frequency as int / (8 * max_emg_frequency)
        } else {
            1
        }),
{
    let q = sample_frequency / 8 / max_emg_frequency;
    proof {
        vstd::arithmetic::div_mod::lemma_div_denominator(
            sample_frequency as int,
            8,
            max_emg_frequency as int,
        );
    }
    if q >= 1 {
        q
    } else {
        1
    }
}

/// Length of the baseline window: the samples in two periods of the lowest
/// muscle frequency.
pub fn highpass_window_length(sample_frequency: usize, min_emg_frequency: usize) -> (r: usize)
    requires
        min_emg_frequency > 0,
        sample_frequency * 2 <= usize::MAX,
    ensures
        r == sample_frequency * 2 / (min_emg_frequency as int),
{
    sample_frequency * 2 / min_emg_frequency
}

} // verus!
