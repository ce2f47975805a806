//! The Android vibration waveform format

use vstd::prelude::*;

verus! {

/// A rendered Android waveform, in exactly the format expected by the Android API
/// `VibrationEffect::createWaveform()`
#[derive(Clone, Debug, PartialEq, Eq)]
pub struct Waveform {
    /// The amplitude of each sample, in the range [0, 255]
    pub amplitudes: Vec<i32>,
    /// The duration of each amplitude value, in milliseconds
    pub timings_ms: Vec<i64>,
}

} // verus!
