//! Analysis window functions

use vstd::prelude::*;
use crate::float_bits::F32Bits;
use crate::float_bits::ONE_BITS;

verus! {

/// A collection of analysis window functions
///
/// See <https://en.wikipedia.org/wiki/Window_function> for orientation.
#[derive(Clone, Copy, Debug, PartialEq, Eq, Structural)]
pub enum Window {
    /// Useful in testing
    Rectangular,
    /// Useful in single frame analysis
    Hanning,
    /// Useful for continuous STFT phase-vocoder style analysis:
    /// a Hanning window with periodic behaviour
    HanningZ,
}

/// The settings used by a spectral analyzer
#[derive(Clone, Copy, Debug)]
pub struct SpectralAnalyzerSettings {
    /// The FFT size to be used during analysis
    pub fft_size: usize,
    /// The overlap factor to be used
    pub overlap_factor: usize,
    /// The analysis window to be applied for each frame
    pub window: Window,
}

/// A rectangular window of a fixed size, provided one value at a time
pub struct Rectangular {
    i: usize,
    size: usize,
}

impl Rectangular {
    /// Makes a rectangular window with `size` values
    pub fn new(size: usize) -> (r: Rectangular)
        ensures
            r.remaining() == size,
    {
        Rectangular { i: 0, size }
    }

    /// The number of values that are still to be provided
    pub closed spec fn remaining(&self) -> nat {
        if self.i < self.size {
            (self.size - self.i) as nat
        } else {
            0
        }
    }

    /// Provides the next window value, `1.0`, or `None` after `size` values
    pub fn next(&mut self) -> (r: Option<F32Bits>)
        ensures
            old(self).remaining() > 0 ==> r == Some(F32Bits { bits: ONE_BITS })
                && final(self).remaining() == old(self).remaining() - 1,
            old(self).remaining() == 0 ==> r is None && final(self).remaining() == 0,
    {
        if self.i < self.size {
            self.i = self.i + 1;
            Some(F32Bits::one())
        } else {
            None
        }
    }
}

} // verus!
