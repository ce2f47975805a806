//! Actuator configuration: the settings used by the renderer's continuous and emphasis
//! oscillators

use vstd::prelude::*;
use crate::float_bits::F32Bits;

verus! {

/// The 'Actuator Configuration Format' settings
#[derive(Copy, Clone, Debug)]
pub struct Acf {
    /// The settings used for rendering the continuous signal
    pub continuous: ContinuousOscillatorSettings,
    /// The settings used for rendering emphasis events
    pub emphasis: EmphasisOscillatorSettings,
}

/// The settings used by the renderer's continuous oscillator
#[derive(Copy, Clone, Debug)]
pub struct ContinuousOscillatorSettings {
    /// The gain of the continuous oscillator, range 0->1
    pub gain: F32Bits,
    /// The additional gain applied to the continuous signal while emphasis is active:
    /// '1' means 'no ducking', '0' means 'drop to silence while an emphasis event is active'
    pub emphasis_ducking: F32Bits,
    /// The minimum frequency in Hz of the continuous oscillator
    pub frequency_min: F32Bits,
    /// The maximum frequency in Hz of the continuous oscillator
    pub frequency_max: F32Bits,
}

/// The settings used by the renderer's emphasis oscillator
#[derive(Copy, Clone, Debug)]
pub struct EmphasisOscillatorSettings {
    /// The gain of the emphasis oscillator, range 0->1
    pub gain: F32Bits,
    /// The amount that the emphasis signal fades out while it's active, in percent
    pub fade_out_percent: F32Bits,
    /// The settings to use when the emphasis frequency is at its minimum
    pub frequency_min: EmphasisFrequencySettings,
    /// The settings to use when the emphasis frequency is at its maximum
    pub frequency_max: EmphasisFrequencySettings,
}

/// The settings to use for either minimum or maximum emphasis frequency
#[derive(Copy, Clone, Debug)]
pub struct EmphasisFrequencySettings {
    /// The output frequency in hertz of the emphasis oscillator
    pub output_frequency: F32Bits,
    /// The duration in milliseconds of the emphasis event
    pub duration_ms: F32Bits,
    /// The shape of the emphasis oscillator's output
    pub shape: EmphasisShape,
}

/// The oscillator shape to use when rendering an emphasis event
#[derive(Copy, Clone, Debug, PartialEq, Eq, Structural)]
pub enum EmphasisShape {
    /// A descending saw shape
    Saw,
    /// A Sine wave
    Sine,
    /// A rectangular wave starting with 'up'
    Square,
    /// A triangular wave, starting with the rising section
    Triangle,
}

impl Default for EmphasisShape {
    fn default() -> (r: Self)
        ensures
            r == EmphasisShape::Saw,
    {
        EmphasisShape::Saw
    }
}

impl Default for EmphasisFrequencySettings {
    fn default() -> (r: Self)
        ensures
            r.output_frequency.bits == 0,
            r.duration_ms.bits == 0,
            r.shape == EmphasisShape::Saw,
    {
        EmphasisFrequencySettings {
            output_frequency: F32Bits::zero(),
            duration_ms: F32Bits::zero(),
            shape: EmphasisShape::default(),
        }
    }
}

impl Default for EmphasisOscillatorSettings {
    fn default() -> (r: Self)
        ensures
            r.gain.bits == 0,
            r.fade_out_percent.bits == 0,
            r.frequency_min.output_frequency.bits == 0,
            r.frequency_min.duration_ms.bits == 0,
            r.frequency_min.shape == EmphasisShape::Saw,
            r.frequency_max.output_frequency.bits == 0,
            r.frequency_max.duration_ms.bits == 0,
            r.frequency_max.shape == EmphasisShape::Saw,
    {
        EmphasisOscillatorSettings {
            gain: F32Bits::zero(),
            fade_out_percent: F32Bits::zero(),
            frequency_min: EmphasisFrequencySettings::default(),
            frequency_max: EmphasisFrequencySettings::default(),
        }
    }
}

impl Default for ContinuousOscillatorSettings {
    fn default() -> (r: Self)
        ensures
            r.gain.bits == 0,
            r.emphasis_ducking.bits == 0,
            r.frequency_min.bits == 0,
            r.frequency_max.bits == 0,
    {
        ContinuousOscillatorSettings {
            gain: F32Bits::zero(),
            emphasis_ducking: F32Bits::zero(),
            frequency_min: F32Bits::zero(),
            frequency_max: F32Bits::zero(),
        }
    }
}

impl Default for Acf {
    fn default() -> (r: Self)
        ensures
            r.continuous.gain.bits == 0,
            r.continuous.emphasis_ducking.bits == 0,
            r.continuous.frequency_min.bits == 0,
            r.continuous.frequency_max.bits == 0,
            r.emphasis.gain.bits == 0,
            r.emphasis.fade_out_percent.bits == 0,
            r.emphasis.frequency_min.output_frequency.bits == 0,
            r.emphasis.frequency_min.duration_ms.bits == 0,
            r.emphasis.frequency_min.shape == EmphasisShape::Saw,
            r.emphasis.frequency_max.output_frequency.bits == 0,
            r.emphasis.frequency_max.duration_ms.bits == 0,
            r.emphasis.frequency_max.shape == EmphasisShape::Saw,
    {
        Acf {
            continuous: ContinuousOscillatorSettings::default(),
            emphasis: EmphasisOscillatorSettings::default(),
        }
    }
}

} // verus!
