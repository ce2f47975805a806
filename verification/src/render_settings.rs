//! Settings that define the output of the haptic renderer

use vstd::prelude::*;

verus! {

/// Settings that define the output of the haptic renderer
#[derive(Clone, Copy, Debug)]
pub struct RenderSettings {
    /// The type of rendering that should take place, e.g. 'synthesis' or 'amp_curve'
    pub render_mode: RenderMode,
    /// The format of the rendered output, e.g. 'wav', 'raw', or 'csv', defaults to 'wav'
    pub output_format: OutputFormat,
    /// The sample rate of the renderer's audio output, defaults to 44.1kHz
    pub sample_rate: u32,
    /// The sample format of the renderer's audio output, defaults to 16-bit integer
    pub sample_format: SampleFormat,
}

/// The format of rendered samples, see `RenderSettings`
#[derive(Clone, Copy, Debug, PartialEq, Eq, Structural)]
pub enum SampleFormat {
    /// 8-bit unsigned integer
    Unsigned8,
    /// 16-bit signed integer
    Signed16,
    /// 16-bit signed integer
    Signed24,
    /// 32-bit signed integer
    Signed32,
    /// 32-bit floating point
    Float32,
}

/// The data format of the rendered output, see `RenderSettings`
#[derive(Clone, Copy, Debug, PartialEq, Eq, Structural)]
pub enum OutputFormat {
    /// Raw output values, without any context like sample rate or bit depth
    Raw,
    /// Output values prefixed with a .wav header
    Wav,
    /// Output values written out as text
    Csv,
}

/// See `SampleFormat::integer_or_float`
#[derive(Clone, Copy, Debug, PartialEq, Eq, Structural)]
pub enum IntegerOrFloat {
    Integer,
    Float,
}

/// The rendering mode, see `RenderSettings`
#[derive(Clone, Copy, Debug, PartialEq, Eq, Structural)]
pub enum RenderMode {
    /// Synthesized PCM audio data in the range -1.0..=1.0 that can directly drive an actuator
    Synthesis,
    /// A curve in the range 0..=1.0 that represents the intensity of an actuator over time
    AmpCurve,
}

/// The number of bits of each sample format
pub open spec fn format_bits(format: SampleFormat) -> u16 {
    match format {
        SampleFormat::Unsigned8 => 8,
        SampleFormat::Signed16 => 16,
        SampleFormat::Signed24 => 16,
        SampleFormat::Signed32 => 32,
        SampleFormat::Float32 => 32,
    }
}

impl SampleFormat {
    /// The number of bits represented by the format
    pub fn bits(&self) -> (r: u16)
        ensures
            r == format_bits(*self),
    {
        match self {
            SampleFormat::Unsigned8 => 8,
            SampleFormat::Signed16 => 16,
            SampleFormat::Signed24 => 16,
            SampleFormat::Signed32 | SampleFormat::Float32 => 32,
        }
    }

    /// Whether the format uses integer or floating point values
    pub fn integer_or_float(&self) -> (r: IntegerOrFloat)
        ensures
            r == (if *self == SampleFormat::Float32 {
                IntegerOrFloat::Float
            } else {
                IntegerOrFloat::Integer
            }),
    {
        match self {
            SampleFormat::Float32 => IntegerOrFloat::Float,
            _ => IntegerOrFloat::Integer,
        }
    }
}

impl Default for RenderSettings {
    fn default() -> (r: Self)
        ensures
            r.render_mode == RenderMode::Synthesis,
            r.output_format == OutputFormat::Wav,
            r.sample_rate == 44100,
            r.sample_format == SampleFormat::Signed16,
    {
        RenderSettings {
            render_mode: RenderMode::Synthesis,
            output_format: OutputFormat::Wav,
            sample_rate: 44100,
            sample_format: SampleFormat::Signed16,
        }
    }
}

} // verus!
