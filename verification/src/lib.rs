//! Haptics SDK core: the haptic data model and its validation, AHAP splitting,
//! streaming event types, renderer settings, and DSP building blocks.
//!
//! Floating-point values are carried as their IEEE-754 binary32 bit patterns
//! (see [`F32Bits`]), so that the library's decisions over them can be verified.

pub mod float_bits;
pub mod text;
pub mod version;
pub mod v1;
pub mod json;
pub mod breakpoint;
pub mod ahap;
pub mod streaming_event;
pub mod render_settings;
pub mod oscillator_settings;
pub mod android_waveform;
pub mod delay;
pub mod windows;
pub mod event_reader;
pub mod audio;

pub use ahap::SplitAhap;
pub use android_waveform::Waveform;
pub use audio::MultiChannelBehavior;
pub use breakpoint::BasicBreakpoint;
pub use breakpoint::Breakpoint;
pub use delay::FixedDelayLine;
pub use delay::FixedDelayLineIter;
pub use float_bits::F32Bits;
pub use json::FromJsonError;
pub use json::from_parsed_json;
pub use oscillator_settings::Acf;
pub use oscillator_settings::ContinuousOscillatorSettings;
pub use oscillator_settings::EmphasisFrequencySettings;
pub use oscillator_settings::EmphasisOscillatorSettings;
pub use oscillator_settings::EmphasisShape;
pub use render_settings::IntegerOrFloat;
pub use render_settings::OutputFormat;
pub use render_settings::RenderMode;
pub use render_settings::RenderSettings;
pub use render_settings::SampleFormat;
pub use streaming_event::StreamingEvent;
pub use streaming_event::StreamingEventType;
pub use streaming_event::StreamingRamp;
pub use v1::HapticData;
pub use v1::ValidationError;
pub use v1::ValidationMode;
pub use version::Version;
pub use windows::SpectralAnalyzerSettings;
pub use windows::Window;
