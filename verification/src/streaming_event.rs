//! The events read out of haptic data during streaming playback

use vstd::prelude::*;
use crate::float_bits::F32Bits;

verus! {

/// An event read from haptic data during playback
#[derive(Clone, Copy, Debug)]
pub struct StreamingEvent {
    /// The time at which the event should start
    pub time: F32Bits,
    /// The event itself, which may be an amplitude or frequency ramp, or an emphasis event
    pub event: StreamingEventType,
}

/// The inner event type contained in a [StreamingEvent]
#[derive(Clone, Copy, Debug)]
pub enum StreamingEventType {
    /// An amplitude ramp
    AmplitudeRamp(StreamingRamp),
    /// A frequency ramp
    FrequencyRamp(StreamingRamp),
    /// An emphasis event
    Emphasis { amplitude: F32Bits, frequency: F32Bits },
}

/// Common properties of amplitude and frequency ramps
#[derive(Clone, Copy, Debug)]
pub struct StreamingRamp {
    /// The value at the start of the ramp
    pub start: F32Bits,
    /// The value at the end of the ramp
    pub target: F32Bits,
    /// The duration of the ramp
    pub duration: F32Bits,
}

impl StreamingEvent {
    /// Returns true if the event is an amplitude ramp
    pub fn is_amplitude_ramp(&self) -> (r: bool)
        ensures
            r == (self.event is AmplitudeRamp),
    {
        match self.event {
            StreamingEventType::AmplitudeRamp(_) => true,
            _ => false,
        }
    }

    /// Returns true if the event is a frequency ramp
    pub fn is_frequency_ramp(&self) -> (r: bool)
        ensures
            r == (self.event is FrequencyRamp),
    {
        match self.event {
            StreamingEventType::FrequencyRamp(_) => true,
            _ => false,
        }
    }
}

} // verus!
