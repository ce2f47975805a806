//! Breakpoints: time/value pairs that make up haptic envelopes

use vstd::prelude::*;
use vstd::std_specs::convert::FromSpecImpl;
use crate::float_bits::F32Bits;
use crate::v1::AmplitudeBreakpoint;
use crate::v1::FrequencyBreakpoint;

verus! {

/// A trait for breakpoints, allowing time/value structs to maintain their own representations
pub trait Breakpoint: Clone + Sized {
    /// The time of the breakpoint
    fn time(&self) -> F32Bits;

    /// The value (i.e. the position on the Y axis) of the breakpoint
    fn value(&self) -> F32Bits;

    /// Creates a breakpoint from a time and value
    fn from_time_value(time: F32Bits, value: F32Bits) -> Self;
}

/// A basic implementation of [Breakpoint], useful in testing and generic code
#[derive(Clone, Copy, Debug, PartialEq)]
pub struct BasicBreakpoint {
    pub time: F32Bits,
    pub value: F32Bits,
}

impl Breakpoint for BasicBreakpoint {
    fn time(&self) -> (r: F32Bits)
        ensures
            r == self.time,
    {
        self.time
    }

    fn value(&self) -> (r: F32Bits)
        ensures
            r == self.value,
    {
        self.value
    }

    fn from_time_value(time: F32Bits, value: F32Bits) -> (r: Self)
        ensures
            r == (BasicBreakpoint { time, value }),
    {
        BasicBreakpoint { time, value }
    }
}

impl From<(F32Bits, F32Bits)> for BasicBreakpoint {
    fn from(time_value: (F32Bits, F32Bits)) -> (r: Self) {
        BasicBreakpoint { time: time_value.0, value: time_value.1 }
    }
}

impl FromSpecImpl<(F32Bits, F32Bits)> for BasicBreakpoint {
    open spec fn obeys_from_spec() -> bool {
        true
    }

    open spec fn from_spec(time_value: (F32Bits, F32Bits)) -> BasicBreakpoint {
        BasicBreakpoint { time: time_value.0, value: time_value.1 }
    }
}

impl Breakpoint for AmplitudeBreakpoint {
    fn time(&self) -> (r: F32Bits)
        ensures
            r == self.time,
    {
        self.time
    }

    fn value(&self) -> (r: F32Bits)
        ensures
            r == self.amplitude,
    {
        self.amplitude
    }

    fn from_time_value(time: F32Bits, value: F32Bits) -> (r: Self)
        ensures
            r == (AmplitudeBreakpoint { time, amplitude: value, emphasis: None }),
    {
        AmplitudeBreakpoint { time, amplitude: value, emphasis: None }
    }
}

impl Breakpoint for FrequencyBreakpoint {
    fn time(&self) -> (r: F32Bits)
        ensures
            r == self.time,
    {
        self.time
    }

    fn value(&self) -> (r: F32Bits)
        ensures
            r == self.frequency,
    {
        self.frequency
    }

    fn from_time_value(time: F32Bits, value: F32Bits) -> (r: Self)
        ensures
            r == (FrequencyBreakpoint { time, frequency: value }),
    {
        FrequencyBreakpoint { time, frequency: value }
    }
}

} // verus!
