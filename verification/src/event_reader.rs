//! The decisions of the streaming event reader: which breakpoints make up each ramp event,
//! the order in which amplitude and frequency ramps are read out, and how seeking and looped
//! playback move through a clip.
//!
//! The reader works on the clip's breakpoints as they are stored. What needs floating-point
//! arithmetic is left to the caller: an event names the breakpoints that it is made of, a seek
//! point names the two breakpoints to interpolate between, and a ramp that begins a new loop
//! iteration says so, so that the caller can move its time offset on by the loop's duration.

use vstd::prelude::*;
use crate::float_bits::F32Bits;
use crate::float_bits::ZERO_BITS;
use crate::v1::AmplitudeBreakpoint;
use crate::v1::Emphasis;
use crate::v1::Envelopes;
use crate::v1::FrequencyBreakpoint;

verus! {

/// A ramp end point
#[derive(Clone, Copy, Debug)]
pub enum RampPoint<B> {
    /// A breakpoint as it stands
    Exact(B),
    /// The point at `time` on the straight line from `previous` to `next`
    ///
    /// The reader makes such points only with `previous.time < time < next.time` (see
    /// [`seek_points_lie_between_their_breakpoints`]); the caller gets the point with
    /// `interpolate_breakpoints(previous, next, time)`.
    Interpolated { previous: B, next: B, time: F32Bits },
}

/// The state of the amplitude or frequency envelope
#[derive(Clone, Copy, Debug)]
pub enum EnvelopeState<B> {
    /// The envelope hasn't been started yet: the next event is a jump (a zero-duration ramp) to
    /// the breakpoint at `index`
    Start { index: usize },
    /// The envelope is active: the next event is the ramp from the breakpoint at `index` to the
    /// following one
    Active { index: usize },
    /// A seek has been performed: the next event is a jump to `seek_point`
    SeekStart { seek_point: RampPoint<B>, next_index: usize },
    /// The previous event was the seek jump: the next event is the ramp from `seek_point` to the
    /// breakpoint at `next_index`
    SeekRamp { seek_point: RampPoint<B>, next_index: usize },
    /// The envelope is past its end
    Finished,
}

/// An event read from a clip, with the times of the clip itself
#[derive(Clone, Copy, Debug)]
pub enum ReaderEvent {
    /// A ramp of the amplitude envelope from `start` to `end`
    ///
    /// `emphasis` is played at the ramp's start time, and is read out as an event of its own
    /// right after the ramp. `loop_restarted` is true when the ramp begins a new loop iteration.
    AmplitudeRamp {
        start: RampPoint<AmplitudeBreakpoint>,
        end: RampPoint<AmplitudeBreakpoint>,
        emphasis: Option<Emphasis>,
        loop_restarted: bool,
    },
    /// A ramp of the frequency envelope from `start` to `end`
    FrequencyRamp { start: RampPoint<FrequencyBreakpoint>, end: RampPoint<FrequencyBreakpoint> },
}

/// What the next amplitude ramp is made of, before the end of the envelope is handled
#[derive(Clone, Copy, Debug)]
pub enum AmplitudeStep {
    /// A ramp, and the state that follows it
    Ramp {
        start: RampPoint<AmplitudeBreakpoint>,
        end: RampPoint<AmplitudeBreakpoint>,
        next_state: EnvelopeState<AmplitudeBreakpoint>,
        emphasis: Option<Emphasis>,
    },
    /// The active envelope has reached its last breakpoint, `last`
    EndReached { last: AmplitudeBreakpoint },
    /// No event is left
    NoEvent,
}

/// Reads the breakpoints of a clip as a series of ramp events
///
/// Amplitude and frequency breakpoints are read out mixed together in time order. Each
/// breakpoint becomes a ramp: an envelope starts with a jump (a zero-duration ramp) to its first
/// breakpoint, and each following event ramps from one breakpoint to the next. The amplitude
/// envelope ends with a jump to zero amplitude, the frequency envelope with a jump to its last
/// value. When amplitude and frequency events share the same time, the amplitude event comes
/// first.
#[derive(Clone, Debug)]
pub struct EnvelopeReader {
    /// The clip's envelopes
    pub envelopes: Envelopes,
    /// The time of the extra breakpoint that lets an emphasis on the last amplitude breakpoint
    /// play out: the last breakpoint's time plus 0.1 s, as computed by the caller
    pub emphasis_tail_time: F32Bits,
    /// The start time of the loop when looped playback is enabled
    pub loop_start: Option<F32Bits>,
    /// The state of the amplitude envelope
    pub amplitude_state: EnvelopeState<AmplitudeBreakpoint>,
    /// The state of the frequency envelope
    pub frequency_state: EnvelopeState<FrequencyBreakpoint>,
}

/// The times of a sequence of amplitude breakpoints
pub open spec fn amplitude_times(bps: Seq<AmplitudeBreakpoint>) -> Seq<F32Bits> {
    bps.map_values(|bp: AmplitudeBreakpoint| bp.time)
}

/// The times of a sequence of frequency breakpoints
pub open spec fn frequency_times(bps: Seq<FrequencyBreakpoint>) -> Seq<F32Bits> {
    bps.map_values(|bp: FrequencyBreakpoint| bp.time)
}

/// The first index at or after `from` whose time is not before `t` (the length if none is)
///
/// On times sorted in increasing order this is the partition point of `time < t`.
pub open spec fn first_not_before(times: Seq<F32Bits>, t: F32Bits, from: nat) -> nat
    decreases times.len() - from,
{
    if from >= times.len() {
        times.len()
    } else if times[from as int].ieee_lt(t) {
        first_not_before(times, t, from + 1)
    } else {
        from
    }
}

/// The amplitude breakpoint that ends a clip: zero amplitude at `time`
pub open spec fn silence_at(time: F32Bits) -> AmplitudeBreakpoint {
    AmplitudeBreakpoint { time, amplitude: F32Bits { bits: ZERO_BITS }, emphasis: None }
}

/// The loop start that enabling looped playback gives: the first amplitude breakpoint's time,
/// when the amplitude envelope spans a duration greater than zero
///
/// For two `f32` values `first < last` holds exactly when `last - first > 0.0` does.
pub open spec fn loop_start_for(amplitude: Seq<AmplitudeBreakpoint>, enabled: bool) -> Option<
    F32Bits,
> {
    if enabled && amplitude.len() > 0 && amplitude[0].time.ieee_lt(amplitude.last().time) {
        Some(amplitude[0].time)
    } else {
        None
    }
}

/// The time of a frequency ramp point
pub open spec fn frequency_point_time(p: RampPoint<FrequencyBreakpoint>) -> F32Bits {
    match p {
        RampPoint::Exact(bp) => bp.time,
        RampPoint::Interpolated { time, .. } => time,
    }
}

/// Marks an amplitude ramp as the start of a new loop iteration
pub open spec fn restarted(event: Option<ReaderEvent>) -> Option<ReaderEvent> {
    match event {
        Some(ReaderEvent::AmplitudeRamp { start, end, emphasis, .. }) => Some(
            ReaderEvent::AmplitudeRamp { start, end, emphasis, loop_restarted: true },
        ),
        other => other,
    }
}

/// Whether an envelope state is one of the two seek states
pub open spec fn is_seeking<B>(state: EnvelopeState<B>) -> bool {
    state is SeekStart || state is SeekRamp
}

/// The breakpoint index of a `Start` or `Active` state
pub open spec fn state_index<B>(state: EnvelopeState<B>) -> int {
    match state {
        EnvelopeState::Start { index } => index as int,
        EnvelopeState::Active { index } => index as int,
        _ => -1,
    }
}

impl EnvelopeReader {
    /// The amplitude breakpoint at `index`, with the emphasis tail after the last one
    ///
    /// When looping is off and the last breakpoint carries emphasis, one more breakpoint follows
    /// it at the emphasis tail time, holding the last amplitude, so that the emphasis can play
    /// out before the clip ends.
    pub open spec fn amplitude_point(self, index: int) -> Option<AmplitudeBreakpoint> {
        let amp = self.envelopes.amplitude@;
        if self.loop_start is None && index == amp.len() && amp.len() > 0
            && amp.last().emphasis is Some {
            Some(
                AmplitudeBreakpoint {
                    time: self.emphasis_tail_time,
                    amplitude: amp.last().amplitude,
                    emphasis: None,
                },
            )
        } else if 0 <= index < amp.len() {
            Some(amp[index])
        } else {
            None
        }
    }

    /// The frequency breakpoint at `index`
    pub open spec fn frequency_point(self, index: int) -> Option<FrequencyBreakpoint> {
        match self.envelopes.frequency {
            Some(v) => if 0 <= index < v@.len() {
                Some(v@[index])
            } else {
                None
            },
            None => None,
        }
    }

    /// The amplitude envelope's state after a seek to `t`
    pub open spec fn amplitude_seek_state(self, t: F32Bits) -> EnvelopeState<AmplitudeBreakpoint> {
        let n = first_not_before(amplitude_times(self.envelopes.amplitude@), t, 0);
        let next = self.amplitude_point(n as int);
        if next is Some && t.ieee_eq(next->0.time) {
            EnvelopeState::Start { index: n as usize }
        } else if next is Some && t.ieee_lt(next->0.time) {
            if n == 0 {
                EnvelopeState::SeekStart { seek_point: RampPoint::Exact(silence_at(t)), next_index: 0 }
            } else {
                match self.amplitude_point(n - 1) {
                    Some(previous) => EnvelopeState::SeekStart {
                        seek_point: RampPoint::Interpolated { previous, next: next->0, time: t },
                        next_index: n as usize,
                    },
                    None => EnvelopeState::Finished,
                }
            }
        } else if self.loop_start is Some {
            EnvelopeState::Start { index: 0 }
        } else {
            EnvelopeState::Finished
        }
    }

    /// The frequency envelope's state after a seek to `t`
    pub open spec fn frequency_seek_state(self, t: F32Bits) -> EnvelopeState<FrequencyBreakpoint> {
        match self.envelopes.frequency {
            Some(v) => {
                let n = first_not_before(frequency_times(v@), t, 0);
                let next = self.frequency_point(n as int);
                if next is Some && t.ieee_eq(next->0.time) {
                    EnvelopeState::Start { index: n as usize }
                } else if next is Some && t.ieee_lt(next->0.time) {
                    if n == 0 {
                        EnvelopeState::Start { index: 0 }
                    } else {
                        match self.frequency_point(n - 1) {
                            Some(previous) => EnvelopeState::SeekStart {
                                seek_point: RampPoint::Interpolated { previous, next: next->0, time: t },
                                next_index: n as usize,
                            },
                            None => EnvelopeState::Finished,
                        }
                    }
                } else if self.loop_start is Some {
                    EnvelopeState::Start { index: 0 }
                } else {
                    EnvelopeState::Finished
                }
            },
            None => self.frequency_state,
        }
    }

    /// The reader after a seek to `t`
    pub open spec fn seek_spec(self, t: F32Bits) -> EnvelopeReader {
        EnvelopeReader {
            amplitude_state: self.amplitude_seek_state(t),
            frequency_state: self.frequency_seek_state(t),
            ..self
        }
    }

    /// A new reader for `envelopes`, positioned at time zero
    pub open spec fn new_spec(envelopes: Envelopes, emphasis_tail_time: F32Bits) -> EnvelopeReader {
        EnvelopeReader {
            envelopes,
            emphasis_tail_time,
            loop_start: None,
            amplitude_state: EnvelopeState::Finished,
            frequency_state: EnvelopeState::Finished,
        }.seek_spec(F32Bits { bits: ZERO_BITS })
    }

    /// What the next amplitude ramp is made of
    pub open spec fn amplitude_step_spec(self) -> AmplitudeStep {
        match self.amplitude_state {
            EnvelopeState::Start { index } => match self.amplitude_point(index as int) {
                Some(first) => AmplitudeStep::Ramp {
                    start: RampPoint::Exact(first),
                    end: RampPoint::Exact(first),
                    next_state: EnvelopeState::Active { index },
                    emphasis: None,
                },
                None => AmplitudeStep::NoEvent,
            },
            EnvelopeState::Active { index } => {
                match (self.amplitude_point(index as int), self.amplitude_point(index + 1)) {
                    (Some(start), Some(end)) => AmplitudeStep::Ramp {
                        start: RampPoint::Exact(start),
                        end: RampPoint::Exact(end),
                        next_state: EnvelopeState::Active { index: (index + 1) as usize },
                        emphasis: start.emphasis,
                    },
                    (Some(start), None) => AmplitudeStep::EndReached { last: start },
                    _ => AmplitudeStep::NoEvent,
                }
            },
            EnvelopeState::SeekStart { seek_point, next_index } => AmplitudeStep::Ramp {
                start: seek_point,
                end: seek_point,
                next_state: if next_index > 0 {
                    EnvelopeState::SeekRamp { seek_point, next_index }
                } else {
                    EnvelopeState::Start { index: 0 }
                },
                emphasis: None,
            },
            EnvelopeState::SeekRamp { seek_point, next_index } => match self.amplitude_point(
                next_index as int,
            ) {
                Some(end) => AmplitudeStep::Ramp {
                    start: seek_point,
                    end: RampPoint::Exact(end),
                    next_state: EnvelopeState::Active { index: next_index },
                    emphasis: None,
                },
                None => AmplitudeStep::NoEvent,
            },
            EnvelopeState::Finished => AmplitudeStep::NoEvent,
        }
    }

    /// The reader and event after restarting the loop: a seek to the loop's start, then the
    /// amplitude ramp that follows it
    pub open spec fn restart_spec(self) -> (EnvelopeReader, Option<ReaderEvent>) {
        match self.loop_start {
            Some(start_time) => {
                let r = self.seek_spec(start_time);
                match r.amplitude_step_spec() {
                    AmplitudeStep::Ramp { start, end, next_state, emphasis } => (
                        EnvelopeReader { amplitude_state: next_state, ..r },
                        Some(ReaderEvent::AmplitudeRamp { start, end, emphasis, loop_restarted: true }),
                    ),
                    _ => (r, None),
                }
            },
            None => (self, None),
        }
    }

    /// The reader and event after reading the next amplitude ramp
    pub open spec fn next_amplitude_spec(self) -> (EnvelopeReader, Option<ReaderEvent>) {
        match self.amplitude_step_spec() {
            AmplitudeStep::Ramp { start, end, next_state, emphasis } => (
                EnvelopeReader { amplitude_state: next_state, ..self },
                Some(ReaderEvent::AmplitudeRamp { start, end, emphasis, loop_restarted: false }),
            ),
            AmplitudeStep::EndReached { last } => {
                let (r, event) = self.restart_spec();
                if event is Some {
                    (r, event)
                } else {
                    (
                        EnvelopeReader { amplitude_state: EnvelopeState::Finished, ..r },
                        Some(
                            ReaderEvent::AmplitudeRamp {
                                start: RampPoint::Exact(last),
                                end: RampPoint::Exact(silence_at(last.time)),
                                emphasis: None,
                                loop_restarted: false,
                            },
                        ),
                    )
                }
            },
            AmplitudeStep::NoEvent => (self, None),
        }
    }

    /// The next frequency ramp's end points and the state that follows it
    pub open spec fn frequency_step_spec(self) -> Option<
        (RampPoint<FrequencyBreakpoint>, RampPoint<FrequencyBreakpoint>, EnvelopeState<FrequencyBreakpoint>),
    > {
        match self.frequency_state {
            EnvelopeState::Start { index } => match self.frequency_point(index as int) {
                Some(first) => Some(
                    (RampPoint::Exact(first), RampPoint::Exact(first), EnvelopeState::Active { index }),
                ),
                None => None,
            },
            EnvelopeState::Active { index } => {
                match (self.frequency_point(index as int), self.frequency_point(index + 1)) {
                    (Some(start), Some(end)) => Some(
                        (
                            RampPoint::Exact(start),
                            RampPoint::Exact(end),
                            EnvelopeState::Active { index: (index + 1) as usize },
                        ),
                    ),
                    (Some(start), None) => Some(
                        (RampPoint::Exact(start), RampPoint::Exact(start), EnvelopeState::Finished),
                    ),
                    _ => None,
                }
            },
            EnvelopeState::SeekStart { seek_point, next_index } => Some(
                (
                    seek_point,
                    seek_point,
                    if (F32Bits { bits: ZERO_BITS }).ieee_le(frequency_point_time(seek_point)) {
                        EnvelopeState::SeekRamp { seek_point, next_index }
                    } else {
                        EnvelopeState::Start { index: 0 }
                    },
                ),
            ),
            EnvelopeState::SeekRamp { seek_point, next_index } => match self.frequency_point(
                next_index as int,
            ) {
                Some(end) => Some(
                    (seek_point, RampPoint::Exact(end), EnvelopeState::Active { index: next_index }),
                ),
                None => None,
            },
            EnvelopeState::Finished => None,
        }
    }

    /// The reader and event after reading the next frequency ramp
    pub open spec fn next_frequency_spec(self) -> (EnvelopeReader, Option<ReaderEvent>) {
        match self.frequency_step_spec() {
            Some((start, end, next_state)) => (
                EnvelopeReader { frequency_state: next_state, ..self },
                Some(ReaderEvent::FrequencyRamp { start, end }),
            ),
            None => (self, None),
        }
    }

    /// The reader and event after reading the next event of the clip
    pub open spec fn next_event_spec(self) -> (EnvelopeReader, Option<ReaderEvent>) {
        if self.amplitude_state is Finished {
            self.restart_spec()
        } else if is_seeking(self.amplitude_state) {
            self.next_amplitude_spec()
        } else if is_seeking(self.frequency_state) {
            self.next_frequency_spec()
        } else if self.frequency_state is Finished {
            self.next_amplitude_spec()
        } else {
            match (
                self.amplitude_point(state_index(self.amplitude_state)),
                self.frequency_point(state_index(self.frequency_state)),
            ) {
                (Some(amp), Some(freq)) => if amp.time.ieee_le(freq.time) {
                    self.next_amplitude_spec()
                } else {
                    self.next_frequency_spec()
                },
                _ => (self, None),
            }
        }
    }
}

/// The number of leading amplitude breakpoints whose time is before `t`
fn amplitude_seek_index(bps: &Vec<AmplitudeBreakpoint>, t: F32Bits) -> (r: usize)
    ensures
        r == first_not_before(amplitude_times(bps@), t, 0),
{
    let mut i: usize = 0;
    while i < bps.len()
        invariant
            i <= bps.len(),
            first_not_before(amplitude_times(bps@), t, 0) == first_not_before(
                amplitude_times(bps@),
                t,
                i as nat,
            ),
        decreases bps.len() - i,
    {
        if !bps[i].time.less_than(&t) {
            return i;
        }
        i = i + 1;
    }
    i
}

/// The number of leading frequency breakpoints whose time is before `t`
fn frequency_seek_index(bps: &Vec<FrequencyBreakpoint>, t: F32Bits) -> (r: usize)
    ensures
        r == first_not_before(frequency_times(bps@), t, 0),
{
    let mut i: usize = 0;
    while i < bps.len()
        invariant
            i <= bps.len(),
            first_not_before(frequency_times(bps@), t, 0) == first_not_before(
                frequency_times(bps@),
                t,
                i as nat,
            ),
        decreases bps.len() - i,
    {
        if !bps[i].time.less_than(&t) {
            return i;
        }
        i = i + 1;
    }
    i
}

impl EnvelopeReader {
    /// Makes a reader for `envelopes`, positioned at time zero
    ///
    /// `emphasis_tail_time` is the last amplitude breakpoint's time plus 0.1 s.
    pub fn new(envelopes: Envelopes, emphasis_tail_time: F32Bits) -> (r: EnvelopeReader)
        ensures
            r == EnvelopeReader::new_spec(envelopes, emphasis_tail_time),
    {
        let mut r = EnvelopeReader {
            envelopes,
            emphasis_tail_time,
            loop_start: None,
            amplitude_state: EnvelopeState::Finished,
            frequency_state: EnvelopeState::Finished,
        };
        r.seek(F32Bits::zero());
        r
    }

    /// The amplitude breakpoint at `index`, with the emphasis tail after the last one
    pub fn amplitude_breakpoint(&self, index: usize) -> (r: Option<AmplitudeBreakpoint>)
        ensures
            r == self.amplitude_point(index as int),
    {
        let len = self.envelopes.amplitude.len();
        if self.loop_start.is_none() && index == len && len > 0 {
            let last = self.envelopes.amplitude[len - 1];
            if last.emphasis.is_some() {
                return Some(
                    AmplitudeBreakpoint {
                        time: self.emphasis_tail_time,
                        amplitude: last.amplitude,
                        emphasis: None,
                    },
                );
            }
        }
        if index < len {
            Some(self.envelopes.amplitude[index])
        } else {
            None
        }
    }

    /// The frequency breakpoint at `index`
    pub fn frequency_breakpoint(&self, index: usize) -> (r: Option<FrequencyBreakpoint>)
        ensures
            r == self.frequency_point(index as int),
    {
        match &self.envelopes.frequency {
            Some(v) => if index < v.len() {
                Some(v[index])
            } else {
                None
            },
            None => None,
        }
    }

    /// Moves the playback position to `seek_time`
    ///
    /// When no breakpoint lies at the new position, the envelopes continue with an
    /// interpolated point at it; when the position is before the amplitude envelope, with a jump
    /// to zero amplitude; when it is past the end, playback stops, or restarts from the loop's
    /// start when looping is enabled.
    pub fn seek(&mut self, seek_time: F32Bits)
        ensures
            *final(self) == old(self).seek_spec(seek_time),
    {
        let amplitude_state = self.amplitude_seek(seek_time);
        let frequency_state = self.frequency_seek(seek_time);
        self.amplitude_state = amplitude_state;
        self.frequency_state = frequency_state;
    }

    fn amplitude_seek(&self, t: F32Bits) -> (r: EnvelopeState<AmplitudeBreakpoint>)
        ensures
            r == self.amplitude_seek_state(t),
    {
        let n = amplitude_seek_index(&self.envelopes.amplitude, t);
        proof {
            assert(n <= self.envelopes.amplitude.len()) by {
                lemma_first_not_before_bounds(amplitude_times(self.envelopes.amplitude@), t, 0);
            }
        }
        match self.amplitude_breakpoint(n) {
            Some(next) => {
                if t.equals(&next.time) {
                    EnvelopeState::Start { index: n }
                } else if t.less_than(&next.time) {
                    if n == 0 {
                        EnvelopeState::SeekStart {
                            seek_point: RampPoint::Exact(
                                AmplitudeBreakpoint {
                                    time: t,
                                    amplitude: F32Bits::zero(),
                                    emphasis: None,
                                },
                            ),
                            next_index: 0,
                        }
                    } else {
                        match self.amplitude_breakpoint(n - 1) {
                            Some(previous) => EnvelopeState::SeekStart {
                                seek_point: RampPoint::Interpolated { previous, next, time: t },
                                next_index: n,
                            },
                            None => EnvelopeState::Finished,
                        }
                    }
                } else if self.loop_start.is_some() {
                    EnvelopeState::Start { index: 0 }
                } else {
                    EnvelopeState::Finished
                }
            },
            None => if self.loop_start.is_some() {
                EnvelopeState::Start { index: 0 }
            } else {
                EnvelopeState::Finished
            },
        }
    }

    fn frequency_seek(&self, t: F32Bits) -> (r: EnvelopeState<FrequencyBreakpoint>)
        ensures
            r == self.frequency_seek_state(t),
    {
        match &self.envelopes.frequency {
            Some(v) => {
                let n = frequency_seek_index(v, t);
                proof {
                    lemma_first_not_before_bounds(frequency_times(v@), t, 0);
                }
                match self.frequency_breakpoint(n) {
                    Some(next) => {
                        if t.equals(&next.time) {
                            EnvelopeState::Start { index: n }
                        } else if t.less_than(&next.time) {
                            if n == 0 {
                                EnvelopeState::Start { index: 0 }
                            } else {
                                match self.frequency_breakpoint(n - 1) {
                                    Some(previous) => EnvelopeState::SeekStart {
                                        seek_point: RampPoint::Interpolated { previous, next, time: t },
                                        next_index: n,
                                    },
                                    None => EnvelopeState::Finished,
                                }
                            }
                        } else if self.loop_start.is_some() {
                            EnvelopeState::Start { index: 0 }
                        } else {
                            EnvelopeState::Finished
                        }
                    },
                    None => if self.loop_start.is_some() {
                        EnvelopeState::Start { index: 0 }
                    } else {
                        EnvelopeState::Finished
                    },
                }
            },
            None => self.frequency_state,
        }
    }

    /// Enables or disables looped playback
    ///
    /// The loop runs from the first to the last amplitude breakpoint; looping stays disabled
    /// when that span is not greater than zero.
    pub fn set_looping_enabled(&mut self, enabled: bool)
        ensures
            *final(self) == (EnvelopeReader {
                loop_start: loop_start_for(old(self).envelopes.amplitude@, enabled),
                ..*old(self)
            }),
    {
        let len = self.envelopes.amplitude.len();
        let loop_start = if enabled && len > 0 {
            let first = self.envelopes.amplitude[0].time;
            let last = self.envelopes.amplitude[len - 1].time;
            if first.less_than(&last) {
                Some(first)
            } else {
                None
            }
        } else {
            None
        };
        self.loop_start = loop_start;
    }

    /// Returns true when looping is enabled
    pub fn looping_enabled(&self) -> (r: bool)
        ensures
            r == (self.loop_start is Some),
    {
        self.loop_start.is_some()
    }

    /// What the next amplitude ramp is made of
    pub fn amplitude_step(&self) -> (r: AmplitudeStep)
        ensures
            r == self.amplitude_step_spec(),
    {
        match self.amplitude_state {
            EnvelopeState::Start { index } => match self.amplitude_breakpoint(index) {
                Some(first) => AmplitudeStep::Ramp {
                    start: RampPoint::Exact(first),
                    end: RampPoint::Exact(first),
                    next_state: EnvelopeState::Active { index },
                    emphasis: None,
                },
                None => AmplitudeStep::NoEvent,
            },
            EnvelopeState::Active { index } => match self.amplitude_breakpoint(index) {
                Some(start) => {
                    let following = if index < usize::MAX {
                        self.amplitude_breakpoint(index + 1)
                    } else {
                        let len = self.envelopes.amplitude.len();
                        assert(self.amplitude_point(index + 1) is None);
                        None
                    };
                    match following {
                        Some(end) => AmplitudeStep::Ramp {
                            start: RampPoint::Exact(start),
                            end: RampPoint::Exact(end),
                            next_state: EnvelopeState::Active { index: index + 1 },
                            emphasis: start.emphasis,
                        },
                        None => AmplitudeStep::EndReached { last: start },
                    }
                },
                None => AmplitudeStep::NoEvent,
            },
            EnvelopeState::SeekStart { seek_point, next_index } => AmplitudeStep::Ramp {
                start: seek_point,
                end: seek_point,
                next_state: if next_index > 0 {
                    EnvelopeState::SeekRamp { seek_point, next_index }
                } else {
                    EnvelopeState::Start { index: 0 }
                },
                emphasis: None,
            },
            EnvelopeState::SeekRamp { seek_point, next_index } => match self.amplitude_breakpoint(
                next_index,
            ) {
                Some(end) => AmplitudeStep::Ramp {
                    start: seek_point,
                    end: RampPoint::Exact(end),
                    next_state: EnvelopeState::Active { index: next_index },
                    emphasis: None,
                },
                None => AmplitudeStep::NoEvent,
            },
            EnvelopeState::Finished => AmplitudeStep::NoEvent,
        }
    }

    /// Restarts the loop when looping is enabled: seeks to the loop's start and reads the
    /// amplitude ramp that follows
    fn restart_loop(&mut self) -> (r: Option<ReaderEvent>)
        ensures
            (*final(self), r) == old(self).restart_spec(),
    {
        match self.loop_start {
            Some(start_time) => {
                self.seek(start_time);
                match self.amplitude_step() {
                    AmplitudeStep::Ramp { start, end, next_state, emphasis } => {
                        self.amplitude_state = next_state;
                        Some(ReaderEvent::AmplitudeRamp { start, end, emphasis, loop_restarted: true })
                    },
                    _ => None,
                }
            },
            None => None,
        }
    }

    /// Reads the next amplitude ramp
    fn next_amplitude_ramp(&mut self) -> (r: Option<ReaderEvent>)
        ensures
            (*final(self), r) == old(self).next_amplitude_spec(),
    {
        match self.amplitude_step() {
            AmplitudeStep::Ramp { start, end, next_state, emphasis } => {
                self.amplitude_state = next_state;
                Some(ReaderEvent::AmplitudeRamp { start, end, emphasis, loop_restarted: false })
            },
            AmplitudeStep::EndReached { last } => {
                let event = self.restart_loop();
                if event.is_some() {
                    event
                } else {
                    self.amplitude_state = EnvelopeState::Finished;
                    Some(
                        ReaderEvent::AmplitudeRamp {
                            start: RampPoint::Exact(last),
                            end: RampPoint::Exact(
                                AmplitudeBreakpoint {
                                    time: last.time,
                                    amplitude: F32Bits::zero(),
                                    emphasis: None,
                                },
                            ),
                            emphasis: None,
                            loop_restarted: false,
                        },
                    )
                }
            },
            AmplitudeStep::NoEvent => None,
        }
    }

    /// Reads the next frequency ramp
    fn next_frequency_ramp(&mut self) -> (r: Option<ReaderEvent>)
        ensures
            (*final(self), r) == old(self).next_frequency_spec(),
    {
        let step = match self.frequency_state {
            EnvelopeState::Start { index } => match self.frequency_breakpoint(index) {
                Some(first) => Some(
                    (RampPoint::Exact(first), RampPoint::Exact(first), EnvelopeState::Active { index }),
                ),
                None => None,
            },
            EnvelopeState::Active { index } => match self.frequency_breakpoint(index) {
                Some(start) => {
                    let following = if index < usize::MAX {
                        self.frequency_breakpoint(index + 1)
                    } else {
                        let len = match &self.envelopes.frequency {
                            Some(v) => v.len(),
                            None => 0,
                        };
                        assert(self.frequency_point(index + 1) is None);
                        None
                    };
                    match following {
                        Some(end) => Some(
                            (
                                RampPoint::Exact(start),
                                RampPoint::Exact(end),
                                EnvelopeState::Active { index: index + 1 },
                            ),
                        ),
                        None => Some(
                            (RampPoint::Exact(start), RampPoint::Exact(start), EnvelopeState::Finished),
                        ),
                    }
                },
                None => None,
            },
            EnvelopeState::SeekStart { seek_point, next_index } => {
                let time = match seek_point {
                    RampPoint::Exact(bp) => bp.time,
                    RampPoint::Interpolated { time, .. } => time,
                };
                let next_state = if F32Bits::zero().less_or_equal(&time) {
                    EnvelopeState::SeekRamp { seek_point, next_index }
                } else {
                    EnvelopeState::Start { index: 0 }
                };
                Some((seek_point, seek_point, next_state))
            },
            EnvelopeState::SeekRamp { seek_point, next_index } => match self.frequency_breakpoint(
                next_index,
            ) {
                Some(end) => Some(
                    (seek_point, RampPoint::Exact(end), EnvelopeState::Active { index: next_index }),
                ),
                None => None,
            },
            EnvelopeState::Finished => None,
        };
        match step {
            Some((start, end, next_state)) => {
                self.frequency_state = next_state;
                Some(ReaderEvent::FrequencyRamp { start, end })
            },
            None => None,
        }
    }

    /// Reads the next event of the clip
    ///
    /// Once the amplitude envelope has finished, nothing more is read unless looping is
    /// enabled, in which case the loop restarts.
    pub fn next_event(&mut self) -> (r: Option<ReaderEvent>)
        ensures
            (*final(self), r) == old(self).next_event_spec(),
    {
        let amplitude_index: Option<usize> = match self.amplitude_state {
            EnvelopeState::Finished => {
                return self.restart_loop();
            },
            EnvelopeState::SeekStart { .. } | EnvelopeState::SeekRamp { .. } => {
                return self.next_amplitude_ramp();
            },
            EnvelopeState::Start { index } => Some(index),
            EnvelopeState::Active { index } => Some(index),
        };
        let frequency_index: Option<usize> = match self.frequency_state {
            EnvelopeState::SeekStart { .. } | EnvelopeState::SeekRamp { .. } => {
                return self.next_frequency_ramp();
            },
            EnvelopeState::Finished => {
                return self.next_amplitude_ramp();
            },
            EnvelopeState::Start { index } => Some(index),
            EnvelopeState::Active { index } => Some(index),
        };
        match (amplitude_index, frequency_index) {
            (Some(a), Some(f)) => match (self.amplitude_breakpoint(a), self.frequency_breakpoint(f)) {
                (Some(amp), Some(freq)) => if amp.time.less_or_equal(&freq.time) {
                    self.next_amplitude_ramp()
                } else {
                    self.next_frequency_ramp()
                },
                _ => None,
            },
            _ => None,
        }
    }
}

/// The bounds of `first_not_before`: it lies between `from` and the length, every time before
/// it is before `t`, and the time at it is not
pub proof fn lemma_first_not_before_bounds(times: Seq<F32Bits>, t: F32Bits, from: nat)
    requires
        from <= times.len(),
    ensures
        from <= first_not_before(times, t, from) <= times.len(),
        forall|j: int| from <= j < first_not_before(times, t, from) ==> #[trigger] times[j].ieee_lt(t),
        first_not_before(times, t, from) < times.len() ==> !times[first_not_before(times, t, from) as int].ieee_lt(t),
    decreases times.len() - from,
{
    if from < times.len() && times[from as int].ieee_lt(t) {
        lemma_first_not_before_bounds(times, t, from + 1);
    }
}


/// `first_not_before` is `i` when every time from `from` up to `i` is before `t` and the time at
/// `i` is not
pub proof fn lemma_first_not_before_is(times: Seq<F32Bits>, t: F32Bits, from: nat, i: nat)
    requires
        from <= i <= times.len(),
        forall|j: int| from <= j < i ==> #[trigger] times[j].ieee_lt(t),
        i < times.len() ==> !times[i as int].ieee_lt(t),
    ensures
        first_not_before(times, t, from) == i,
    decreases i - from,
{
    if from < i {
        lemma_first_not_before_is(times, t, from + 1, i);
    }
}

/// The reader after `k` events have been read
pub open spec fn advance(r: EnvelopeReader, k: nat) -> EnvelopeReader
    decreases k,
{
    if k == 0 {
        r
    } else {
        advance(r, (k - 1) as nat).next_event_spec().0
    }
}

/// The event that is read after `k` earlier events
pub open spec fn event_at(r: EnvelopeReader, k: nat) -> Option<ReaderEvent> {
    advance(r, k).next_event_spec().1
}

/// An amplitude ramp that does not start a loop iteration
pub open spec fn amplitude_ramp(
    start: AmplitudeBreakpoint,
    end: AmplitudeBreakpoint,
    emphasis: Option<Emphasis>,
) -> Option<ReaderEvent> {
    Some(
        ReaderEvent::AmplitudeRamp {
            start: RampPoint::Exact(start),
            end: RampPoint::Exact(end),
            emphasis,
            loop_restarted: false,
        },
    )
}

proof fn lemma_amplitude_only_advance(r: EnvelopeReader, k: nat)
    requires
        r.envelopes.amplitude.len() > 0,
        r.envelopes.frequency is None,
        r.frequency_state is Finished,
        r.loop_start is None,
        r.amplitude_state == (EnvelopeState::<AmplitudeBreakpoint>::Start { index: 0 }),
        r.envelopes.amplitude@.last().emphasis is None,
        1 <= k <= r.envelopes.amplitude.len(),
    ensures
        advance(r, k) == (EnvelopeReader {
            amplitude_state: EnvelopeState::Active { index: (k - 1) as usize },
            ..r
        }),
    decreases k,
{
    assert(advance(r, k) == advance(r, (k - 1) as nat).next_event_spec().0);
    if k > 1 {
        lemma_amplitude_only_advance(r, (k - 1) as nat);
    } else {
        assert(advance(r, 0) == r);
    }
}

/// An amplitude envelope `b[0], ..., b[n-1]`, read from its start without looping, gives a
/// jump to `b[0]`, then a ramp from each breakpoint to the next (carrying the emphasis of the
/// breakpoint it starts from), then a jump to zero amplitude at the last breakpoint's time, and
/// then nothing more
pub proof fn amplitude_envelope_reads_as_consecutive_ramps(r: EnvelopeReader)
    requires
        r.envelopes.amplitude.len() > 0,
        r.envelopes.frequency is None,
        r.frequency_state is Finished,
        r.loop_start is None,
        r.amplitude_state == (EnvelopeState::<AmplitudeBreakpoint>::Start { index: 0 }),
        r.envelopes.amplitude@.last().emphasis is None,
    ensures
        ({
            let amp = r.envelopes.amplitude@;
            let n = amp.len();
            &&& event_at(r, 0) == amplitude_ramp(amp[0], amp[0], None)
            &&& forall|k: nat|
                1 <= k < n ==> #[trigger] event_at(r, k) == amplitude_ramp(
                    amp[k - 1],
                    amp[k as int],
                    amp[k - 1].emphasis,
                )
            &&& event_at(r, n) == amplitude_ramp(amp[n - 1], silence_at(amp[n - 1].time), None)
            &&& event_at(r, n + 1) is None
        }),
{
    let amp = r.envelopes.amplitude@;
    let n = amp.len();
    assert forall|k: nat| 1 <= k < n implies #[trigger] event_at(r, k) == amplitude_ramp(
        amp[k - 1],
        amp[k as int],
        amp[k - 1].emphasis,
    ) by {
        lemma_amplitude_only_advance(r, k);
    }
    lemma_amplitude_only_advance(r, n);
    assert(advance(r, n + 1) == (EnvelopeReader {
        amplitude_state: EnvelopeState::Finished,
        ..r
    }));
}

/// When the next amplitude and frequency breakpoints share the same time, the amplitude event
/// is read first
pub proof fn amplitude_is_read_first_at_equal_times(r: EnvelopeReader)
    requires
        r.amplitude_state is Start || r.amplitude_state is Active,
        r.frequency_state is Start || r.frequency_state is Active,
        r.amplitude_point(state_index(r.amplitude_state)) is Some,
        r.frequency_point(state_index(r.frequency_state)) is Some,
        r.amplitude_point(state_index(r.amplitude_state))->0.time.ieee_eq(
            r.frequency_point(state_index(r.frequency_state))->0.time,
        ),
    ensures
        r.next_event_spec().1 matches Some(ReaderEvent::AmplitudeRamp { .. }),
{
}

/// A seek only makes interpolated points that lie strictly between the two breakpoints they are
/// interpolated from (a seek leaves a missing frequency envelope's state as it was)
pub proof fn seek_points_lie_between_their_breakpoints(r: EnvelopeReader, t: F32Bits)
    ensures
        r.amplitude_seek_state(t) matches EnvelopeState::SeekStart {
            seek_point: RampPoint::Interpolated { previous, next, time },
            ..
        } ==> previous.time.ieee_lt(time) && time.ieee_lt(next.time),
        r.envelopes.frequency is Some ==> (r.frequency_seek_state(t) matches EnvelopeState::SeekStart {
            seek_point: RampPoint::Interpolated { previous, next, time },
            ..
        } ==> previous.time.ieee_lt(time) && time.ieee_lt(next.time)),
{
    let amp_times = amplitude_times(r.envelopes.amplitude@);
    lemma_first_not_before_bounds(amp_times, t, 0);
    let n = first_not_before(amp_times, t, 0);
    if n > 0 {
        assert(amp_times[n - 1].ieee_lt(t));
    }
    if let Some(v) = r.envelopes.frequency {
        let freq_times = frequency_times(v@);
        lemma_first_not_before_bounds(freq_times, t, 0);
        let m = first_not_before(freq_times, t, 0);
        if m > 0 {
            assert(freq_times[m - 1].ieee_lt(t));
        }
    }
}

/// Seeking to the time of an amplitude breakpoint, on an envelope whose earlier breakpoints come
/// before it, starts the amplitude envelope at that breakpoint, so that no event at that time is
/// skipped
pub proof fn seek_to_a_breakpoint_starts_there(r: EnvelopeReader, i: int)
    requires
        0 <= i < r.envelopes.amplitude.len(),
        !r.envelopes.amplitude@[i].time.nan(),
        forall|j: int|
            0 <= j < i ==> #[trigger] r.envelopes.amplitude@[j].time.ieee_lt(
                r.envelopes.amplitude@[i].time,
            ),
    ensures
        r.seek_spec(r.envelopes.amplitude@[i].time).amplitude_state == (EnvelopeState::<
            AmplitudeBreakpoint,
        >::Start { index: i as usize }),
{
    let amp = r.envelopes.amplitude@;
    let t = amp[i].time;
    let times = amplitude_times(amp);
    assert forall|j: int| 0 <= j < i implies #[trigger] times[j].ieee_lt(t) by {
        assert(amp[j].time.ieee_lt(t));
    }
    lemma_first_not_before_is(times, t, 0, i as nat);
}

/// Seeking to a time before the first amplitude breakpoint (such as a negative time) reads out
/// a jump to zero amplitude at the seek time
pub proof fn seek_before_the_envelope_jumps_to_silence(r: EnvelopeReader, t: F32Bits)
    requires
        r.envelopes.amplitude.len() > 0,
        t.ieee_lt(r.envelopes.amplitude@[0].time),
    ensures
        r.seek_spec(t).next_event_spec().1 == Some(
            ReaderEvent::AmplitudeRamp {
                start: RampPoint::Exact(silence_at(t)),
                end: RampPoint::Exact(silence_at(t)),
                emphasis: None,
                loop_restarted: false,
            },
        ),
{
    let times = amplitude_times(r.envelopes.amplitude@);
    lemma_first_not_before_is(times, t, 0, 0);
}

/// Seeking past the end of the amplitude envelope stops playback, or, when looping is enabled,
/// jumps to the start of the loop
pub proof fn seek_past_the_end_stops_or_restarts(r: EnvelopeReader, t: F32Bits)
    requires
        forall|j: int|
            0 <= j < r.envelopes.amplitude.len() ==> #[trigger] r.envelopes.amplitude@[j].time.ieee_lt(t),
        r.amplitude_point(r.envelopes.amplitude.len() as int) is Some ==> r.emphasis_tail_time.ieee_lt(t),
    ensures
        r.loop_start is None ==> r.seek_spec(t).next_event_spec().1 is None,
        r.loop_start is Some ==> r.seek_spec(t).amplitude_state == (EnvelopeState::<
            AmplitudeBreakpoint,
        >::Start { index: 0 }),
{
    let amp = r.envelopes.amplitude@;
    let times = amplitude_times(amp);
    assert forall|j: int| 0 <= j < amp.len() implies #[trigger] times[j].ieee_lt(t) by {
        assert(amp[j].time.ieee_lt(t));
    }
    lemma_first_not_before_is(times, t, 0, amp.len());
}

/// Enabling looping once the amplitude envelope has finished restarts it from the beginning of
/// the loop
pub proof fn enabling_looping_at_the_end_restarts(r: EnvelopeReader)
    requires
        r.amplitude_state is Finished,
        r.envelopes.amplitude.len() > 0,
        r.envelopes.amplitude@[0].time.ieee_lt(r.envelopes.amplitude@.last().time),
    ensures
        (EnvelopeReader {
            loop_start: loop_start_for(r.envelopes.amplitude@, true),
            ..r
        }).next_event_spec().1 == Some(
            ReaderEvent::AmplitudeRamp {
                start: RampPoint::Exact(r.envelopes.amplitude@[0]),
                end: RampPoint::Exact(r.envelopes.amplitude@[0]),
                emphasis: None,
                loop_restarted: true,
            },
        ),
{
    let amp = r.envelopes.amplitude@;
    let times = amplitude_times(amp);
    lemma_first_not_before_is(times, amp[0].time, 0, 0);
}


/// The last breakpoint of the frequency envelope is read out as a jump (a zero-duration ramp)
/// to its own value, after which the frequency envelope is finished
pub proof fn frequency_envelope_ends_with_a_jump_to_its_last_value(r: EnvelopeReader, i: usize)
    requires
        r.frequency_state == (EnvelopeState::<FrequencyBreakpoint>::Active { index: i }),
        r.envelopes.frequency matches Some(v) && i + 1 == v@.len(),
    ensures
        ({
            let last = r.envelopes.frequency->0@[i as int];
            let (after, event) = r.next_frequency_spec();
            &&& event == Some(
                ReaderEvent::FrequencyRamp {
                    start: RampPoint::Exact(last),
                    end: RampPoint::Exact(last),
                },
            )
            &&& after.frequency_state is Finished
        }),
{
}

/// With looping enabled, reading past the last amplitude breakpoint restarts the loop: the next
/// event is a jump to the first breakpoint that begins a new loop iteration
pub proof fn looping_restarts_after_the_last_breakpoint(r: EnvelopeReader)
    requires
        r.envelopes.amplitude.len() >= 2,
        r.loop_start == loop_start_for(r.envelopes.amplitude@, true),
        r.loop_start is Some,
        r.amplitude_state == (EnvelopeState::<AmplitudeBreakpoint>::Active {
            index: (r.envelopes.amplitude.len() - 1) as usize,
        }),
        r.frequency_state is Finished,
    ensures
        r.next_event_spec().1 == Some(
            ReaderEvent::AmplitudeRamp {
                start: RampPoint::Exact(r.envelopes.amplitude@[0]),
                end: RampPoint::Exact(r.envelopes.amplitude@[0]),
                emphasis: None,
                loop_restarted: true,
            },
        ),
{
    let amp = r.envelopes.amplitude@;
    lemma_first_not_before_is(amplitude_times(amp), amp[0].time, 0, 0);
}


// Reading a clip from its start, as two event streams merged in time order.

/// The number of amplitude breakpoints that a reader without looping reads, the emphasis tail
/// included
pub open spec fn amplitude_count(r: EnvelopeReader) -> nat {
    let len = r.envelopes.amplitude@.len();
    if r.amplitude_point(len as int) is Some {
        len + 1
    } else {
        len
    }
}

/// The number of frequency breakpoints
pub open spec fn frequency_count(r: EnvelopeReader) -> nat {
    match r.envelopes.frequency {
        Some(v) => v@.len(),
        None => 0,
    }
}

/// The number of events in the frequency stream: a jump to the first breakpoint, a ramp to each
/// following one, and a final jump holding the last value (none without breakpoints)
pub open spec fn frequency_stream_len(r: EnvelopeReader) -> nat {
    if frequency_count(r) == 0 {
        0
    } else {
        frequency_count(r) + 1
    }
}

/// The breakpoint whose time is the time of the `k`-th event of an envelope's stream
pub open spec fn key_index(k: nat) -> int {
    if k == 0 {
        0
    } else {
        k - 1
    }
}

/// The `k`-th event of the amplitude stream, `k` in `0..=amplitude_count(r)`: a jump to the
/// first breakpoint, then a ramp from each breakpoint to the next carrying the emphasis of the
/// breakpoint it starts from, then a jump to zero amplitude at the last breakpoint's time
pub open spec fn amplitude_event(r: EnvelopeReader, k: nat) -> ReaderEvent {
    let n = amplitude_count(r);
    if k == 0 {
        let first = r.amplitude_point(0)->0;
        ReaderEvent::AmplitudeRamp {
            start: RampPoint::Exact(first),
            end: RampPoint::Exact(first),
            emphasis: None,
            loop_restarted: false,
        }
    } else if k < n {
        let start = r.amplitude_point(k - 1)->0;
        ReaderEvent::AmplitudeRamp {
            start: RampPoint::Exact(start),
            end: RampPoint::Exact(r.amplitude_point(k as int)->0),
            emphasis: start.emphasis,
            loop_restarted: false,
        }
    } else {
        let last = r.amplitude_point(n - 1)->0;
        ReaderEvent::AmplitudeRamp {
            start: RampPoint::Exact(last),
            end: RampPoint::Exact(silence_at(last.time)),
            emphasis: None,
            loop_restarted: false,
        }
    }
}

/// The `j`-th event of the frequency stream, `j` in `0..frequency_stream_len(r)`: a jump to the
/// first breakpoint, then a ramp from each breakpoint to the next, then a jump to the last value
pub open spec fn frequency_event(r: EnvelopeReader, j: nat) -> ReaderEvent {
    let m = frequency_count(r);
    if j == 0 {
        let first = r.frequency_point(0)->0;
        ReaderEvent::FrequencyRamp { start: RampPoint::Exact(first), end: RampPoint::Exact(first) }
    } else if j < m {
        ReaderEvent::FrequencyRamp {
            start: RampPoint::Exact(r.frequency_point(j - 1)->0),
            end: RampPoint::Exact(r.frequency_point(j as int)->0),
        }
    } else {
        let last = r.frequency_point(m - 1)->0;
        ReaderEvent::FrequencyRamp { start: RampPoint::Exact(last), end: RampPoint::Exact(last) }
    }
}

/// The time of the `k`-th event of the amplitude stream
pub open spec fn amplitude_key(r: EnvelopeReader, k: nat) -> F32Bits {
    r.amplitude_point(key_index(k))->0.time
}

/// The time of the `j`-th event of the frequency stream
pub open spec fn frequency_key(r: EnvelopeReader, j: nat) -> F32Bits {
    r.frequency_point(key_index(j))->0.time
}

/// Whether the amplitude stream's next event comes before the frequency stream's: it does when
/// the frequency stream is done, and at equal times
pub open spec fn amplitude_goes_first(r: EnvelopeReader, k: nat, j: nat) -> bool {
    j >= frequency_stream_len(r) || amplitude_key(r, k).ieee_le(frequency_key(r, j))
}

/// How many events of each stream have been read after `s` events: the streams are merged, taking
/// the amplitude stream's next event when it goes first, and reading stops once the amplitude
/// stream is done
pub open spec fn reading_position(r: EnvelopeReader, s: nat) -> (nat, nat)
    decreases s,
{
    if s == 0 {
        (0, 0)
    } else {
        let (k, j) = reading_position(r, (s - 1) as nat);
        if k > amplitude_count(r) {
            (k, j)
        } else if amplitude_goes_first(r, k, j) {
            (k + 1, j)
        } else {
            (k, j + 1)
        }
    }
}

/// The event read after `s` events in the merged model
pub open spec fn merged_event(r: EnvelopeReader, s: nat) -> Option<ReaderEvent> {
    let (k, j) = reading_position(r, s);
    if k > amplitude_count(r) {
        None
    } else if amplitude_goes_first(r, k, j) {
        Some(amplitude_event(r, k))
    } else {
        Some(frequency_event(r, j))
    }
}

/// The amplitude state after `k` events of the amplitude stream
pub open spec fn amplitude_state_at(k: nat, n: nat) -> EnvelopeState<AmplitudeBreakpoint> {
    if k == 0 {
        EnvelopeState::Start { index: 0 }
    } else if k <= n {
        EnvelopeState::Active { index: (k - 1) as usize }
    } else {
        EnvelopeState::Finished
    }
}

/// The frequency state after `j` events of the frequency stream
pub open spec fn frequency_state_at(j: nat, len: nat) -> EnvelopeState<FrequencyBreakpoint> {
    if j >= len {
        EnvelopeState::Finished
    } else if j == 0 {
        EnvelopeState::Start { index: 0 }
    } else {
        EnvelopeState::Active { index: (j - 1) as usize }
    }
}

/// The reader after `k` amplitude and `j` frequency events have been read from its start
pub open spec fn reader_at(r: EnvelopeReader, k: nat, j: nat) -> EnvelopeReader {
    EnvelopeReader {
        amplitude_state: amplitude_state_at(k, amplitude_count(r)),
        frequency_state: frequency_state_at(j, frequency_stream_len(r)),
        ..r
    }
}

/// A reader at the start of a clip, without looping
pub open spec fn at_clip_start(r: EnvelopeReader) -> bool {
    &&& r.loop_start is None
    &&& r.envelopes.amplitude@.len() > 0
    &&& r.amplitude_state == (EnvelopeState::<AmplitudeBreakpoint>::Start { index: 0 })
    &&& r.frequency_state == frequency_state_at(0, frequency_stream_len(r))
}

proof fn lemma_points(r: EnvelopeReader)
    requires
        r.loop_start is None,
    ensures
        forall|i: int| #[trigger] r.amplitude_point(i) is Some <==> 0 <= i < amplitude_count(r),
        forall|i: int| #[trigger] r.frequency_point(i) is Some <==> 0 <= i < frequency_count(r),
{
}

proof fn lemma_merge_step(r: EnvelopeReader, k: nat, j: nat)
    requires
        at_clip_start(r),
        k <= amplitude_count(r) + 1,
        j <= frequency_stream_len(r),
    ensures
        ({
            let n = amplitude_count(r);
            let (after, event) = reader_at(r, k, j).next_event_spec();
            if k > n {
                after == reader_at(r, k, j) && event is None
            } else if amplitude_goes_first(r, k, j) {
                after == reader_at(r, k + 1, j) && event == Some(amplitude_event(r, k))
            } else {
                after == reader_at(r, k, j + 1) && event == Some(frequency_event(r, j))
            }
        }),
{
    lemma_points(r);
    let n = amplitude_count(r);
    let lf = frequency_stream_len(r);
    let x = reader_at(r, k, j);
    assert(r.envelopes.amplitude@.len() == r.envelopes.amplitude.len());
    if let Some(v) = r.envelopes.frequency {
        assert(v@.len() == v.len());
    }
    assert(forall|i: int| #[trigger] x.amplitude_point(i) == r.amplitude_point(i));
    assert(forall|i: int| #[trigger] x.frequency_point(i) == r.frequency_point(i));
    if k <= n {
        let (a_after, a_event) = x.next_amplitude_spec();
        if k == 0 {
            assert(x.amplitude_step_spec() == (AmplitudeStep::Ramp {
                start: RampPoint::Exact(r.amplitude_point(0)->0),
                end: RampPoint::Exact(r.amplitude_point(0)->0),
                next_state: EnvelopeState::Active { index: 0 },
                emphasis: None,
            }));
            assert(a_after == reader_at(r, k + 1, j));
        } else if k < n {
            assert(x.amplitude_state == (EnvelopeState::<AmplitudeBreakpoint>::Active {
                index: (k - 1) as usize,
            }));
            assert(x.amplitude_point(k - 1) is Some);
            assert(x.amplitude_point(k as int) is Some);
            assert(a_after == reader_at(r, k + 1, j));
        } else {
            assert(x.amplitude_state == (EnvelopeState::<AmplitudeBreakpoint>::Active {
                index: (k - 1) as usize,
            }));
            assert(x.amplitude_point(k - 1) is Some);
            assert(x.amplitude_point(k as int) is None);
            assert(x.amplitude_step_spec() == (AmplitudeStep::EndReached {
                last: r.amplitude_point(n - 1)->0,
            }));
            assert(a_after == reader_at(r, k + 1, j));
        }
        assert(a_event == Some(amplitude_event(r, k)));
        if !amplitude_goes_first(r, k, j) {
            let (f_after, f_event) = x.next_frequency_spec();
            if j == 0 {
                assert(f_after == reader_at(r, k, j + 1));
            } else if j < frequency_count(r) {
                assert(x.frequency_point(j - 1) is Some);
                assert(x.frequency_point(j as int) is Some);
                assert(f_after == reader_at(r, k, j + 1));
            } else {
                assert(x.frequency_point(j - 1) is Some);
                assert(x.frequency_point(j as int) is None);
                assert(f_after == reader_at(r, k, j + 1));
            }
            assert(f_event == Some(frequency_event(r, j)));
        }
    }
}


proof fn lemma_position_bounds(r: EnvelopeReader, s: nat)
    requires
        at_clip_start(r),
    ensures
        ({
            let (k, j) = reading_position(r, s);
            &&& k <= amplitude_count(r) + 1
            &&& j <= frequency_stream_len(r)
            &&& (k == amplitude_count(r) + 1 || k + j == s)
        }),
    decreases s,
{
    if s > 0 {
        lemma_position_bounds(r, (s - 1) as nat);
    }
}

/// A clip read from its start, without looping, is the merge of its amplitude stream and its
/// frequency stream: after `s` events, `k` amplitude and `j` frequency events have been read, and
/// the next event is the next of the stream that goes first (the amplitude stream at equal
/// times), until the amplitude stream is done and reading stops
pub proof fn clips_are_read_as_merged_streams(r: EnvelopeReader, s: nat)
    requires
        at_clip_start(r),
    ensures
        advance(r, s) == reader_at(r, reading_position(r, s).0, reading_position(r, s).1),
        event_at(r, s) == merged_event(r, s),
    decreases s,
{
    if s == 0 {
        assert(reader_at(r, 0, 0) == r);
    } else {
        clips_are_read_as_merged_streams(r, (s - 1) as nat);
        lemma_position_bounds(r, (s - 1) as nat);
        let (k, j) = reading_position(r, (s - 1) as nat);
        lemma_merge_step(r, k, j);
    }
    lemma_position_bounds(r, s);
    let (k, j) = reading_position(r, s);
    lemma_merge_step(r, k, j);
}

/// The events read in the first `s` calls
pub open spec fn read_events(r: EnvelopeReader, s: nat) -> Seq<ReaderEvent>
    decreases s,
{
    if s == 0 {
        Seq::empty()
    } else {
        let before = read_events(r, (s - 1) as nat);
        match event_at(r, (s - 1) as nat) {
            Some(e) => before.push(e),
            None => before,
        }
    }
}

/// The amplitude events among `events`, in order
pub open spec fn amplitude_events(events: Seq<ReaderEvent>) -> Seq<ReaderEvent> {
    events.filter(|e: ReaderEvent| e is AmplitudeRamp)
}

/// The frequency events among `events`, in order
pub open spec fn frequency_events(events: Seq<ReaderEvent>) -> Seq<ReaderEvent> {
    events.filter(|e: ReaderEvent| e is FrequencyRamp)
}

/// The whole amplitude stream
pub open spec fn amplitude_stream(r: EnvelopeReader) -> Seq<ReaderEvent> {
    Seq::new(amplitude_count(r) + 1, |k: int| amplitude_event(r, k as nat))
}

/// The whole frequency stream
pub open spec fn frequency_stream(r: EnvelopeReader) -> Seq<ReaderEvent> {
    Seq::new(frequency_stream_len(r), |j: int| frequency_event(r, j as nat))
}

proof fn lemma_stream_prefixes(r: EnvelopeReader, s: nat)
    requires
        at_clip_start(r),
    ensures
        amplitude_events(read_events(r, s)) == amplitude_stream(r).take(
            reading_position(r, s).0 as int,
        ),
        frequency_events(read_events(r, s)) == frequency_stream(r).take(
            reading_position(r, s).1 as int,
        ),
    decreases s,
{
    reveal_with_fuel(Seq::filter, 1);
    if s == 0 {
        assert(amplitude_stream(r).take(0) =~= Seq::<ReaderEvent>::empty());
        assert(frequency_stream(r).take(0) =~= Seq::<ReaderEvent>::empty());
        assert(amplitude_events(read_events(r, 0)) =~= Seq::<ReaderEvent>::empty());
        assert(frequency_events(read_events(r, 0)) =~= Seq::<ReaderEvent>::empty());
    } else {
        let p = (s - 1) as nat;
        lemma_stream_prefixes(r, p);
        lemma_position_bounds(r, p);
        clips_are_read_as_merged_streams(r, p);
        let (k, j) = reading_position(r, p);
        let before = read_events(r, p);
        match event_at(r, p) {
            Some(e) => {
                assert(before.push(e).drop_last() =~= before);
                if amplitude_goes_first(r, k, j) {
                    assert(amplitude_stream(r).take(k + 1 as int) =~= amplitude_stream(r).take(
                        k as int,
                    ).push(e));
                } else {
                    assert(frequency_stream(r).take(j + 1 as int) =~= frequency_stream(r).take(
                        j as int,
                    ).push(e));
                }
            },
            None => {},
        }
    }
}

/// Reading from the start of a clip without looping reads the whole amplitude stream, and the
/// frequency stream up to where the amplitude stream ends; after `amplitude_count + 1` amplitude
/// events and at most `frequency_stream_len` frequency events nothing more is read
pub proof fn reading_covers_the_amplitude_stream(r: EnvelopeReader)
    requires
        at_clip_start(r),
    ensures
        ({
            let t = amplitude_count(r) + frequency_stream_len(r) + 1;
            &&& reading_position(r, t).0 == amplitude_count(r) + 1
            &&& amplitude_events(read_events(r, t)) == amplitude_stream(r)
            &&& frequency_events(read_events(r, t)) == frequency_stream(r).take(
                reading_position(r, t).1 as int,
            )
            &&& forall|s: nat| s >= t ==> #[trigger] event_at(r, s) is None
        }),
{
    let t = amplitude_count(r) + frequency_stream_len(r) + 1;
    lemma_position_bounds(r, t);
    lemma_stream_prefixes(r, t);
    assert(amplitude_stream(r).take((amplitude_count(r) + 1) as int) =~= amplitude_stream(r));
    assert forall|s: nat| s >= t implies #[trigger] event_at(r, s) is None by {
        lemma_position_bounds(r, s);
        clips_are_read_as_merged_streams(r, s);
    }
}


/// The breakpoint times of both envelopes are ascending (and so not NaN), the emphasis tail
/// included
pub open spec fn times_ascending(r: EnvelopeReader) -> bool {
    &&& forall|i: int, i2: int|
        #![trigger r.amplitude_point(i), r.amplitude_point(i2)]
        0 <= i <= i2 < amplitude_count(r) ==> r.amplitude_point(i)->0.time.ieee_le(
            r.amplitude_point(i2)->0.time,
        )
    &&& forall|j: int, j2: int|
        #![trigger r.frequency_point(j), r.frequency_point(j2)]
        0 <= j <= j2 < frequency_count(r) ==> r.frequency_point(j)->0.time.ieee_le(
            r.frequency_point(j2)->0.time,
        )
}

/// The time at which an event starts, in the clip's own time
pub open spec fn event_time(e: ReaderEvent) -> F32Bits {
    match e {
        ReaderEvent::AmplitudeRamp { start, .. } => match start {
            RampPoint::Exact(bp) => bp.time,
            RampPoint::Interpolated { time, .. } => time,
        },
        ReaderEvent::FrequencyRamp { start, .. } => frequency_point_time(start),
    }
}

proof fn lemma_keys_ascend(r: EnvelopeReader)
    requires
        at_clip_start(r),
        times_ascending(r),
    ensures
        forall|k: nat, k2: nat|
            #![trigger amplitude_key(r, k), amplitude_key(r, k2)]
            k <= k2 <= amplitude_count(r) ==> amplitude_key(r, k).ieee_le(amplitude_key(r, k2)),
        forall|j: nat, j2: nat|
            #![trigger frequency_key(r, j), frequency_key(r, j2)]
            j <= j2 < frequency_stream_len(r) ==> frequency_key(r, j).ieee_le(frequency_key(r, j2)),
        forall|k: nat| k <= amplitude_count(r) ==> event_time(#[trigger] amplitude_event(r, k)) == amplitude_key(r, k),
        forall|j: nat| j < frequency_stream_len(r) ==> event_time(#[trigger] frequency_event(r, j)) == frequency_key(r, j),
{
    lemma_points(r);
    assert forall|k: nat, k2: nat|
        #![trigger amplitude_key(r, k), amplitude_key(r, k2)]
        k <= k2 <= amplitude_count(r) implies amplitude_key(r, k).ieee_le(amplitude_key(r, k2)) by {
        let a = key_index(k);
        let b = key_index(k2);
        assert(r.amplitude_point(a) is Some && r.amplitude_point(b) is Some);
    }
    assert forall|j: nat, j2: nat|
        #![trigger frequency_key(r, j), frequency_key(r, j2)]
        j <= j2 < frequency_stream_len(r) implies frequency_key(r, j).ieee_le(frequency_key(r, j2)) by {
        let a = key_index(j);
        let b = key_index(j2);
        assert(r.frequency_point(a) is Some && r.frequency_point(b) is Some);
    }
}

/// On a clip whose breakpoint times ascend, read from its start without looping, events are read
/// in time order: each event starts no earlier than the one before it
pub proof fn events_are_read_in_time_order(r: EnvelopeReader, s: nat)
    requires
        at_clip_start(r),
        times_ascending(r),
        event_at(r, s) is Some,
        event_at(r, s + 1) is Some,
    ensures
        event_time(event_at(r, s)->0).ieee_le(event_time(event_at(r, s + 1)->0)),
{
    lemma_keys_ascend(r);
    lemma_position_bounds(r, s);
    clips_are_read_as_merged_streams(r, s);
    clips_are_read_as_merged_streams(r, s + 1);
    let (k, j) = reading_position(r, s);
    assert(reading_position(r, s + 1) == (if amplitude_goes_first(r, k, j) {
        (k + 1, j)
    } else {
        (k, j + 1)
    }));
    if amplitude_goes_first(r, k, j) {
        if amplitude_goes_first(r, k + 1, j) {
            assert(amplitude_key(r, k).ieee_le(amplitude_key(r, k + 1)));
        }
    } else {
        assert(frequency_key(r, j).ieee_lt(amplitude_key(r, k)));
        if !amplitude_goes_first(r, k, j + 1) {
            assert(frequency_key(r, j).ieee_le(frequency_key(r, j + 1)));
        }
    }
}

/// `k`, but at most `n`
pub open spec fn capped(k: nat, n: nat) -> nat {
    if k <= n {
        k
    } else {
        n
    }
}

proof fn lemma_frequency_before_amplitude(r: EnvelopeReader, s: nat)
    requires
        at_clip_start(r),
        times_ascending(r),
    ensures
        forall|j2: nat|
            j2 < reading_position(r, s).1 ==> (#[trigger] frequency_key(r, j2)).ieee_lt(
                amplitude_key(r, capped(reading_position(r, s).0, amplitude_count(r))),
            ),
        (reading_position(r, s).0 > amplitude_count(r) && reading_position(r, s).1
            < frequency_stream_len(r)) ==> amplitude_key(r, amplitude_count(r)).ieee_le(
            frequency_key(r, reading_position(r, s).1),
        ),
    decreases s,
{
    lemma_keys_ascend(r);
    lemma_position_bounds(r, s);
    if s > 0 {
        let p = (s - 1) as nat;
        lemma_frequency_before_amplitude(r, p);
        lemma_position_bounds(r, p);
        let (k, j) = reading_position(r, p);
        let n = amplitude_count(r);
        let kk = capped(k, n);
        assert(forall|j2: nat| j2 < j ==> (#[trigger] frequency_key(r, j2)).ieee_lt(
            amplitude_key(r, kk),
        ));
        if k <= n {
            if amplitude_goes_first(r, k, j) {
                assert(reading_position(r, s) == (k + 1, j));
                let k1 = if k + 1 <= n { k + 1 } else { n };
                assert(amplitude_key(r, k).ieee_le(amplitude_key(r, k1)));
                assert forall|j2: nat| j2 < j implies (#[trigger] frequency_key(r, j2)).ieee_lt(
                    amplitude_key(r, k1),
                ) by {
                    assert(frequency_key(r, j2).ieee_lt(amplitude_key(r, k)));
                }
                if k + 1 > n && j < frequency_stream_len(r) {
                    assert(k == n);
                    assert(amplitude_key(r, n).ieee_le(frequency_key(r, j)));
                }
            } else {
                assert(reading_position(r, s) == (k, j + 1));
                assert(frequency_key(r, j).ieee_lt(amplitude_key(r, k)));
                assert forall|j2: nat| j2 < j + 1 implies (#[trigger] frequency_key(r, j2)).ieee_lt(
                    amplitude_key(r, k),
                ) by {
                    if j2 < j {
                        assert(frequency_key(r, j2).ieee_lt(amplitude_key(r, k)));
                    }
                }
            }
        } else {
            assert(reading_position(r, s) == (k, j));
        }
    }
}

/// On a clip whose breakpoint times ascend, read from its start without looping, the frequency
/// stream is read up to the end of the amplitude envelope: exactly its events that start before
/// the amplitude stream's last event are read
pub proof fn frequency_is_read_until_the_amplitude_end(r: EnvelopeReader)
    requires
        at_clip_start(r),
        times_ascending(r),
    ensures
        ({
            let t = amplitude_count(r) + frequency_stream_len(r) + 1;
            let read = reading_position(r, t).1;
            forall|j: nat|
                j < frequency_stream_len(r) ==> (j < read <==> #[trigger] frequency_key(r, j).ieee_lt(
                    amplitude_key(r, amplitude_count(r)),
                ))
        }),
{
    let t = amplitude_count(r) + frequency_stream_len(r) + 1;
    reading_covers_the_amplitude_stream(r);
    lemma_frequency_before_amplitude(r, t);
    lemma_keys_ascend(r);
    lemma_position_bounds(r, t);
    let read = reading_position(r, t).1;
    let n = amplitude_count(r);
    assert(reading_position(r, t).0 == n + 1);
    assert forall|j: nat| j < frequency_stream_len(r) implies (j < read <==> #[trigger] frequency_key(
        r,
        j,
    ).ieee_lt(amplitude_key(r, n))) by {
        if j >= read {
            assert(read < frequency_stream_len(r));
            assert(amplitude_key(r, n).ieee_le(frequency_key(r, read)));
            assert(frequency_key(r, read).ieee_le(frequency_key(r, j)));
        } else {
            assert(frequency_key(r, j).ieee_lt(amplitude_key(r, n)));
        }
    }
}


proof fn lemma_advance_shift(r: EnvelopeReader, a: nat, b: nat)
    ensures
        advance(advance(r, a), b) == advance(r, a + b),
    decreases b,
{
    if b > 0 {
        lemma_advance_shift(r, a, (b - 1) as nat);
    }
}

/// A reader made by `new` for a clip whose first breakpoint times are not negative reads the clip
/// from its start: right away when the first amplitude breakpoint is at time zero, and otherwise
/// after a jump to zero amplitude at time zero
pub proof fn a_new_reader_reads_from_the_clip_start(envelopes: Envelopes, emphasis_tail_time: F32Bits)
    requires
        envelopes.amplitude@.len() > 0,
        (F32Bits { bits: ZERO_BITS }).ieee_le(envelopes.amplitude@[0].time),
        envelopes.frequency matches Some(v) ==> (v@.len() > 0 ==> (F32Bits {
            bits: ZERO_BITS,
        }).ieee_le(v@[0].time)),
    ensures
        ({
            let r = EnvelopeReader::new_spec(envelopes, emphasis_tail_time);
            let zero = F32Bits { bits: ZERO_BITS };
            &&& zero.ieee_eq(envelopes.amplitude@[0].time) ==> at_clip_start(r)
            &&& zero.ieee_lt(envelopes.amplitude@[0].time) ==> {
                &&& event_at(r, 0) == Some(
                    ReaderEvent::AmplitudeRamp {
                        start: RampPoint::Exact(silence_at(zero)),
                        end: RampPoint::Exact(silence_at(zero)),
                        emphasis: None,
                        loop_restarted: false,
                    },
                )
                &&& at_clip_start(advance(r, 1))
                &&& forall|s: nat| #[trigger] event_at(r, s + 1) == event_at(advance(r, 1), s)
            }
        }),
{
    let zero = F32Bits { bits: ZERO_BITS };
    let r = EnvelopeReader::new_spec(envelopes, emphasis_tail_time);
    lemma_first_not_before_is(amplitude_times(envelopes.amplitude@), zero, 0, 0);
    if let Some(v) = envelopes.frequency {
        if v@.len() > 0 {
            lemma_first_not_before_is(frequency_times(v@), zero, 0, 0);
        } else {
            lemma_first_not_before_is(frequency_times(v@), zero, 0, 0);
        }
    }
    assert(advance(r, 0) == r);
    assert forall|s: nat| #[trigger] event_at(r, s + 1) == event_at(advance(r, 1), s) by {
        lemma_advance_shift(r, 1, s);
    }
}


// Reading the amplitude stream whatever the frequency envelope holds.

/// Two readers hold the same clip, emphasis tail and looping setting
pub open spec fn same_clip(a: EnvelopeReader, b: EnvelopeReader) -> bool {
    &&& a.envelopes == b.envelopes
    &&& a.emphasis_tail_time == b.emphasis_tail_time
    &&& a.loop_start == b.loop_start
}

/// The frequency state is one that reading moves on from: the breakpoints that it is about to
/// read exist, and a seek point it is about to jump to is not before time zero
pub open spec fn frequency_state_readable(r: EnvelopeReader) -> bool {
    match r.frequency_state {
        EnvelopeState::Finished => true,
        EnvelopeState::Start { index } => r.frequency_point(index as int) is Some,
        EnvelopeState::Active { index } => r.frequency_point(index as int) is Some,
        EnvelopeState::SeekStart { seek_point, next_index } => {
            &&& (F32Bits { bits: ZERO_BITS }).ieee_le(frequency_point_time(seek_point))
            &&& r.frequency_point(next_index as int) is Some
        },
        EnvelopeState::SeekRamp { next_index, .. } => r.frequency_point(next_index as int) is Some,
    }
}

/// An upper bound on the number of frequency events left to read
pub open spec fn frequency_measure(r: EnvelopeReader) -> nat {
    let m = frequency_count(r) as int;
    match r.frequency_state {
        EnvelopeState::Finished => 0,
        EnvelopeState::Active { index } => (m - index) as nat,
        EnvelopeState::Start { index } => (m - index + 1) as nat,
        EnvelopeState::SeekRamp { next_index, .. } => (m - next_index + 1) as nat,
        EnvelopeState::SeekStart { next_index, .. } => (m - next_index + 2) as nat,
    }
}

/// A reader at the start of the amplitude envelope, without looping, whatever the state of the
/// frequency envelope
pub open spec fn reads_amplitude_from_start(r: EnvelopeReader) -> bool {
    &&& r.loop_start is None
    &&& r.envelopes.amplitude@.len() > 0
    &&& r.amplitude_state == (EnvelopeState::<AmplitudeBreakpoint>::Start { index: 0 })
    &&& frequency_state_readable(r)
}

proof fn lemma_same_clip_points(a: EnvelopeReader, b: EnvelopeReader)
    requires
        same_clip(a, b),
    ensures
        forall|i: int| #[trigger] a.amplitude_point(i) == b.amplitude_point(i),
        forall|i: int| #[trigger] a.frequency_point(i) == b.frequency_point(i),
        amplitude_count(a) == amplitude_count(b),
        frequency_count(a) == frequency_count(b),
        forall|k: nat| #[trigger] amplitude_event(a, k) == amplitude_event(b, k),
        amplitude_stream(a) == amplitude_stream(b),
{
    assert(forall|i: int| #[trigger] a.amplitude_point(i) == b.amplitude_point(i));
    assert(amplitude_count(a) == amplitude_count(b));
    assert forall|k: nat| #[trigger] amplitude_event(a, k) == amplitude_event(b, k) by {}
    assert(amplitude_stream(a) =~= amplitude_stream(b));
}

proof fn lemma_amplitude_stream_step(r: EnvelopeReader, k: nat)
    requires
        r.loop_start is None,
        r.envelopes.amplitude@.len() > 0,
        k <= amplitude_count(r),
        r.amplitude_state == amplitude_state_at(k, amplitude_count(r)),
    ensures
        r.next_amplitude_spec() == (EnvelopeReader {
            amplitude_state: amplitude_state_at(k + 1, amplitude_count(r)),
            ..r
        }, Some(amplitude_event(r, k))),
{
    lemma_points(r);
    let n = amplitude_count(r);
    assert(r.envelopes.amplitude@.len() == r.envelopes.amplitude.len());
    if k == 0 {
        assert(r.amplitude_point(0) is Some);
    } else if k < n {
        assert(r.amplitude_point(k - 1) is Some);
        assert(r.amplitude_point(k as int) is Some);
    } else {
        assert(r.amplitude_point(k - 1) is Some);
        assert(r.amplitude_point(k as int) is None);
    }
}

proof fn lemma_frequency_stream_step(r: EnvelopeReader)
    requires
        frequency_state_readable(r),
        !(r.frequency_state is Finished),
    ensures
        ({
            let (after, event) = r.next_frequency_spec();
            &&& after == (EnvelopeReader { frequency_state: after.frequency_state, ..r })
            &&& event matches Some(ReaderEvent::FrequencyRamp { .. })
            &&& frequency_state_readable(after)
            &&& frequency_measure(after) < frequency_measure(r)
        }),
{
    if let Some(v) = r.envelopes.frequency {
        assert(v@.len() == v.len());
    }
}

proof fn lemma_reading_step(r: EnvelopeReader, k: nat)
    requires
        r.loop_start is None,
        r.envelopes.amplitude@.len() > 0,
        k <= amplitude_count(r) + 1,
        r.amplitude_state == amplitude_state_at(k, amplitude_count(r)),
        frequency_state_readable(r),
    ensures
        ({
            let n = amplitude_count(r);
            let (after, event) = r.next_event_spec();
            &&& same_clip(after, r)
            &&& frequency_state_readable(after)
            &&& k > n ==> after == r && event is None
            &&& k <= n ==> event is Some
            &&& (k <= n && event matches Some(ReaderEvent::AmplitudeRamp { .. })) ==> {
                &&& event == Some(amplitude_event(r, k))
                &&& after.amplitude_state == amplitude_state_at(k + 1, n)
                &&& after.frequency_state == r.frequency_state
            }
            &&& (k <= n && event matches Some(ReaderEvent::FrequencyRamp { .. })) ==> {
                &&& after.amplitude_state == r.amplitude_state
                &&& frequency_measure(after) < frequency_measure(r)
            }
        }),
{
    lemma_points(r);
    let n = amplitude_count(r);
    if k <= n {
        lemma_amplitude_stream_step(r, k);
        if !(r.frequency_state is Finished) {
            lemma_frequency_stream_step(r);
        }
        assert(r.amplitude_point(state_index(r.amplitude_state)) is Some);
    }
}

proof fn lemma_read_events_step(r: EnvelopeReader, s: nat)
    ensures
        read_events(r, s + 1) == (match event_at(r, s) {
            Some(e) => read_events(r, s).push(e),
            None => read_events(r, s),
        }),
{
}

/// What has been read after `s` events from the start of the amplitude envelope
pub open spec fn amplitude_progress(r: EnvelopeReader, s: nat) -> bool {
    let a = advance(r, s);
    let n = amplitude_count(r);
    let k = amplitude_events(read_events(r, s)).len();
    &&& same_clip(a, r)
    &&& frequency_state_readable(a)
    &&& k <= n + 1
    &&& a.amplitude_state == amplitude_state_at(k, n)
    &&& amplitude_events(read_events(r, s)) == amplitude_stream(r).take(k as int)
    &&& frequency_measure(a) <= frequency_measure(r)
    &&& (k == n + 1 || k + frequency_measure(r) - frequency_measure(a) == s)
}

#[verifier::rlimit(50)]
proof fn lemma_amplitude_progress_step(r: EnvelopeReader, p: nat)
    requires
        reads_amplitude_from_start(r),
        amplitude_progress(r, p),
    ensures
        amplitude_progress(r, p + 1),
{
    reveal_with_fuel(Seq::filter, 1);
    let a = advance(r, p);
    let before = read_events(r, p);
    let k = amplitude_events(before).len();
    lemma_same_clip_points(a, r);
    lemma_reading_step(a, k);
    assert(advance(r, p + 1) == a.next_event_spec().0);
    lemma_read_events_step(r, p);
    let after = a.next_event_spec().0;
    let event = a.next_event_spec().1;
    assert(event == event_at(r, p));
    lemma_same_clip_points(after, r);
    match event {
        Some(e) => {
            assert(read_events(r, p + 1) == before.push(e));
            assert(before.push(e).drop_last() =~= before);
            assert(before.push(e).last() == e);
            if e is AmplitudeRamp {
                assert(amplitude_events(before.push(e)) == amplitude_events(before).push(e));
                assert(amplitude_stream(r).take(k + 1 as int) =~= amplitude_stream(r).take(
                    k as int,
                ).push(e));
            } else {
                assert(amplitude_events(before.push(e)) == amplitude_events(before));
            }
        },
        None => {
            assert(read_events(r, p + 1) == before);
        },
    }
}

proof fn lemma_amplitude_progress(r: EnvelopeReader, s: nat)
    requires
        reads_amplitude_from_start(r),
    ensures
        amplitude_progress(r, s),
    decreases s,
{
    if s == 0 {
        reveal_with_fuel(Seq::filter, 1);
        assert(advance(r, 0) == r);
        assert(amplitude_events(read_events(r, 0)) =~= Seq::<ReaderEvent>::empty());
        assert(amplitude_stream(r).take(0) =~= Seq::<ReaderEvent>::empty());
        lemma_same_clip_points(r, r);
    } else {
        lemma_amplitude_progress(r, (s - 1) as nat);
        lemma_amplitude_progress_step(r, (s - 1) as nat);
    }
}

/// Reading from the start of the amplitude envelope without looping reads the whole amplitude
/// stream, whatever the frequency envelope holds and however far it has been read, and then
/// nothing more: the frequency envelope never changes which amplitude events are read
pub proof fn the_amplitude_stream_is_read_whatever_the_frequency_envelope(r: EnvelopeReader)
    requires
        reads_amplitude_from_start(r),
    ensures
        ({
            let t = amplitude_count(r) + frequency_measure(r) + 1;
            &&& amplitude_events(read_events(r, t)) == amplitude_stream(r)
            &&& forall|s: nat| s >= t ==> #[trigger] event_at(r, s) is None
        }),
{
    let n = amplitude_count(r);
    let t = n + frequency_measure(r) + 1;
    lemma_amplitude_progress(r, t);
    assert(amplitude_stream(r).take((n + 1) as int) =~= amplitude_stream(r));
    assert forall|s: nat| s >= t implies #[trigger] event_at(r, s) is None by {
        lemma_amplitude_progress(r, s);
        let a = advance(r, s);
        lemma_same_clip_points(a, r);
        lemma_reading_step(a, amplitude_events(read_events(r, s)).len());
    }
}

proof fn lemma_read_events_shift(r: EnvelopeReader, s: nat)
    requires
        event_at(r, 0) is Some,
    ensures
        read_events(r, s + 1) == seq![event_at(r, 0)->0] + read_events(advance(r, 1), s),
    decreases s,
{
    assert(advance(r, 0) == r);
    if s == 0 {
        lemma_read_events_step(r, 0);
        assert(read_events(r, 0) =~= Seq::<ReaderEvent>::empty());
        assert(read_events(r, 1) =~= seq![event_at(r, 0)->0]);
        assert(read_events(advance(r, 1), 0) =~= Seq::<ReaderEvent>::empty());
        assert(seq![event_at(r, 0)->0] + Seq::<ReaderEvent>::empty() =~= seq![event_at(r, 0)->0]);
    } else {
        lemma_read_events_shift(r, (s - 1) as nat);
        lemma_advance_shift(r, 1, (s - 1) as nat);
        lemma_read_events_step(r, s);
        lemma_read_events_step(advance(r, 1), (s - 1) as nat);
        let head = seq![event_at(r, 0)->0];
        let tail = read_events(advance(r, 1), (s - 1) as nat);
        match event_at(r, s) {
            Some(e) => {
                assert(head + tail.push(e) =~= (head + tail).push(e));
            },
            None => {},
        }
    }
}

proof fn lemma_new_reader_state(envelopes: Envelopes, emphasis_tail_time: F32Bits)
    requires
        envelopes.amplitude@.len() > 0,
        (F32Bits { bits: ZERO_BITS }).ieee_le(envelopes.amplitude@[0].time),
    ensures
        ({
            let r = EnvelopeReader::new_spec(envelopes, emphasis_tail_time);
            let zero = F32Bits { bits: ZERO_BITS };
            &&& r.loop_start is None
            &&& r.envelopes == envelopes
            &&& frequency_state_readable(r)
            &&& zero.ieee_eq(envelopes.amplitude@[0].time) ==> r.amplitude_state == (EnvelopeState::<
                AmplitudeBreakpoint,
            >::Start { index: 0 })
            &&& zero.ieee_lt(envelopes.amplitude@[0].time) ==> r.amplitude_state == (EnvelopeState::<
                AmplitudeBreakpoint,
            >::SeekStart { seek_point: RampPoint::Exact(silence_at(zero)), next_index: 0 })
        }),
{
    let zero = F32Bits { bits: ZERO_BITS };
    lemma_first_not_before_is(amplitude_times(envelopes.amplitude@), zero, 0, 0);
    if let Some(v) = envelopes.frequency {
        let times = frequency_times(v@);
        lemma_first_not_before_bounds(times, zero, 0);
        let n = first_not_before(times, zero, 0);
        if n > 0 {
            assert(times[n - 1].ieee_lt(zero));
        }
    }
}

/// A reader made by `new` for a clip whose first amplitude breakpoint is not before time zero
/// reads the clip's whole amplitude stream, whatever its frequency envelope holds: right away
/// when the first amplitude breakpoint is at time zero, and after one jump to zero amplitude at
/// time zero when it is later; then nothing more is read
#[verifier::rlimit(50)]
pub proof fn a_new_reader_reads_the_whole_amplitude_stream(
    envelopes: Envelopes,
    emphasis_tail_time: F32Bits,
)
    requires
        envelopes.amplitude@.len() > 0,
        (F32Bits { bits: ZERO_BITS }).ieee_le(envelopes.amplitude@[0].time),
    ensures
        ({
            let r = EnvelopeReader::new_spec(envelopes, emphasis_tail_time);
            let zero = F32Bits { bits: ZERO_BITS };
            let t = amplitude_count(r) + frequency_measure(r) + 1;
            &&& zero.ieee_eq(envelopes.amplitude@[0].time) ==> {
                &&& amplitude_events(read_events(r, t)) == amplitude_stream(r)
                &&& forall|s: nat| s >= t ==> #[trigger] event_at(r, s) is None
            }
            &&& zero.ieee_lt(envelopes.amplitude@[0].time) ==> {
                &&& amplitude_events(read_events(r, t + 1)) == seq![
                    ReaderEvent::AmplitudeRamp {
                        start: RampPoint::Exact(silence_at(zero)),
                        end: RampPoint::Exact(silence_at(zero)),
                        emphasis: None,
                        loop_restarted: false,
                    },
                ] + amplitude_stream(r)
                &&& forall|s: nat| s >= t + 1 ==> #[trigger] event_at(r, s) is None
            }
        }),
{
    reveal_with_fuel(Seq::filter, 1);
    let zero = F32Bits { bits: ZERO_BITS };
    let r = EnvelopeReader::new_spec(envelopes, emphasis_tail_time);
    let t = amplitude_count(r) + frequency_measure(r) + 1;
    lemma_new_reader_state(envelopes, emphasis_tail_time);
    if zero.ieee_eq(envelopes.amplitude@[0].time) {
        the_amplitude_stream_is_read_whatever_the_frequency_envelope(r);
    }
    if zero.ieee_lt(envelopes.amplitude@[0].time) {
        assert(advance(r, 0) == r);
        let r1 = advance(r, 1);
        assert(r1 == EnvelopeReader {
            amplitude_state: EnvelopeState::Start { index: 0 },
            ..r
        });
        lemma_same_clip_points(r1, r);
        assert(frequency_measure(r1) == frequency_measure(r));
        the_amplitude_stream_is_read_whatever_the_frequency_envelope(r1);
        lemma_read_events_shift(r, t);
        let first = event_at(r, 0)->0;
        let rest = read_events(r1, t);
        assert(amplitude_events(seq![first] + rest) =~= seq![first] + amplitude_events(rest)) by {
            assert(seq![first] + rest =~= seq![first].add(rest));
            Seq::filter_distributes_over_add(seq![first], rest, |e: ReaderEvent| e is AmplitudeRamp);
            assert(seq![first].filter(|e: ReaderEvent| e is AmplitudeRamp) =~= seq![first]) by {
                assert(seq![first].drop_last() =~= Seq::<ReaderEvent>::empty());
            }
        }
        assert forall|s: nat| s >= t + 1 implies #[trigger] event_at(r, s) is None by {
            lemma_advance_shift(r, 1, (s - 1) as nat);
            assert(event_at(r1, (s - 1) as nat) is None);
        }
    }
}


/// A seek to a time that falls between two frequency breakpoints continues from the point at the
/// seek time on the line from the breakpoint just before that time to the breakpoint just after
/// it: the seek point names the breakpoints at `next_index - 1` and `next_index`, every breakpoint
/// before `next_index` comes before the seek time, and on an envelope whose times ascend no
/// breakpoint lies strictly between the earlier of the two and the seek time
pub proof fn frequency_seek_interpolates_between_the_neighbouring_breakpoints(
    r: EnvelopeReader,
    t: F32Bits,
)
    ensures
        r.envelopes.frequency matches Some(v) ==> (r.frequency_seek_state(t) matches EnvelopeState::SeekStart {
            seek_point: RampPoint::Interpolated { previous, next, time },
            next_index,
        } ==> {
            &&& 0 < next_index < v@.len()
            &&& previous == v@[next_index - 1]
            &&& next == v@[next_index as int]
            &&& time == t
            &&& previous.time.ieee_lt(t) && t.ieee_lt(next.time)
            &&& forall|j: int| 0 <= j < next_index ==> (#[trigger] v@[j]).time.ieee_lt(t)
            &&& (forall|j: int, j2: int|
                #![trigger v@[j], v@[j2]]
                0 <= j <= j2 < v@.len() ==> v@[j].time.ieee_le(v@[j2].time)) ==> forall|j: int|
                0 <= j < v@.len() ==> !(previous.time.ieee_lt((#[trigger] v@[j]).time)
                    && v@[j].time.ieee_lt(t))
        }),
{
    if let Some(v) = r.envelopes.frequency {
        assert(v@.len() == v.len());
        let times = frequency_times(v@);
        lemma_first_not_before_bounds(times, t, 0);
        let n = first_not_before(times, t, 0);
        if r.frequency_seek_state(t) is SeekStart && n > 0 && n < v@.len() {
            assert forall|j: int| 0 <= j < n implies (#[trigger] v@[j]).time.ieee_lt(t) by {
                assert(times[j].ieee_lt(t));
            }
            if forall|j: int, j2: int|
                #![trigger v@[j], v@[j2]]
                0 <= j <= j2 < v@.len() ==> v@[j].time.ieee_le(v@[j2].time) {
                assert forall|j: int| 0 <= j < v@.len() implies !(v@[n - 1].time.ieee_lt(
                    (#[trigger] v@[j]).time,
                ) && v@[j].time.ieee_lt(t)) by {
                    if j < n {
                        assert(v@[j].time.ieee_le(v@[n - 1].time));
                    } else {
                        assert(v@[n as int].time.ieee_le(v@[j].time));
                    }
                }
            }
        }
    }
}

/// A seek to a time that falls between two amplitude breakpoints continues from the point at the
/// seek time on the line from the breakpoint just before that time to the breakpoint just after
/// it (or to the emphasis tail after the last breakpoint): the seek point names the breakpoint at
/// `next_index - 1` and the one at `next_index`, and every breakpoint before `next_index` comes
/// before the seek time
pub proof fn amplitude_seek_interpolates_between_the_neighbouring_breakpoints(
    r: EnvelopeReader,
    t: F32Bits,
)
    ensures
        r.amplitude_seek_state(t) matches EnvelopeState::SeekStart {
            seek_point: RampPoint::Interpolated { previous, next, time },
            next_index,
        } ==> {
            let amp = r.envelopes.amplitude@;
            &&& 0 < next_index <= amp.len()
            &&& previous == amp[next_index - 1]
            &&& (next_index < amp.len() ==> next == amp[next_index as int])
            &&& time == t
            &&& previous.time.ieee_lt(t) && t.ieee_lt(next.time)
            &&& forall|j: int| 0 <= j < next_index ==> (#[trigger] amp[j]).time.ieee_lt(t)
        },
{
    let amp = r.envelopes.amplitude@;
    assert(amp.len() == r.envelopes.amplitude.len());
    let times = amplitude_times(amp);
    lemma_first_not_before_bounds(times, t, 0);
    let n = first_not_before(times, t, 0);
    assert forall|j: int| 0 <= j < n implies (#[trigger] amp[j]).time.ieee_lt(t) by {
        assert(times[j].ieee_lt(t));
    }
}

} // verus!
