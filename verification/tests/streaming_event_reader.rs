//! The reader tests of the haptics SDK, run against `EnvelopeReader`: the events it names are
//! given their times here (loop offset, interpolation, ramp durations) with `f32` arithmetic.

use std::ops::Deref;
use std::rc::Rc;
use std::sync::Arc;

use haptics_sdk::event_reader::EnvelopeReader;
use haptics_sdk::event_reader::RampPoint;
use haptics_sdk::event_reader::ReaderEvent;
use haptics_sdk::v1::AmplitudeBreakpoint;
use haptics_sdk::v1::Emphasis;
use haptics_sdk::v1::Envelopes;
use haptics_sdk::v1::FrequencyBreakpoint;
use haptics_sdk::F32Bits;
use haptics_sdk::HapticData;
use itertools::Itertools;
use itertools::PeekingNext;

fn f(x: f32) -> F32Bits {
    F32Bits::from_bits(x.to_bits())
}

fn v(x: F32Bits) -> f32 {
    f32::from_bits(x.bits)
}

fn amp_bp(time: f32, amplitude: f32) -> AmplitudeBreakpoint {
    AmplitudeBreakpoint {
        time: f(time),
        amplitude: f(amplitude),
        emphasis: None,
    }
}

fn emphasis_bp(time: f32, amplitude: f32, emphasis_amp: f32, emphasis_freq: f32) -> AmplitudeBreakpoint {
    AmplitudeBreakpoint {
        time: f(time),
        amplitude: f(amplitude),
        emphasis: Some(Emphasis {
            amplitude: f(emphasis_amp),
            frequency: f(emphasis_freq),
        }),
    }
}

fn freq_bp(time: f32, frequency: f32) -> FrequencyBreakpoint {
    FrequencyBreakpoint {
        time: f(time),
        frequency: f(frequency),
    }
}

struct TestClip<'a> {
    amplitude: &'a [AmplitudeBreakpoint],
    frequency: &'a [FrequencyBreakpoint],
}

impl<'a> From<TestClip<'a>> for HapticData {
    fn from(clip: TestClip<'a>) -> Self {
        let mut data = HapticData::default();
        data.signals.continuous.envelopes = Envelopes {
            amplitude: clip.amplitude.to_vec(),
            frequency: if clip.frequency.is_empty() {
                None
            } else {
                Some(clip.frequency.to_vec())
            },
        };
        data
    }
}

/// A timed event: (kind, time, start or amplitude, target or frequency, duration)
#[derive(Clone, Copy, Debug)]
struct Event(char, f32, f32, f32, f32);

impl Event {
    fn time(&self) -> f32 {
        self.1
    }
    fn is_amplitude_ramp(&self) -> bool {
        self.0 == 'a'
    }
    fn is_frequency_ramp(&self) -> bool {
        self.0 == 'f'
    }
}

fn amp_ramp(time: f32, start: f32, target: f32, duration: f32) -> Event {
    Event('a', time, start, target, duration)
}

fn freq_ramp(time: f32, start: f32, target: f32, duration: f32) -> Event {
    Event('f', time, start, target, duration)
}

fn emphasis_event(time: f32, amplitude: f32, frequency: f32) -> Event {
    Event('e', time, amplitude, frequency, 0.0)
}

fn compare_ramp_events(expected: Event, actual: Event, index: usize) {
    let near = |a: f32, b: f32| (a - b).abs() <= 1.0e-6;
    if expected.0 != actual.0
        || !near(expected.1, actual.1)
        || !near(expected.2, actual.2)
        || !near(expected.3, actual.3)
        || !near(expected.4, actual.4)
    {
        panic!("Mismatch in event {index}:\n  expected: {expected:?}\n  actual: {actual:?}");
    }
}

fn compare_ramp_event_slices(expected: &[Event], actual: &[Event]) {
    for (i, (e, a)) in expected.iter().zip(actual.iter()).enumerate() {
        compare_ramp_events(*e, *a, i);
    }
    assert_eq!(expected.len(), actual.len(), "Mismatch in number of ramp events");
}

/// The value at `time` on the line through two (time, value) points
fn interpolate(a: (f32, f32), b: (f32, f32), time: f32) -> (f32, f32) {
    let time_diff = b.0 - a.0;
    if time_diff == 0.0 {
        return b;
    }
    let factor = (time - a.0) / time_diff;
    (time, a.1 + (b.1 - a.1) * factor)
}

fn amp_value(p: RampPoint<AmplitudeBreakpoint>) -> (f32, f32) {
    match p {
        RampPoint::Exact(bp) => (v(bp.time), v(bp.amplitude)),
        RampPoint::Interpolated { previous, next, time } => interpolate(
            (v(previous.time), v(previous.amplitude)),
            (v(next.time), v(next.amplitude)),
            v(time),
        ),
    }
}

fn freq_value(p: RampPoint<FrequencyBreakpoint>) -> (f32, f32) {
    match p {
        RampPoint::Exact(bp) => (v(bp.time), v(bp.frequency)),
        RampPoint::Interpolated { previous, next, time } => interpolate(
            (v(previous.time), v(previous.frequency)),
            (v(next.time), v(next.frequency)),
            v(time),
        ),
    }
}

/// The library's reader with the timing of its events
struct StreamingEventReader<H> {
    _data: H,
    core: EnvelopeReader,
    pending: Option<Event>,
    peeked: Option<Event>,
    time_offset: f32,
    loop_duration: f32,
}

impl<H: Deref<Target = HapticData>> StreamingEventReader<H> {
    fn new(data: H) -> Self {
        let envelopes = data.signals.continuous.envelopes.clone();
        let tail = match envelopes.amplitude.last() {
            Some(last) => f(v(last.time) + 0.1),
            None => f(0.0),
        };
        Self {
            _data: data,
            core: EnvelopeReader::new(envelopes, tail),
            pending: None,
            peeked: None,
            time_offset: 0.0,
            loop_duration: 0.0,
        }
    }

    fn seek(&mut self, time: f32) {
        self.core.seek(f(time));
    }

    fn set_looping_enabled(&mut self, enabled: bool) {
        self.core.set_looping_enabled(enabled);
        let amp = &self.core.envelopes.amplitude;
        self.loop_duration = if self.core.looping_enabled() {
            v(amp[amp.len() - 1].time) - v(amp[0].time)
        } else {
            0.0
        };
    }

    fn timed(&mut self, event: ReaderEvent) -> Event {
        match event {
            ReaderEvent::AmplitudeRamp { start, end, emphasis, loop_restarted } => {
                if loop_restarted {
                    self.time_offset += self.loop_duration;
                }
                let (ts, vs) = amp_value(start);
                let (te, ve) = amp_value(end);
                let time = self.time_offset + ts;
                self.pending = emphasis.map(|e| emphasis_event(time, v(e.amplitude), v(e.frequency)));
                amp_ramp(time, vs, ve, te - ts)
            }
            ReaderEvent::FrequencyRamp { start, end } => {
                let (ts, vs) = freq_value(start);
                let (te, ve) = freq_value(end);
                freq_ramp(self.time_offset + ts, vs, ve, te - ts)
            }
        }
    }

    fn next_event(&mut self) -> Option<Event> {
        if let Some(e) = self.peeked.take() {
            Some(e)
        } else if let Some(e) = self.pending.take() {
            Some(e)
        } else {
            let event = self.core.next_event()?;
            Some(self.timed(event))
        }
    }

    fn peek(&mut self) -> Option<Event> {
        if self.peeked.is_none() {
            self.peeked = self.next_event();
        }
        self.peeked
    }

    fn next_if(&mut self, accept: impl FnOnce(&Event) -> bool) -> Option<Event> {
        match self.peek() {
            Some(e) if accept(&e) => {
                self.peeked = None;
                Some(e)
            }
            _ => None,
        }
    }
}

impl<H: Deref<Target = HapticData>> Iterator for StreamingEventReader<H> {
    type Item = Event;
    fn next(&mut self) -> Option<Event> {
        self.next_event()
    }
}

impl<H: Deref<Target = HapticData>> PeekingNext for StreamingEventReader<H> {
    fn peeking_next<F>(&mut self, accept: F) -> Option<Event>
    where
        F: FnOnce(&Event) -> bool,
    {
        self.next_if(accept)
    }
}

fn check_reader_output(clip: TestClip, expected_output: &[Event]) {
    let data: HapticData = clip.into();
    let actual: Vec<Event> = StreamingEventReader::new(&data).collect();
    compare_ramp_event_slices(expected_output, &actual);
}

fn check_reader_output_with_owned_data<H: Deref<Target = HapticData>>(data: H, expected_output: &[Event]) {
    let actual: Vec<Event> = StreamingEventReader::new(data).collect();
    compare_ramp_event_slices(expected_output, &actual);
}

fn check_reader_output_after_seek(clip: TestClip, seek_time: f32, expected_output: &[Event]) {
    let data: HapticData = clip.into();
    let mut reader = StreamingEventReader::new(&data);
    reader.seek(seek_time);
    let actual: Vec<Event> = reader.collect();
    compare_ramp_event_slices(expected_output, &actual);
}

fn check_looped_reader_output(clip: TestClip, expected_output: &[Event]) {
    let data: HapticData = clip.into();
    let mut reader = StreamingEventReader::new(&data);
    reader.set_looping_enabled(true);
    let actual: Vec<Event> = reader.take(expected_output.len()).collect();
    compare_ramp_event_slices(expected_output, &actual);
}

fn check_looped_reader_output_after_seek(clip: TestClip, seek_time: f32, expected_output: &[Event]) {
    let data: HapticData = clip.into();
    let mut reader = StreamingEventReader::new(&data);
    reader.set_looping_enabled(true);
    reader.seek(seek_time);
    let actual: Vec<Event> = reader.take(expected_output.len()).collect();
    compare_ramp_event_slices(expected_output, &actual);
}

#[test]
fn amplitude_envelope() {
    check_reader_output(
        TestClip {
            amplitude: &[amp_bp(0.0, 5.0), amp_bp(1.0, 6.0), amp_bp(4.0, 7.0)],
            frequency: &[],
        },
        &[
            amp_ramp(0.0, 5.0, 5.0, 0.0),
            amp_ramp(0.0, 5.0, 6.0, 1.0),
            amp_ramp(1.0, 6.0, 7.0, 3.0),
            amp_ramp(4.0, 7.0, 0.0, 0.0),
        ],
    );
}

#[test]
fn amplitude_and_frequency_envelope() {
    check_reader_output(
        TestClip {
            amplitude: &[amp_bp(0.0, 3.0), amp_bp(1.0, 9.0), amp_bp(3.0, 0.0)],
            frequency: &[freq_bp(0.0, 5.0), freq_bp(2.0, 6.0), freq_bp(3.0, 7.0)],
        },
        &[
            amp_ramp(0.0, 3.0, 3.0, 0.0),
            amp_ramp(0.0, 3.0, 9.0, 1.0),
            freq_ramp(0.0, 5.0, 5.0, 0.0),
            freq_ramp(0.0, 5.0, 6.0, 2.0),
            amp_ramp(1.0, 9.0, 0.0, 2.0),
            freq_ramp(2.0, 6.0, 7.0, 1.0),
            amp_ramp(3.0, 0.0, 0.0, 0.0),
        ],
    );
}

#[test]
fn amplitude_envelope_with_emphasis_on_first_event() {
    check_reader_output(
        TestClip {
            amplitude: &[
                emphasis_bp(0.0, 2.0, 3.0, 4.0),
                amp_bp(2.0, 8.0),
                amp_bp(3.0, 4.0),
            ],
            frequency: &[],
        },
        &[
            amp_ramp(0.0, 2.0, 2.0, 0.0),
            amp_ramp(0.0, 2.0, 8.0, 2.0),
            emphasis_event(0.0, 3.0, 4.0),
            amp_ramp(2.0, 8.0, 4.0, 1.0),
            amp_ramp(3.0, 4.0, 0.0, 0.0),
        ],
    );
}

#[test]
fn amplitude_and_frequency_envelope_with_emphasis_on_second_event() {
    check_reader_output(
        TestClip {
            amplitude: &[
                amp_bp(0.0, 2.0),
                emphasis_bp(1.0, 5.0, 2.0, 0.5),
                amp_bp(3.0, 4.0),
            ],
            frequency: &[freq_bp(0.0, 5.0), freq_bp(3.0, 7.0)],
        },
        &[
            amp_ramp(0.0, 2.0, 2.0, 0.0),
            amp_ramp(0.0, 2.0, 5.0, 1.0),
            freq_ramp(0.0, 5.0, 5.0, 0.0),
            freq_ramp(0.0, 5.0, 7.0, 3.0),
            amp_ramp(1.0, 5.0, 4.0, 2.0),
            emphasis_event(1.0, 2.0, 0.5),
            amp_ramp(3.0, 4.0, 0.0, 0.0),
        ],
    );
}

#[test]
fn amplitude_envelope_with_emphasis_on_last_event() {
    check_reader_output(
        TestClip {
            amplitude: &[
                amp_bp(0.0, 2.0),
                amp_bp(2.0, 8.0),
                emphasis_bp(3.0, 4.0, 2.0, 0.5),
            ],
            frequency: &[],
        },
        &[
            amp_ramp(0.0, 2.0, 2.0, 0.0),
            amp_ramp(0.0, 2.0, 8.0, 2.0),
            amp_ramp(2.0, 8.0, 4.0, 1.0),
            amp_ramp(3.0, 4.0, 4.0, 0.1),
            emphasis_event(3.0, 2.0, 0.5),
            amp_ramp(3.1, 4.0, 0.0, 0.0),
        ],
    );
}

#[test]
fn amplitude_envelope_with_single_event() {
    // A single-event amplitude envelope is likely to be an input error,
    // but this documents the resulting behaviour.
    check_reader_output(
        TestClip {
            amplitude: &[amp_bp(1.0, 6.0)],
            frequency: &[],
        },
        &[
            amp_ramp(0.0, 0.0, 0.0, 0.0),
            amp_ramp(1.0, 6.0, 6.0, 0.0),
            amp_ramp(1.0, 6.0, 0.0, 0.0),
        ],
    );
}

#[test]
fn frequency_envelope_with_single_event() {
    check_reader_output(
        TestClip {
            amplitude: &[amp_bp(0.0, 3.0), amp_bp(1.0, 9.0), amp_bp(3.0, 0.0)],
            frequency: &[freq_bp(2.0, 6.0)],
        },
        &[
            amp_ramp(0.0, 3.0, 3.0, 0.0),
            amp_ramp(0.0, 3.0, 9.0, 1.0),
            amp_ramp(1.0, 9.0, 0.0, 2.0),
            freq_ramp(2.0, 6.0, 6.0, 0.0),
            freq_ramp(2.0, 6.0, 6.0, 0.0),
            amp_ramp(3.0, 0.0, 0.0, 0.0),
        ],
    );
}

#[test]
fn amplitude_envelope_with_seek() {
    check_reader_output_after_seek(
        TestClip {
            amplitude: &[amp_bp(0.0, 5.0), amp_bp(1.0, 6.0), amp_bp(4.0, 7.0)],
            frequency: &[],
        },
        0.5,
        &[
            amp_ramp(0.5, 5.5, 5.5, 0.0),
            amp_ramp(0.5, 5.5, 6.0, 0.5),
            amp_ramp(1.0, 6.0, 7.0, 3.0),
            amp_ramp(4.0, 7.0, 0.0, 0.0),
        ],
    );
}

#[test]
fn amplitude_and_frequency_envelopes_with_seek() {
    check_reader_output_after_seek(
        TestClip {
            amplitude: &[amp_bp(0.0, 5.0), amp_bp(1.0, 1.0), amp_bp(4.0, 7.0)],
            frequency: &[freq_bp(0.0, 3.0), freq_bp(1.5, 7.0), freq_bp(3.0, 1.0)],
        },
        0.75,
        &[
            amp_ramp(0.75, 2.0, 2.0, 0.0),
            amp_ramp(0.75, 2.0, 1.0, 0.25),
            freq_ramp(0.75, 5.0, 5.0, 0.0),
            freq_ramp(0.75, 5.0, 7.0, 0.75),
            amp_ramp(1.0, 1.0, 7.0, 3.0),
            freq_ramp(1.5, 7.0, 1.0, 1.5),
            freq_ramp(3.0, 1.0, 1.0, 0.0),
            amp_ramp(4.0, 7.0, 0.0, 0.0),
        ],
    );
}

#[test]
fn amplitude_and_frequency_envelopes_with_two_seeks() {
    let clip = TestClip {
        amplitude: &[amp_bp(0.0, 5.0), amp_bp(1.0, 1.0), amp_bp(5.0, 2.0)],
        frequency: &[freq_bp(0.0, 3.0), freq_bp(2.0, 7.0), freq_bp(3.0, 1.0)],
    };
    let data: HapticData = clip.into();
    let mut reader = StreamingEventReader::new(&data);

    reader.seek(0.5);
    compare_ramp_events(amp_ramp(0.5, 3.0, 3.0, 0.0), reader.next().unwrap(), 0);
    compare_ramp_events(amp_ramp(0.5, 3.0, 1.0, 0.5), reader.next().unwrap(), 1);
    compare_ramp_events(freq_ramp(0.5, 4.0, 4.0, 0.0), reader.next().unwrap(), 2);
    compare_ramp_events(freq_ramp(0.5, 4.0, 7.0, 1.5), reader.next().unwrap(), 3);

    reader.seek(3.0);
    compare_ramp_events(amp_ramp(3.0, 1.5, 1.5, 0.0), reader.next().unwrap(), 4);
    compare_ramp_events(amp_ramp(3.0, 1.5, 2.0, 2.0), reader.next().unwrap(), 5);
    compare_ramp_events(freq_ramp(3.0, 1.0, 1.0, 0.0), reader.next().unwrap(), 6);
    compare_ramp_events(freq_ramp(3.0, 1.0, 1.0, 0.0), reader.next().unwrap(), 7);
    compare_ramp_events(amp_ramp(5.0, 2.0, 0.0, 0.0), reader.next().unwrap(), 8);
    assert!(reader.next().is_none());
}

#[test]
fn amplitude_and_frequency_envelopes_with_seek_to_time_with_breakpoints() {
    check_reader_output_after_seek(
        TestClip {
            amplitude: &[amp_bp(0.0, 5.0), amp_bp(1.0, 1.0), amp_bp(4.0, 9.0)],
            frequency: &[freq_bp(0.0, 3.0), freq_bp(1.0, 7.0), freq_bp(3.0, 8.0)],
        },
        1.0,
        &[
            amp_ramp(1.0, 1.0, 1.0, 0.0),
            amp_ramp(1.0, 1.0, 9.0, 3.0),
            freq_ramp(1.0, 7.0, 7.0, 0.0),
            freq_ramp(1.0, 7.0, 8.0, 2.0),
            freq_ramp(3.0, 8.0, 8.0, 0.0),
            amp_ramp(4.0, 9.0, 0.0, 0.0),
        ],
    );
}

#[test]
fn negative_seek() {
    check_reader_output_after_seek(
        TestClip {
            amplitude: &[amp_bp(0.0, 5.0), amp_bp(2.0, 6.0)],
            frequency: &[freq_bp(0.0, 3.0), freq_bp(1.0, 7.0)],
        },
        -1.0,
        &[
            amp_ramp(-1.0, 0.0, 0.0, 0.0),
            amp_ramp(0.0, 5.0, 5.0, 0.0),
            amp_ramp(0.0, 5.0, 6.0, 2.0),
            freq_ramp(0.0, 3.0, 3.0, 0.0),
            freq_ramp(0.0, 3.0, 7.0, 1.0),
            freq_ramp(1.0, 7.0, 7.0, 0.0),
            amp_ramp(2.0, 6.0, 0.0, 0.0),
        ],
    );
}

#[test]
fn seek_to_before_first_bp() {
    check_reader_output_after_seek(
        TestClip {
            amplitude: &[amp_bp(2.0, 5.0), amp_bp(5.0, 6.0)],
            frequency: &[freq_bp(3.0, -1.0), freq_bp(4.0, -2.0)],
        },
        1.0,
        &[
            amp_ramp(1.0, 0.0, 0.0, 0.0),
            amp_ramp(2.0, 5.0, 5.0, 0.0),
            amp_ramp(2.0, 5.0, 6.0, 3.0),
            freq_ramp(3.0, -1.0, -1.0, 0.0),
            freq_ramp(3.0, -1.0, -2.0, 1.0),
            freq_ramp(4.0, -2.0, -2.0, 0.0),
            amp_ramp(5.0, 6.0, 0.0, 0.0),
        ],
    );
}

#[test]
fn seek_to_last_bp() {
    check_reader_output_after_seek(
        TestClip {
            amplitude: &[amp_bp(2.0, 5.0), amp_bp(5.0, 6.0)],
            frequency: &[freq_bp(3.0, -1.0), freq_bp(4.0, -2.0)],
        },
        5.0,
        &[amp_ramp(5.0, 6.0, 6.0, 0.0), amp_ramp(5.0, 6.0, 0.0, 0.0)],
    );
}

#[test]
fn seek_to_after_last_bp() {
    check_reader_output_after_seek(
        TestClip {
            amplitude: &[amp_bp(2.0, 5.0), amp_bp(5.0, 6.0)],
            frequency: &[freq_bp(3.0, -1.0), freq_bp(4.0, -2.0)],
        },
        6.0,
        &[],
    );
}

#[test]
fn looped_amplitude_envelope() {
    check_looped_reader_output(
        TestClip {
            amplitude: &[amp_bp(0.0, 5.0), amp_bp(1.0, 6.0), amp_bp(4.0, 7.0)],
            frequency: &[],
        },
        &[
            amp_ramp(0.0, 5.0, 5.0, 0.0),
            amp_ramp(0.0, 5.0, 6.0, 1.0),
            amp_ramp(1.0, 6.0, 7.0, 3.0),
            // Iteration 2
            amp_ramp(4.0, 5.0, 5.0, 0.0),
            amp_ramp(4.0, 5.0, 6.0, 1.0),
            amp_ramp(5.0, 6.0, 7.0, 3.0),
            // Iteration 3
            amp_ramp(8.0, 5.0, 5.0, 0.0),
            amp_ramp(8.0, 5.0, 6.0, 1.0),
            amp_ramp(9.0, 6.0, 7.0, 3.0),
            // Iteration 4...
            amp_ramp(12.0, 5.0, 5.0, 0.0),
        ],
    );
}

#[test]
fn looped_short_amplitude_envelope() {
    // Define short clip with only two breakpoints
    let data: HapticData = TestClip {
        amplitude: &[amp_bp(0.0, 0.0), amp_bp(5.0, 1.0)],
        frequency: &[],
    }
    .into();

    // Set up StreamingEventReader
    let mut reader = StreamingEventReader::new(&data);

    // Iteration 1
    // Consume first 2 amplitude ramp events (start of playback)
    reader.next_event().unwrap();
    reader.next_event().unwrap();

    // reader.peeked_event() is empty now. We want to populate it and implicitly call reader.next_event()
    reader.peek().unwrap();

    // Enable looping (during playback)
    reader.set_looping_enabled(true);

    // Check if we get are successfully getting the last clip event
    compare_ramp_events(
        amp_ramp(5.0, 1.0, 0.0, 0.0),
        reader.next_event().unwrap(),
        0,
    );

    // Iteration 2
    compare_ramp_events(
        amp_ramp(5.0, 0.0, 0.0, 0.0),
        reader.next_event().unwrap(),
        0,
    );
    compare_ramp_events(
        amp_ramp(5.0, 0.0, 1.0, 5.0),
        reader.next_event().unwrap(),
        0,
    );

    // Disable looping (during playback)
    reader.set_looping_enabled(false);

    // Check last event: looping is disabled; we fade to zero and stop.
    compare_ramp_events(
        amp_ramp(10.0, 1.0, 0.0, 0.0),
        reader.next_event().unwrap(),
        0,
    );

    // Playback is stopped: no further events are expected
    assert!(reader.peek().is_none());
    assert!(reader.next_event().is_none());
}

#[test]
fn looped_short_amplitude_and_frequency_envelope() {
    // Define short clip, including frequency modulation
    let data: HapticData = TestClip {
        amplitude: &[amp_bp(0.0, 0.0), amp_bp(5.0, 1.0)],
        frequency: &[freq_bp(2.0, -2.0), freq_bp(4.0, 2.0)],
    }
    .into();

    // Set up StreamingEventReader
    let mut reader = StreamingEventReader::new(&data);

    // Iteration 1
    // Consume first 2 amplitude ramp events (start of playback)
    reader.next_event().unwrap();
    reader.next_event().unwrap();

    // Check frequency modulation events
    compare_ramp_events(
        freq_ramp(2.0, -2.0, -2.0, 0.0),
        reader.next_event().unwrap(),
        0,
    );
    compare_ramp_events(
        freq_ramp(2.0, -2.0, 2.0, 2.0),
        reader.next_event().unwrap(),
        0,
    );
    compare_ramp_events(
        freq_ramp(4.0, 2.0, 2.0, 0.0),
        reader.next_event().unwrap(),
        0,
    );

    // reader.peeked_event() is empty now. We want to populate it and implicitly call reader.next_event()
    reader.peek().unwrap();

    // Enable looping (during playback)
    reader.set_looping_enabled(true);

    // Iteration 2
    compare_ramp_events(
        amp_ramp(5.0, 1.0, 0.0, 0.0),
        reader.next_event().unwrap(),
        0,
    );
    compare_ramp_events(
        amp_ramp(5.0, 0.0, 0.0, 0.0),
        reader.next_event().unwrap(),
        0,
    );
    compare_ramp_events(
        amp_ramp(5.0, 0.0, 1.0, 5.0),
        reader.next_event().unwrap(),
        0,
    );

    // Disable looping (during playback)
    reader.set_looping_enabled(false);

    // Check frequency modulation events
    compare_ramp_events(
        freq_ramp(7.0, -2.0, -2.0, 0.0),
        reader.next_event().unwrap(),
        0,
    );
    compare_ramp_events(
        freq_ramp(7.0, -2.0, 2.0, 2.0),
        reader.next_event().unwrap(),
        0,
    );
    compare_ramp_events(
        freq_ramp(9.0, 2.0, 2.0, 0.0),
        reader.next_event().unwrap(),
        0,
    );

    // Check last event: looping is disabled; we fade to zero and stop.
    compare_ramp_events(
        amp_ramp(10.0, 1.0, 0.0, 0.0),
        reader.next_event().unwrap(),
        0,
    );

    // Playback should stop: no further events to process
    assert!(reader.peek().is_none());
    assert!(reader.next_event().is_none());
}

#[test]
fn looped_amplitude_and_frequency_envelopes() {
    check_looped_reader_output(
        TestClip {
            amplitude: &[amp_bp(0.0, 5.0), amp_bp(1.0, 6.0), amp_bp(4.0, 7.0)],
            frequency: &[freq_bp(0.5, 1.0), freq_bp(2.5, 4.0)],
        },
        &[
            amp_ramp(0.0, 5.0, 5.0, 0.0),
            amp_ramp(0.0, 5.0, 6.0, 1.0),
            freq_ramp(0.5, 1.0, 1.0, 0.0),
            freq_ramp(0.5, 1.0, 4.0, 2.0),
            amp_ramp(1.0, 6.0, 7.0, 3.0),
            freq_ramp(2.5, 4.0, 4.0, 0.0),
            // Iteration 2
            amp_ramp(4.0, 5.0, 5.0, 0.0),
            amp_ramp(4.0, 5.0, 6.0, 1.0),
            freq_ramp(4.5, 1.0, 1.0, 0.0),
            freq_ramp(4.5, 1.0, 4.0, 2.0),
            amp_ramp(5.0, 6.0, 7.0, 3.0),
            freq_ramp(6.5, 4.0, 4.0, 0.0),
            // Iteration 3
            amp_ramp(8.0, 5.0, 5.0, 0.0),
            amp_ramp(8.0, 5.0, 6.0, 1.0),
            freq_ramp(8.5, 1.0, 1.0, 0.0),
            freq_ramp(8.5, 1.0, 4.0, 2.0),
            amp_ramp(9.0, 6.0, 7.0, 3.0),
            freq_ramp(10.5, 4.0, 4.0, 0.0),
            // Iteration 4...
            amp_ramp(12.0, 5.0, 5.0, 0.0),
        ],
    );
}

#[test]
fn looped_amplitude_envelope_with_emphasis_on_first_event() {
    check_looped_reader_output(
        TestClip {
            amplitude: &[
                emphasis_bp(0.0, 5.0, 2.0, 3.0),
                amp_bp(1.0, 6.0),
                amp_bp(4.0, 7.0),
            ],
            frequency: &[],
        },
        &[
            amp_ramp(0.0, 5.0, 5.0, 0.0),
            amp_ramp(0.0, 5.0, 6.0, 1.0),
            emphasis_event(0.0, 2.0, 3.0),
            amp_ramp(1.0, 6.0, 7.0, 3.0),
            // Iteration 2
            amp_ramp(4.0, 5.0, 5.0, 0.0),
            amp_ramp(4.0, 5.0, 6.0, 1.0),
            emphasis_event(4.0, 2.0, 3.0),
            amp_ramp(5.0, 6.0, 7.0, 3.0),
            // Iteration 3
            amp_ramp(8.0, 5.0, 5.0, 0.0),
            amp_ramp(8.0, 5.0, 6.0, 1.0),
            emphasis_event(8.0, 2.0, 3.0),
            amp_ramp(9.0, 6.0, 7.0, 3.0),
            // Iteration 4...
            amp_ramp(12.0, 5.0, 5.0, 0.0),
        ],
    );
}

#[test]
fn looped_amplitude_envelope_with_emphasis_on_last_event() {
    // This test demonstrates that emphasis on the last event is discarded,
    // even when looping is activated (you can think of the loop region as being
    // non-inclusive of the end breakpoint).
    check_looped_reader_output(
        TestClip {
            amplitude: &[
                amp_bp(0.0, 5.0),
                amp_bp(1.0, 6.0),
                emphasis_bp(4.0, 7.0, 2.0, 3.0),
            ],
            frequency: &[],
        },
        &[
            amp_ramp(0.0, 5.0, 5.0, 0.0),
            amp_ramp(0.0, 5.0, 6.0, 1.0),
            amp_ramp(1.0, 6.0, 7.0, 3.0),
            // Iteration 2
            amp_ramp(4.0, 5.0, 5.0, 0.0),
            amp_ramp(4.0, 5.0, 6.0, 1.0),
            amp_ramp(5.0, 6.0, 7.0, 3.0),
            // Iteration 3
            amp_ramp(8.0, 5.0, 5.0, 0.0),
            amp_ramp(8.0, 5.0, 6.0, 1.0),
            amp_ramp(9.0, 6.0, 7.0, 3.0),
            // Iteration 4...
            amp_ramp(12.0, 5.0, 5.0, 0.0),
        ],
    );
}

#[test]
fn looped_amplitude_envelope_after_seek() {
    check_looped_reader_output_after_seek(
        TestClip {
            amplitude: &[amp_bp(0.0, 5.0), amp_bp(1.0, 6.0), amp_bp(3.0, 7.0)],
            frequency: &[],
        },
        2.0,
        &[
            amp_ramp(2.0, 6.5, 6.5, 0.0),
            amp_ramp(2.0, 6.5, 7.0, 1.0),
            // Iteration 2
            amp_ramp(3.0, 5.0, 5.0, 0.0),
            amp_ramp(3.0, 5.0, 6.0, 1.0),
            amp_ramp(4.0, 6.0, 7.0, 2.0),
            // Iteration 3
            amp_ramp(6.0, 5.0, 5.0, 0.0),
            amp_ramp(6.0, 5.0, 6.0, 1.0),
            amp_ramp(7.0, 6.0, 7.0, 2.0),
            // Iteration 4...
            amp_ramp(9.0, 5.0, 5.0, 0.0),
        ],
    );
}

#[test]
fn looped_amplitude_and_frequency_envelopes_after_seek_that_matches_breakpoint() {
    check_looped_reader_output_after_seek(
        TestClip {
            amplitude: &[amp_bp(0.0, 5.0), amp_bp(1.0, 6.0), amp_bp(4.0, 7.0)],
            frequency: &[freq_bp(0.0, 0.0), freq_bp(2.0, 4.0)],
        },
        1.0,
        &[
            // The generated seek events appear first
            freq_ramp(1.0, 2.0, 2.0, 0.0),
            freq_ramp(1.0, 2.0, 4.0, 1.0),
            amp_ramp(1.0, 6.0, 6.0, 0.0),
            amp_ramp(1.0, 6.0, 7.0, 3.0),
            freq_ramp(2.0, 4.0, 4.0, 0.0),
            // Iteration 2
            amp_ramp(4.0, 5.0, 5.0, 0.0),
            amp_ramp(4.0, 5.0, 6.0, 1.0),
            freq_ramp(4.0, 0.0, 0.0, 0.0),
            freq_ramp(4.0, 0.0, 4.0, 2.0),
            amp_ramp(5.0, 6.0, 7.0, 3.0),
            freq_ramp(6.0, 4.0, 4.0, 0.0),
            // Iteration 3
            amp_ramp(8.0, 5.0, 5.0, 0.0),
            amp_ramp(8.0, 5.0, 6.0, 1.0),
            freq_ramp(8.0, 0.0, 0.0, 0.0),
            freq_ramp(8.0, 0.0, 4.0, 2.0),
            amp_ramp(9.0, 6.0, 7.0, 3.0),
            freq_ramp(10.0, 4.0, 4.0, 0.0),
            // Iteration 4...
            amp_ramp(12.0, 5.0, 5.0, 0.0),
        ],
    );
}

#[test]
fn looped_amplitude_envelope_after_negative_seek() {
    check_looped_reader_output_after_seek(
        TestClip {
            amplitude: &[amp_bp(0.0, 5.0), amp_bp(1.0, 6.0), amp_bp(4.0, 7.0)],
            frequency: &[],
        },
        -2.0,
        &[
            amp_ramp(-2.0, 0.0, 0.0, 0.0),
            amp_ramp(0.0, 5.0, 5.0, 0.0),
            amp_ramp(0.0, 5.0, 6.0, 1.0),
            amp_ramp(1.0, 6.0, 7.0, 3.0),
            // Iteration 2...
            amp_ramp(4.0, 5.0, 5.0, 0.0),
            amp_ramp(4.0, 5.0, 6.0, 1.0),
        ],
    );
}

#[test]
fn looped_envelope_after_seek_past_end() {
    check_looped_reader_output_after_seek(
        TestClip {
            amplitude: &[amp_bp(0.0, 5.0), amp_bp(1.0, 6.0), amp_bp(4.0, 7.0)],
            frequency: &[freq_bp(2.0, 3.0), freq_bp(3.0, 4.0)],
        },
        8.0,
        &[
            // Looping is enabled so playback starts from the loop start
            amp_ramp(0.0, 5.0, 5.0, 0.0),
            amp_ramp(0.0, 5.0, 6.0, 1.0),
            amp_ramp(1.0, 6.0, 7.0, 3.0),
            freq_ramp(2.0, 3.0, 3.0, 0.0),
            freq_ramp(2.0, 3.0, 4.0, 1.0),
            freq_ramp(3.0, 4.0, 4.0, 0.0),
            // Iteration 2...
            amp_ramp(4.0, 5.0, 5.0, 0.0),
            amp_ramp(4.0, 5.0, 6.0, 1.0),
            amp_ramp(5.0, 6.0, 7.0, 3.0),
            freq_ramp(6.0, 3.0, 3.0, 0.0),
            freq_ramp(6.0, 3.0, 4.0, 1.0),
            freq_ramp(7.0, 4.0, 4.0, 0.0),
        ],
    );
}

#[test]
fn looped_amplitude_envelope_with_shorter_frequency_envelope() {
    check_looped_reader_output(
        TestClip {
            amplitude: &[amp_bp(0.0, 1.0), amp_bp(1.0, 2.0), amp_bp(3.0, 3.0)],
            frequency: &[freq_bp(0.5, -1.0), freq_bp(2.5, -2.0)],
        },
        &[
            amp_ramp(0.0, 1.0, 1.0, 0.0),
            amp_ramp(0.0, 1.0, 2.0, 1.0),
            freq_ramp(0.5, -1.0, -1.0, 0.0),
            freq_ramp(0.5, -1.0, -2.0, 2.0),
            amp_ramp(1.0, 2.0, 3.0, 2.0),
            freq_ramp(2.5, -2.0, -2.0, 0.0),
            // Iteration 2
            amp_ramp(3.0, 1.0, 1.0, 0.0),
            amp_ramp(3.0, 1.0, 2.0, 1.0),
            freq_ramp(3.5, -1.0, -1.0, 0.0),
            freq_ramp(3.5, -1.0, -2.0, 2.0),
            amp_ramp(4.0, 2.0, 3.0, 2.0),
            freq_ramp(5.5, -2.0, -2.0, 0.0),
            // Iteration 3...
            amp_ramp(6.0, 1.0, 1.0, 0.0),
            amp_ramp(6.0, 1.0, 2.0, 1.0),
            freq_ramp(6.5, -1.0, -1.0, 0.0),
        ],
    );
}

#[test]
fn event_past_the_end() {
    check_reader_output(
        TestClip {
            amplitude: &[amp_bp(0.0, 1.0), amp_bp(3.0, 0.0)],
            frequency: &[freq_bp(2.0, 6.0), freq_bp(4.0, 1.0)],
        },
        &[
            amp_ramp(0.0, 1.0, 1.0, 0.0),
            amp_ramp(0.0, 1.0, 0.0, 3.0),
            freq_ramp(2.0, 6.0, 6.0, 0.0),
            freq_ramp(2.0, 6.0, 1.0, 2.0),
            amp_ramp(3.0, 0.0, 0.0, 0.0),
            // No terminating frequency event is expected, playback has finished
        ],
    );
}

#[test]
fn event_past_the_end_with_looping() {
    check_looped_reader_output(
        TestClip {
            amplitude: &[amp_bp(0.0, 1.0), amp_bp(3.0, 0.0)],
            frequency: &[freq_bp(2.0, 6.0), freq_bp(4.0, 1.0)],
        },
        &[
            amp_ramp(0.0, 1.0, 1.0, 0.0),
            amp_ramp(0.0, 1.0, 0.0, 3.0),
            freq_ramp(2.0, 6.0, 6.0, 0.0),
            freq_ramp(2.0, 6.0, 1.0, 2.0),
            // Iteration 2
            amp_ramp(3.0, 1.0, 1.0, 0.0),
            amp_ramp(3.0, 1.0, 0.0, 3.0),
            freq_ramp(5.0, 6.0, 6.0, 0.0),
            freq_ramp(5.0, 6.0, 1.0, 2.0),
            // Iteration 3...
            amp_ramp(6.0, 1.0, 1.0, 0.0),
            amp_ramp(6.0, 1.0, 0.0, 3.0),
            freq_ramp(8.0, 6.0, 6.0, 0.0),
        ],
    );
}

#[test]
fn amp_envelope_events_out_of_order() {
    check_reader_output(
        TestClip {
            amplitude: &[amp_bp(0.0, 3.0), amp_bp(1.0, 9.0), amp_bp(0.0, 0.0)],
            frequency: &[],
        },
        &[
            amp_ramp(0.0, 3.0, 3.0, 0.0),
            amp_ramp(0.0, 3.0, 9.0, 1.0),
            // A negative duration!
            amp_ramp(1.0, 9.0, 0.0, -1.0),
            amp_ramp(0.0, 0.0, 0.0, 0.0),
        ],
    );
}

#[test]
fn rc() {
    check_reader_output_with_owned_data(
        Rc::<HapticData>::new(
            TestClip {
                amplitude: &[amp_bp(0.0, 3.0), amp_bp(1.0, 9.0), amp_bp(3.0, 0.0)],
                frequency: &[],
            }
            .into(),
        ),
        &[
            amp_ramp(0.0, 3.0, 3.0, 0.0),
            amp_ramp(0.0, 3.0, 9.0, 1.0),
            amp_ramp(1.0, 9.0, 0.0, 2.0),
            amp_ramp(3.0, 0.0, 0.0, 0.0),
        ],
    );
}

#[test]
fn arc() {
    check_reader_output_with_owned_data(
        Arc::<HapticData>::new(
            TestClip {
                amplitude: &[amp_bp(0.0, 3.0), amp_bp(1.0, 9.0), amp_bp(3.0, 0.0)],
                frequency: &[],
            }
            .into(),
        ),
        &[
            amp_ramp(0.0, 3.0, 3.0, 0.0),
            amp_ramp(0.0, 3.0, 9.0, 1.0),
            amp_ramp(1.0, 9.0, 0.0, 2.0),
            amp_ramp(3.0, 0.0, 0.0, 0.0),
        ],
    );
}

#[test]
fn peek() {
    let clip = TestClip {
        amplitude: &[amp_bp(0.0, 5.0), amp_bp(1.0, 1.0)],
        frequency: &[],
    };
    let data: HapticData = clip.into();
    let mut reader = StreamingEventReader::new(&data);
    compare_ramp_events(amp_ramp(0.0, 5.0, 5.0, 0.0), reader.peek().unwrap(), 0);
}

#[test]
fn next_if() {
    let clip = TestClip {
        amplitude: &[amp_bp(0.0, 5.0), amp_bp(1.0, 1.0)],
        frequency: &[],
    };
    let data: HapticData = clip.into();
    let mut reader = StreamingEventReader::new(&data);

    assert!(reader.next_if(|event| event.is_frequency_ramp()).is_none());
    compare_ramp_events(
        amp_ramp(0.0, 5.0, 5.0, 0.0),
        reader.next_if(|event| event.is_amplitude_ramp()).unwrap(),
        0,
    );

    assert!(reader.next_if(|event| event.is_frequency_ramp()).is_none());
    compare_ramp_events(
        amp_ramp(0.0, 5.0, 1.0, 1.0),
        reader.next_if(|event| event.is_amplitude_ramp()).unwrap(),
        1,
    );
}

#[test]
fn peeking_take_while() {

    let clip = TestClip {
        amplitude: &[amp_bp(0.0, 5.0), amp_bp(1.0, 1.0)],
        frequency: &[],
    };
    let data: HapticData = clip.into();
    let mut reader = StreamingEventReader::new(&data);

    let events: Vec<Event> = reader
        .peeking_take_while(|event| event.time() < 1.0)
        .collect();
    compare_ramp_event_slices(
        &[amp_ramp(0.0, 5.0, 5.0, 0.0), amp_ramp(0.0, 5.0, 1.0, 1.0)],
        &events,
    );

    compare_ramp_events(amp_ramp(1.0, 1.0, 0.0, 0.0), reader.next().unwrap(), 0);
}
