//! Version 1 of the `HapticData` format, and its validation rules

use vstd::prelude::*;
use crate::float_bits::F32Bits;
use crate::float_bits::ZERO_BITS;
use crate::version::Version;

verus! {

/// The version written into newly created `HapticData`
pub open spec fn current_version() -> Version {
    Version { major: 1, minor: 0, patch: 0 }
}

/// The primary haptic data format supported by HapticsSDK
///
/// Haptic data is typically serialized as JSON data in a file with a .haptic extension.
#[derive(Debug, Clone, PartialEq)]
pub struct HapticData {
    /// The haptic data's version
    pub version: Version,
    /// Metadata associated with the haptic data
    pub metadata: MetaData,
    /// The signals contained in the haptic data
    pub signals: Signals,
}

/// Defines how strict the validation of the haptic data is
#[derive(Clone, Copy, Debug, PartialEq, Eq, Structural)]
pub enum ValidationMode {
    /// Validation will fail if any rule check fails
    Strict,
    /// Validation will fail for most rule check failures
    ///
    /// Frequency breakpoints are allowed outside of the amplitude envelope's time range, to stay
    /// compatible with .haptic files that were created with earlier versions of Haptics Studio.
    LegacyCompatibility,
}

/// The different kinds of haptic data validation errors that can occur
#[derive(Clone, Copy, Debug, PartialEq)]
pub enum ValidationError {
    AmplitudeOutOfRange { time: F32Bits, amplitude: F32Bits },
    AmplitudeBreakpointsOutOfOrder { time: F32Bits, previous_time: F32Bits },
    EmphasisAmplitudeOutOfRange { time: F32Bits, amplitude: F32Bits },
    EmphasisFrequencyOutOfRange { time: F32Bits, frequency: F32Bits },
    EmphasisAmpLowerThanEnvelopeAmp { time: F32Bits, emphasis_amp: F32Bits, envelope_amp: F32Bits },
    InsufficientAmplitudeBreakpoints,
    AmplitudeEnvelopeHasZeroDuration,
    FrequencyOutOfRange { time: F32Bits, frequency: F32Bits },
    FrequencyBreakpointsOutOfOrder { time: F32Bits, previous_time: F32Bits },
    FrequencyBreakpointOutsideAmplitudeEnvelope { time: F32Bits, amplitude_envelope_end: F32Bits },
}

/// Optional metadata
#[derive(Clone, Debug, PartialEq, Eq)]
pub struct MetaData {
    /// The name of the editor that was used to create the `HapticData`
    pub editor: String,
    /// The name of the `HapticData`s author
    pub author: String,
    /// The source of the `HapticData`'s contents,
    /// e.g. the name of the audio file that was analyzed to produce the haptic data.
    pub source: String,
    /// The name of the `HapticData`s project
    pub project: String,
    /// A series of tags that can be attached to the `HapticData`
    pub tags: Vec<String>,
    /// A description of the `HapticData's` contents
    pub description: String,
}

/// Signal structure that describes haptic data
#[derive(Clone, Debug, PartialEq)]
pub struct Signals {
    /// The continuous signal
    pub continuous: SignalContinuous,
}

/// Represents a decomposed haptic signal over a period of time
#[derive(Clone, Debug, PartialEq)]
pub struct SignalContinuous {
    /// The envelopes contained in the continuous signal
    pub envelopes: Envelopes,
}

/// Envelopes of a `SignalContinuous`
#[derive(Clone, Debug, PartialEq)]
pub struct Envelopes {
    /// The amplitude envelope
    pub amplitude: Vec<AmplitudeBreakpoint>,
    /// The optional frequency envelope
    pub frequency: Option<Vec<FrequencyBreakpoint>>,
}

/// Amplitude breakpoint, optionally carrying emphasis
#[derive(Clone, Copy, Debug, PartialEq)]
pub struct AmplitudeBreakpoint {
    /// The breakpoint's time
    pub time: F32Bits,
    /// The breakpoint's amplitude
    pub amplitude: F32Bits,
    /// The breakpoint's optional emphasis
    pub emphasis: Option<Emphasis>,
}

/// Emphasis associated with an amplitude breakpoint
#[derive(Clone, Copy, Debug, PartialEq)]
pub struct Emphasis {
    /// The amplitude of the emphasis event
    pub amplitude: F32Bits,
    /// The frequency of the emphasis event
    pub frequency: F32Bits,
}

/// Frequency breakpoint
#[derive(Clone, Copy, Debug, PartialEq)]
pub struct FrequencyBreakpoint {
    /// The time of the breakpoint
    pub time: F32Bits,
    /// The frequency of the breakpoint
    pub frequency: F32Bits,
}

impl Default for MetaData {
    fn default() -> (r: Self)
        ensures
            r.editor@.len() == 0,
            r.author@.len() == 0,
            r.source@.len() == 0,
            r.project@.len() == 0,
            r.tags@.len() == 0,
            r.description@.len() == 0,
    {
        MetaData {
            editor: String::new(),
            author: String::new(),
            source: String::new(),
            project: String::new(),
            tags: Vec::new(),
            description: String::new(),
        }
    }
}

impl Default for Envelopes {
    fn default() -> (r: Self)
        ensures
            r.amplitude@.len() == 0,
            r.frequency is None,
    {
        Envelopes { amplitude: Vec::new(), frequency: None }
    }
}

impl Default for SignalContinuous {
    fn default() -> (r: Self)
        ensures
            r.envelopes.amplitude@.len() == 0,
            r.envelopes.frequency is None,
    {
        SignalContinuous { envelopes: Envelopes::default() }
    }
}

impl Default for Signals {
    fn default() -> (r: Self)
        ensures
            r.continuous.envelopes.amplitude@.len() == 0,
            r.continuous.envelopes.frequency is None,
    {
        Signals { continuous: SignalContinuous::default() }
    }
}

impl Default for HapticData {
    fn default() -> (r: Self)
        ensures
            r.version == current_version(),
            r.metadata.editor@.len() == 0,
            r.metadata.author@.len() == 0,
            r.metadata.source@.len() == 0,
            r.metadata.project@.len() == 0,
            r.metadata.tags@.len() == 0,
            r.metadata.description@.len() == 0,
            r.signals.continuous.envelopes.amplitude@.len() == 0,
            r.signals.continuous.envelopes.frequency is None,
    {
        HapticData {
            version: Version { major: 1, minor: 0, patch: 0 },
            metadata: MetaData::default(),
            signals: Signals::default(),
        }
    }
}

/// The time that the breakpoint at index `i` is checked against for ordering:
/// the previous breakpoint's time, or `0.0` for the first breakpoint
pub open spec fn amplitude_previous_time(bps: Seq<AmplitudeBreakpoint>, i: int) -> F32Bits {
    if i <= 0 {
        F32Bits { bits: ZERO_BITS }
    } else {
        bps[i - 1].time
    }
}

/// The rule checks for one amplitude breakpoint, in the order in which they are applied
pub open spec fn amplitude_breakpoint_error(
    bp: AmplitudeBreakpoint,
    previous_time: F32Bits,
) -> Option<ValidationError> {
    if !bp.amplitude.in_unit_range() {
        Some(ValidationError::AmplitudeOutOfRange { time: bp.time, amplitude: bp.amplitude })
    } else if bp.time.ieee_lt(previous_time) {
        Some(ValidationError::AmplitudeBreakpointsOutOfOrder { time: bp.time, previous_time })
    } else {
        match bp.emphasis {
            Some(emphasis) => {
                if !emphasis.amplitude.in_unit_range() {
                    Some(
                        ValidationError::EmphasisAmplitudeOutOfRange {
                            time: bp.time,
                            amplitude: emphasis.amplitude,
                        },
                    )
                } else if !emphasis.frequency.in_unit_range() {
                    Some(
                        ValidationError::EmphasisFrequencyOutOfRange {
                            time: bp.time,
                            frequency: emphasis.frequency,
                        },
                    )
                } else if emphasis.amplitude.ieee_lt(bp.amplitude) {
                    Some(
                        ValidationError::EmphasisAmpLowerThanEnvelopeAmp {
                            time: bp.time,
                            emphasis_amp: emphasis.amplitude,
                            envelope_amp: bp.amplitude,
                        },
                    )
                } else {
                    None
                }
            },
            None => None,
        }
    }
}

/// The first amplitude breakpoint error at or after index `i`
pub open spec fn first_amplitude_error(bps: Seq<AmplitudeBreakpoint>, i: int) -> Option<
    ValidationError,
>
    decreases bps.len() - i,
{
    if i < 0 || i >= bps.len() {
        None
    } else {
        match amplitude_breakpoint_error(bps[i], amplitude_previous_time(bps, i)) {
            Some(e) => Some(e),
            None => first_amplitude_error(bps, i + 1),
        }
    }
}

/// The time that the frequency breakpoint at index `i` is checked against for ordering
pub open spec fn frequency_previous_time(bps: Seq<FrequencyBreakpoint>, i: int) -> F32Bits {
    if i <= 0 {
        F32Bits { bits: ZERO_BITS }
    } else {
        bps[i - 1].time
    }
}

/// The rule checks for one frequency breakpoint, in the order in which they are applied
///
/// `start` and `end` are the times of the first and last amplitude breakpoints.
pub open spec fn frequency_breakpoint_error(
    bp: FrequencyBreakpoint,
    previous_time: F32Bits,
    strict: bool,
    start: F32Bits,
    end: F32Bits,
) -> Option<ValidationError> {
    if !bp.frequency.in_unit_range() {
        Some(ValidationError::FrequencyOutOfRange { time: bp.time, frequency: bp.frequency })
    } else if bp.time.ieee_lt(previous_time) {
        Some(ValidationError::FrequencyBreakpointsOutOfOrder { time: bp.time, previous_time })
    } else if strict && !(start.ieee_le(bp.time) && bp.time.ieee_le(end)) {
        Some(
            ValidationError::FrequencyBreakpointOutsideAmplitudeEnvelope {
                time: bp.time,
                amplitude_envelope_end: end,
            },
        )
    } else {
        None
    }
}

/// The first frequency breakpoint error at or after index `i`
pub open spec fn first_frequency_error(
    bps: Seq<FrequencyBreakpoint>,
    i: int,
    strict: bool,
    start: F32Bits,
    end: F32Bits,
) -> Option<ValidationError>
    decreases bps.len() - i,
{
    if i < 0 || i >= bps.len() {
        None
    } else {
        match frequency_breakpoint_error(bps[i], frequency_previous_time(bps, i), strict, start, end) {
            Some(e) => Some(e),
            None => first_frequency_error(bps, i + 1, strict, start, end),
        }
    }
}

/// The error that validation reports for the given envelopes, or `None` when they are valid
///
/// The amplitude breakpoints are checked first, in order; then the amplitude envelope must have
/// at least two breakpoints and a positive duration; then the frequency breakpoints are checked
/// in order.
pub open spec fn envelope_error(
    amplitude: Seq<AmplitudeBreakpoint>,
    frequency: Option<Seq<FrequencyBreakpoint>>,
    mode: ValidationMode,
) -> Option<ValidationError> {
    match first_amplitude_error(amplitude, 0) {
        Some(e) => Some(e),
        None => {
            if amplitude.len() < 2 {
                Some(ValidationError::InsufficientAmplitudeBreakpoints)
            } else if !amplitude[0].time.ieee_lt(amplitude.last().time) {
                Some(ValidationError::AmplitudeEnvelopeHasZeroDuration)
            } else {
                match frequency {
                    Some(f) => first_frequency_error(
                        f,
                        0,
                        mode == ValidationMode::Strict,
                        amplitude[0].time,
                        amplitude.last().time,
                    ),
                    None => None,
                }
            }
        },
    }
}

/// The frequency envelope of haptic data as a sequence, when present
pub open spec fn frequency_seq(data: HapticData) -> Option<Seq<FrequencyBreakpoint>> {
    match data.signals.continuous.envelopes.frequency {
        Some(f) => Some(f@),
        None => None,
    }
}

/// The error that validation reports for `data`, or `None` when it is valid
pub open spec fn validation_error(data: HapticData, mode: ValidationMode) -> Option<
    ValidationError,
> {
    envelope_error(data.signals.continuous.envelopes.amplitude@, frequency_seq(data), mode)
}

/// The rules for one amplitude breakpoint: amplitude in `0.0..=1.0`, time not before the
/// previous breakpoint's time (or `0.0` for the first breakpoint), and any emphasis with
/// amplitude and frequency in `0.0..=1.0` and an amplitude not below the breakpoint's amplitude
pub open spec fn amplitude_breakpoint_follows_rules(bps: Seq<AmplitudeBreakpoint>, i: int) -> bool {
    let bp = bps[i];
    &&& bp.amplitude.in_unit_range()
    &&& !bp.time.ieee_lt(amplitude_previous_time(bps, i))
    &&& (bp.emphasis matches Some(e) ==> {
        &&& e.amplitude.in_unit_range()
        &&& e.frequency.in_unit_range()
        &&& !e.amplitude.ieee_lt(bp.amplitude)
    })
}

/// The rules for one frequency breakpoint: frequency in `0.0..=1.0`, time not before the
/// previous breakpoint's time (or `0.0`), and, in strict mode, time within `start..=end`
pub open spec fn frequency_breakpoint_follows_rules(
    bps: Seq<FrequencyBreakpoint>,
    i: int,
    strict: bool,
    start: F32Bits,
    end: F32Bits,
) -> bool {
    let bp = bps[i];
    &&& bp.frequency.in_unit_range()
    &&& !bp.time.ieee_lt(frequency_previous_time(bps, i))
    &&& (strict ==> start.ieee_le(bp.time) && bp.time.ieee_le(end))
}

/// Haptic data is valid when every amplitude breakpoint follows its rules, there are at least
/// two amplitude breakpoints, the first one's time is before the last one's, and every frequency
/// breakpoint follows its rules (in strict mode: lies within the amplitude envelope's time range)
pub open spec fn follows_rules(data: HapticData, mode: ValidationMode) -> bool {
    let amp = data.signals.continuous.envelopes.amplitude@;
    let strict = mode == ValidationMode::Strict;
    &&& forall|i: int| 0 <= i < amp.len() ==> #[trigger] amplitude_breakpoint_follows_rules(amp, i)
    &&& amp.len() >= 2
    &&& amp[0].time.ieee_lt(amp.last().time)
    &&& (frequency_seq(data) matches Some(freq) ==> forall|i: int|
        0 <= i < freq.len() ==> #[trigger] frequency_breakpoint_follows_rules(
            freq,
            i,
            strict,
            amp[0].time,
            amp.last().time,
        ))
}

proof fn lemma_first_amplitude_error_none(bps: Seq<AmplitudeBreakpoint>, i: int)
    requires
        0 <= i <= bps.len(),
    ensures
        first_amplitude_error(bps, i) is None <==> forall|j: int|
            i <= j < bps.len() ==> #[trigger] amplitude_breakpoint_follows_rules(bps, j),
    decreases bps.len() - i,
{
    if i < bps.len() {
        lemma_first_amplitude_error_none(bps, i + 1);
        assert(amplitude_breakpoint_error(bps[i], amplitude_previous_time(bps, i)) is None
            <==> amplitude_breakpoint_follows_rules(bps, i));
        if first_amplitude_error(bps, i) is None {
            assert forall|j: int| i <= j < bps.len() implies amplitude_breakpoint_follows_rules(
                bps,
                j,
            ) by {
                if j > i {
                    assert(i + 1 <= j);
                }
            }
        } else {
            if forall|j: int| i <= j < bps.len() ==> #[trigger] amplitude_breakpoint_follows_rules(bps, j) {
                assert(amplitude_breakpoint_follows_rules(bps, i));
                assert(forall|j: int| i + 1 <= j < bps.len() ==> #[trigger] amplitude_breakpoint_follows_rules(bps, j));
            }
        }
    }
}

proof fn lemma_first_frequency_error_none(
    bps: Seq<FrequencyBreakpoint>,
    i: int,
    strict: bool,
    start: F32Bits,
    end: F32Bits,
)
    requires
        0 <= i <= bps.len(),
    ensures
        first_frequency_error(bps, i, strict, start, end) is None <==> forall|j: int|
            i <= j < bps.len() ==> #[trigger] frequency_breakpoint_follows_rules(bps, j, strict, start, end),
    decreases bps.len() - i,
{
    if i < bps.len() {
        lemma_first_frequency_error_none(bps, i + 1, strict, start, end);
        assert(frequency_breakpoint_error(bps[i], frequency_previous_time(bps, i), strict, start, end) is None
            <==> frequency_breakpoint_follows_rules(bps, i, strict, start, end));
        if first_frequency_error(bps, i, strict, start, end) is None {
            assert forall|j: int| i <= j < bps.len() implies frequency_breakpoint_follows_rules(
                bps,
                j,
                strict,
                start,
                end,
            ) by {
                if j > i {
                    assert(i + 1 <= j);
                }
            }
        } else {
            if forall|j: int| i <= j < bps.len() ==> #[trigger] frequency_breakpoint_follows_rules(bps, j, strict, start, end) {
                assert(frequency_breakpoint_follows_rules(bps, i, strict, start, end));
                assert(forall|j: int| i + 1 <= j < bps.len() ==> #[trigger] frequency_breakpoint_follows_rules(bps, j, strict, start, end));
            }
        }
    }
}

/// Validation accepts exactly the haptic data that follows the format's rules: it succeeds if
/// and only if every rule holds, and then hands the data back unchanged.
pub proof fn validation_accepts_exactly_the_rules(data: HapticData, mode: ValidationMode)
    ensures
        validation_error(data, mode) is None <==> follows_rules(data, mode),
{
    let amp = data.signals.continuous.envelopes.amplitude@;
    lemma_first_amplitude_error_none(amp, 0);
    if amp.len() >= 2 {
        match frequency_seq(data) {
            Some(freq) => {
                lemma_first_frequency_error_none(
                    freq,
                    0,
                    mode == ValidationMode::Strict,
                    amp[0].time,
                    amp.last().time,
                );
            },
            None => {},
        }
    }
}

/// Legacy compatibility validation is weaker than strict validation: whatever passes strict
/// validation also passes legacy validation.
pub proof fn strict_validation_implies_legacy(data: HapticData)
    ensures
        validation_error(data, ValidationMode::Strict) is None ==> validation_error(
            data,
            ValidationMode::LegacyCompatibility,
        ) is None,
{
    validation_accepts_exactly_the_rules(data, ValidationMode::Strict);
    validation_accepts_exactly_the_rules(data, ValidationMode::LegacyCompatibility);
    let amp = data.signals.continuous.envelopes.amplitude@;
    if follows_rules(data, ValidationMode::Strict) {
        match frequency_seq(data) {
            Some(freq) => {
                assert forall|i: int| 0 <= i < freq.len() implies #[trigger] frequency_breakpoint_follows_rules(
                    freq,
                    i,
                    false,
                    amp[0].time,
                    amp.last().time,
                ) by {
                    assert(frequency_breakpoint_follows_rules(freq, i, true, amp[0].time, amp.last().time));
                }
            },
            None => {},
        }
    }
}

proof fn lemma_legacy_frequency_error(
    bps: Seq<FrequencyBreakpoint>,
    i: int,
    start: F32Bits,
    end: F32Bits,
)
    requires
        0 <= i <= bps.len(),
    ensures
        !(first_frequency_error(bps, i, false, start, end) matches Some(
            ValidationError::FrequencyBreakpointOutsideAmplitudeEnvelope { .. },
        )),
        (first_frequency_error(bps, i, true, start, end) matches Some(e)
            && !(e is FrequencyBreakpointOutsideAmplitudeEnvelope)) ==> first_frequency_error(
            bps,
            i,
            false,
            start,
            end,
        ) == first_frequency_error(bps, i, true, start, end),
    decreases bps.len() - i,
{
    if i < bps.len() {
        lemma_legacy_frequency_error(bps, i + 1, start, end);
    }
}

/// Legacy compatibility validation drops exactly one rule of strict validation, that frequency
/// breakpoints lie within the amplitude envelope's time range: it never reports that error, and
/// every other error that strict validation reports, legacy validation reports too.
pub proof fn legacy_validation_drops_only_the_envelope_range_rule(data: HapticData)
    ensures
        !(validation_error(data, ValidationMode::LegacyCompatibility) matches Some(
            ValidationError::FrequencyBreakpointOutsideAmplitudeEnvelope { .. },
        )),
        (validation_error(data, ValidationMode::Strict) matches Some(e)
            && !(e is FrequencyBreakpointOutsideAmplitudeEnvelope)) ==> validation_error(
            data,
            ValidationMode::LegacyCompatibility,
        ) == validation_error(data, ValidationMode::Strict),
{
    let amp = data.signals.continuous.envelopes.amplitude@;
    if amp.len() >= 2 {
        match frequency_seq(data) {
            Some(freq) => {
                lemma_legacy_frequency_error(freq, 0, amp[0].time, amp.last().time);
            },
            None => {},
        }
    }
    lemma_first_amplitude_error_kind(amp, 0);
}

proof fn lemma_first_amplitude_error_kind(bps: Seq<AmplitudeBreakpoint>, i: int)
    requires
        0 <= i <= bps.len(),
    ensures
        !(first_amplitude_error(bps, i) matches Some(
            ValidationError::FrequencyBreakpointOutsideAmplitudeEnvelope { .. },
        )),
    decreases bps.len() - i,
{
    if i < bps.len() {
        lemma_first_amplitude_error_kind(bps, i + 1);
    }
}

/// Valid haptic data keeps its breakpoints in time order and its values in range: when
/// validation succeeds (in either mode), no amplitude or frequency breakpoint's time is before the
/// time of the breakpoint just before it, the first breakpoint of each envelope is not before
/// time zero, every amplitude, frequency and emphasis value lies in `0.0..=1.0`, and in strict
/// mode every frequency breakpoint lies within the amplitude envelope's time range.
pub proof fn valid_data_is_ordered_and_in_range(data: HapticData, mode: ValidationMode)
    requires
        validation_error(data, mode) is None,
    ensures
        ({
            let amp = data.signals.continuous.envelopes.amplitude@;
            let zero = F32Bits { bits: ZERO_BITS };
            &&& amp.len() >= 2
            &&& amp[0].time.ieee_lt(amp[amp.len() - 1].time)
            &&& !amp[0].time.ieee_lt(zero)
            &&& forall|i: int|
                0 < i < amp.len() ==> !(#[trigger] amp[i]).time.ieee_lt(amp[i - 1].time)
            &&& forall|i: int| 0 <= i < amp.len() ==> (#[trigger] amp[i]).amplitude.in_unit_range()
            &&& forall|i: int|
                0 <= i < amp.len() ==> ((#[trigger] amp[i]).emphasis matches Some(e) ==> {
                    &&& e.amplitude.in_unit_range()
                    &&& e.frequency.in_unit_range()
                    &&& !e.amplitude.ieee_lt(amp[i].amplitude)
                })
            &&& (data.signals.continuous.envelopes.frequency matches Some(v) ==> {
                let freq = v@;
                &&& (freq.len() > 0 ==> !freq[0].time.ieee_lt(zero))
                &&& forall|i: int|
                    0 < i < freq.len() ==> !(#[trigger] freq[i]).time.ieee_lt(freq[i - 1].time)
                &&& forall|i: int|
                    0 <= i < freq.len() ==> (#[trigger] freq[i]).frequency.in_unit_range()
                &&& mode == ValidationMode::Strict ==> forall|i: int|
                    0 <= i < freq.len() ==> amp[0].time.ieee_le((#[trigger] freq[i]).time)
                        && freq[i].time.ieee_le(amp[amp.len() - 1].time)
            })
        }),
{
    validation_accepts_exactly_the_rules(data, mode);
    let amp = data.signals.continuous.envelopes.amplitude@;
    assert(amplitude_breakpoint_follows_rules(amp, 0));
    assert forall|i: int| 0 < i < amp.len() implies !(#[trigger] amp[i]).time.ieee_lt(
        amp[i - 1].time,
    ) by {
        assert(amplitude_breakpoint_follows_rules(amp, i));
    }
    assert forall|i: int| 0 <= i < amp.len() implies (#[trigger] amp[i]).amplitude.in_unit_range() by {
        assert(amplitude_breakpoint_follows_rules(amp, i));
    }
    assert forall|i: int|
        0 <= i < amp.len() implies ((#[trigger] amp[i]).emphasis matches Some(e) ==> {
            &&& e.amplitude.in_unit_range()
            &&& e.frequency.in_unit_range()
            &&& !e.amplitude.ieee_lt(amp[i].amplitude)
        }) by {
        assert(amplitude_breakpoint_follows_rules(amp, i));
    }
    if let Some(v) = data.signals.continuous.envelopes.frequency {
        let freq = v@;
        let strict = mode == ValidationMode::Strict;
        if freq.len() > 0 {
            assert(frequency_breakpoint_follows_rules(freq, 0, strict, amp[0].time, amp.last().time));
        }
        assert forall|i: int| 0 < i < freq.len() implies !(#[trigger] freq[i]).time.ieee_lt(
            freq[i - 1].time,
        ) by {
            assert(frequency_breakpoint_follows_rules(freq, i, strict, amp[0].time, amp.last().time));
        }
        assert forall|i: int| 0 <= i < freq.len() implies (#[trigger] freq[i]).frequency.in_unit_range() by {
            assert(frequency_breakpoint_follows_rules(freq, i, strict, amp[0].time, amp.last().time));
        }
        if strict {
            assert forall|i: int| 0 <= i < freq.len() implies amp[0].time.ieee_le(
                (#[trigger] freq[i]).time,
            ) && freq[i].time.ieee_le(amp[amp.len() - 1].time) by {
                assert(frequency_breakpoint_follows_rules(freq, i, strict, amp[0].time, amp.last().time));
            }
        }
    }
}

/// Validation reports a failure for every amplitude envelope with fewer than two breakpoints,
/// whatever the rest of the data holds.
pub proof fn short_amplitude_envelopes_are_invalid(data: HapticData, mode: ValidationMode)
    requires
        data.signals.continuous.envelopes.amplitude@.len() < 2,
    ensures
        validation_error(data, mode) is Some,
{
    validation_accepts_exactly_the_rules(data, mode);
}

/// Checks the amplitude breakpoints, returning the first error
fn check_amplitude_breakpoints(bps: &Vec<AmplitudeBreakpoint>) -> (r: Option<ValidationError>)
    ensures
        r == first_amplitude_error(bps@, 0),
{
    let mut last_time = F32Bits::zero();
    let mut i: usize = 0;
    while i < bps.len()
        invariant
            i <= bps@.len(),
            last_time == amplitude_previous_time(bps@, i as int),
            first_amplitude_error(bps@, 0) == first_amplitude_error(bps@, i as int),
        decreases bps@.len() - i,
    {
        let bp = bps[i];
        if !bp.amplitude.is_in_unit_range() {
            return Some(
                ValidationError::AmplitudeOutOfRange { time: bp.time, amplitude: bp.amplitude },
            );
        }
        if bp.time.less_than(&last_time) {
            return Some(
                ValidationError::AmplitudeBreakpointsOutOfOrder {
                    time: bp.time,
                    previous_time: last_time,
                },
            );
        }
        last_time = bp.time;
        if let Some(emphasis) = bp.emphasis {
            if !emphasis.amplitude.is_in_unit_range() {
                return Some(
                    ValidationError::EmphasisAmplitudeOutOfRange {
                        time: bp.time,
                        amplitude: emphasis.amplitude,
                    },
                );
            }
            if !emphasis.frequency.is_in_unit_range() {
                return Some(
                    ValidationError::EmphasisFrequencyOutOfRange {
                        time: bp.time,
                        frequency: emphasis.frequency,
                    },
                );
            }
            if emphasis.amplitude.less_than(&bp.amplitude) {
                return Some(
                    ValidationError::EmphasisAmpLowerThanEnvelopeAmp {
                        time: bp.time,
                        emphasis_amp: emphasis.amplitude,
                        envelope_amp: bp.amplitude,
                    },
                );
            }
        }
        i = i + 1;
    }
    None
}

/// Checks the frequency breakpoints, returning the first error
fn check_frequency_breakpoints(
    bps: &Vec<FrequencyBreakpoint>,
    strict: bool,
    start: F32Bits,
    end: F32Bits,
) -> (r: Option<ValidationError>)
    ensures
        r == first_frequency_error(bps@, 0, strict, start, end),
{
    let mut last_time = F32Bits::zero();
    let mut i: usize = 0;
    while i < bps.len()
        invariant
            i <= bps@.len(),
            last_time == frequency_previous_time(bps@, i as int),
            first_frequency_error(bps@, 0, strict, start, end) == first_frequency_error(
                bps@,
                i as int,
                strict,
                start,
                end,
            ),
        decreases bps@.len() - i,
    {
        let bp = bps[i];
        if !bp.frequency.is_in_unit_range() {
            return Some(
                ValidationError::FrequencyOutOfRange { time: bp.time, frequency: bp.frequency },
            );
        }
        if bp.time.less_than(&last_time) {
            return Some(
                ValidationError::FrequencyBreakpointsOutOfOrder {
                    time: bp.time,
                    previous_time: last_time,
                },
            );
        }
        if strict && !(start.less_or_equal(&bp.time) && bp.time.less_or_equal(&end)) {
            return Some(
                ValidationError::FrequencyBreakpointOutsideAmplitudeEnvelope {
                    time: bp.time,
                    amplitude_envelope_end: end,
                },
            );
        }
        last_time = bp.time;
        i = i + 1;
    }
    None
}

impl HapticData {
    /// Validates the haptic data, returning it unchanged when it's valid
    ///
    /// Examples of invalid HapticData
    /// - Breakpoints and emphasis values are < 0.0 or > 1.0.
    /// - The breakpoint time values are not consecutive.
    /// - Emphasis amplitude is smaller than breakpoint amplitude value
    ///
    /// The amplitude envelope's duration is required to be positive; for IEEE values,
    /// `last - first > 0.0` holds exactly when `first < last`, which is how it's checked here.
    pub fn validate(self, validation_mode: ValidationMode) -> (r: Result<Self, ValidationError>)
        ensures
            match validation_error(self, validation_mode) {
                Some(e) => r == Err::<HapticData, ValidationError>(e),
                None => r == Ok::<HapticData, ValidationError>(self),
            },
    {
        let amp_error = check_amplitude_breakpoints(&self.signals.continuous.envelopes.amplitude);
        if let Some(e) = amp_error {
            return Err(e);
        }
        let n = self.signals.continuous.envelopes.amplitude.len();
        if n < 2 {
            return Err(ValidationError::InsufficientAmplitudeBreakpoints);
        }
        let start = self.signals.continuous.envelopes.amplitude[0].time;
        let end = self.signals.continuous.envelopes.amplitude[n - 1].time;
        if !start.less_than(&end) {
            return Err(ValidationError::AmplitudeEnvelopeHasZeroDuration);
        }
        let strict = match validation_mode {
            ValidationMode::Strict => true,
            ValidationMode::LegacyCompatibility => false,
        };
        let freq_error = match &self.signals.continuous.envelopes.frequency {
            Some(frequency) => check_frequency_breakpoints(frequency, strict, start, end),
            None => None,
        };
        match freq_error {
            Some(e) => Err(e),
            None => Ok(self),
        }
    }
}

} // verus!
