//! Support for the AHAP file format (Core Haptics), and splitting an AHAP into its
//! continuous and transient components

use vstd::prelude::*;
use crate::float_bits::F32Bits;
use crate::float_bits::ONE_BITS;

verus! {

/// Core Haptics AHAP format, root structure
///
/// See <https://developer.apple.com/documentation/corehaptics/representing_haptic_patterns_in_ahap_files>
#[derive(Debug)]
pub struct Ahap {
    pub version: F32Bits,
    pub pattern: Vec<Pattern>,
}

/// Core Haptics AHAP format, Pattern enum
///
/// AHAP also has a Parameter variant, but it's omitted here since it's not used.
#[derive(Debug)]
pub enum Pattern {
    Event(Event),
    ParameterCurve(ParameterCurve),
}

/// Core Haptics AHAP format, Event structure
#[derive(Debug)]
pub enum Event {
    HapticContinuous {
        time: F32Bits,
        event_duration: F32Bits,
        event_parameters: Vec<EventParameter>,
    },
    HapticTransient { time: F32Bits, event_parameters: Vec<EventParameter> },
}

/// Core Haptics AHAP format, EventParameter structure
#[derive(Debug, Copy, Clone)]
pub struct EventParameter {
    pub parameter_id: ParameterId,
    pub parameter_value: F32Bits,
}

/// Core Haptics AHAP format, Parameter structure
#[derive(Debug)]
pub struct Parameter {
    pub parameter_id: DynamicParameterId,
    pub parameter_value: F32Bits,
    pub time: F32Bits,
}

/// Core Haptics AHAP format, ParameterCurve structure
#[derive(Debug)]
pub struct ParameterCurve {
    pub parameter_id: DynamicParameterId,
    pub time: F32Bits,
    pub parameter_curve_control_points: Vec<ParameterCurveControlPoint>,
}

/// Core Haptics AHAP format, ParameterId type for ParameterCurve
#[derive(Debug, PartialEq, Eq, Clone, Copy, Structural)]
pub enum DynamicParameterId {
    HapticIntensityControl,
    HapticSharpnessControl,
}

/// Core Haptics AHAP format, ParameterId type for EventParameter
#[derive(Debug, PartialEq, Eq, Copy, Clone, Structural)]
pub enum ParameterId {
    HapticIntensity,
    HapticSharpness,
}

/// Core Haptics AHAP format, ParameterCurveControlPoint structure
#[derive(Debug, Copy, Clone)]
pub struct ParameterCurveControlPoint {
    pub time: F32Bits,
    pub parameter_value: F32Bits,
}

/// An [Ahap] that is split into its continuous and transient components.
///
/// Such a split is useful when playing back a haptic clip with the Core Haptics API. If everything
/// is in one AHAP, Core Haptic's CHHapticPatternPlayer modulates the transients based on the
/// contents of the continuous curves. Loading [SplitAhap::continuous] and
/// [SplitAhap::transients] into two different players keeps the transients independent.
#[derive(Debug)]
pub struct SplitAhap {
    /// The continuous component of the AHAP
    pub continuous: Ahap,
    /// The transients component of the AHAP, `None` if there were no transients
    pub transients: Option<Ahap>,
}

impl Default for DynamicParameterId {
    fn default() -> (r: Self)
        ensures
            r == DynamicParameterId::HapticIntensityControl,
    {
        DynamicParameterId::HapticIntensityControl
    }
}

impl Default for ParameterCurveControlPoint {
    fn default() -> (r: Self)
        ensures
            r.time.bits == 0,
            r.parameter_value.bits == 0,
    {
        ParameterCurveControlPoint { time: F32Bits::zero(), parameter_value: F32Bits::zero() }
    }
}

impl Default for ParameterCurve {
    fn default() -> (r: Self)
        ensures
            r.parameter_id == DynamicParameterId::HapticIntensityControl,
            r.time.bits == 0,
            r.parameter_curve_control_points@.len() == 0,
    {
        ParameterCurve {
            parameter_id: DynamicParameterId::default(),
            time: F32Bits::zero(),
            parameter_curve_control_points: Vec::new(),
        }
    }
}

impl Default for Ahap {
    fn default() -> (r: Self)
        ensures
            r.version.bits == ONE_BITS,
            r.pattern@.len() == 0,
    {
        Ahap { version: F32Bits::one(), pattern: Vec::new() }
    }
}

/// True for transient events, which go to [SplitAhap::transients]
pub open spec fn is_transient(p: Pattern) -> bool {
    p matches Pattern::Event(Event::HapticTransient { .. })
}

/// True for continuous events and parameter curves, which go to [SplitAhap::continuous]
pub open spec fn is_continuous(p: Pattern) -> bool {
    !is_transient(p)
}

/// The patterns that a split keeps in its continuous component, in the order in which they come
pub open spec fn continuous_patterns(patterns: Seq<Pattern>) -> Seq<Pattern> {
    patterns.filter(|p: Pattern| is_continuous(p))
}

/// The patterns that a split keeps in its transient component, in the order in which they come
pub open spec fn transient_patterns(patterns: Seq<Pattern>) -> Seq<Pattern> {
    patterns.filter(|p: Pattern| is_transient(p))
}

/// Splitting partitions the patterns: every pattern lands in exactly one component, so the two
/// components together hold as many patterns as the AHAP that was split, and each component only holds
/// patterns of its own kind.
pub proof fn split_is_a_partition(patterns: Seq<Pattern>)
    ensures
        continuous_patterns(patterns).len() + transient_patterns(patterns).len() == patterns.len(),
        forall|i: int|
            0 <= i < continuous_patterns(patterns).len() ==> is_continuous(
                #[trigger] continuous_patterns(patterns)[i],
            ),
        forall|i: int|
            0 <= i < transient_patterns(patterns).len() ==> is_transient(
                #[trigger] transient_patterns(patterns)[i],
            ),
    decreases patterns.len(),
{
    reveal_with_fuel(Seq::filter, 1);
    if patterns.len() > 0 {
        split_is_a_partition(patterns.drop_last());
    }
    broadcast use vstd::seq_lib::group_filter_ensures;
    assert(forall|i: int|
        0 <= i < continuous_patterns(patterns).len() ==> is_continuous(
            #[trigger] continuous_patterns(patterns)[i],
        ));
}

impl SplitAhap {
    /// Splits an [Ahap] into its continuous and transient components
    ///
    /// Transient events go to the transient component, continuous events and parameter curves
    /// to the continuous component, each in the order in which they appear. Both components get
    /// the default AHAP version, and the transient component is `None` when there are no
    /// transients.
    pub fn from(ahap: Ahap) -> (r: SplitAhap)
        ensures
            r.continuous.version.bits == ONE_BITS,
            r.continuous.pattern@ == continuous_patterns(ahap.pattern@),
            transient_patterns(ahap.pattern@).len() == 0 ==> r.transients is None,
            transient_patterns(ahap.pattern@).len() > 0 ==> (r.transients matches Some(t) && t.version.bits
                == ONE_BITS && t.pattern@ == transient_patterns(ahap.pattern@)),
    {
        let mut transients = Ahap::default();
        let mut continuous = Ahap::default();
        let ghost patterns = ahap.pattern@;
        for pattern in iter: ahap.pattern
            invariant
                iter.seq() == patterns,
                continuous.version.bits == ONE_BITS,
                transients.version.bits == ONE_BITS,
                continuous.pattern@ == continuous_patterns(patterns.take(iter.index() as int)),
                transients.pattern@ == transient_patterns(patterns.take(iter.index() as int)),
        {
            proof {
                let i = iter.index() as int;
                assert(patterns.take(i + 1).drop_last() =~= patterns.take(i));
                assert(patterns.take(i + 1).last() == patterns[i]);
                reveal_with_fuel(Seq::filter, 1);
            }
            match pattern {
                Pattern::Event(event) => match event {
                    Event::HapticContinuous { time, event_duration, event_parameters } => {
                        continuous.pattern.push(
                            Pattern::Event(
                                Event::HapticContinuous { time, event_duration, event_parameters },
                            ),
                        )
                    },
                    Event::HapticTransient { time, event_parameters } => {
                        transients.pattern.push(
                            Pattern::Event(Event::HapticTransient { time, event_parameters }),
                        )
                    },
                },
                Pattern::ParameterCurve(parameter_curve) => {
                    continuous.pattern.push(Pattern::ParameterCurve(parameter_curve));
                },
            }
        }
        proof {
            assert(patterns.take(patterns.len() as int) =~= patterns);
        }
        if transients.pattern.len() == 0 {
            SplitAhap { continuous, transients: None }
        } else {
            SplitAhap { continuous, transients: Some(transients) }
        }
    }
}


/// Splitting sends patterns by their kind: every parameter curve and every continuous event of
/// the input lands in the continuous component, every transient event in the transient
/// component; the transient component holds nothing but transient events, and the continuous
/// component holds no transient event.
pub proof fn split_sends_patterns_by_kind(patterns: Seq<Pattern>)
    ensures
        forall|i: int|
            0 <= i < patterns.len() && (patterns[i] matches Pattern::ParameterCurve(_))
                ==> continuous_patterns(patterns).contains(#[trigger] patterns[i]),
        forall|i: int|
            0 <= i < patterns.len() && (patterns[i] matches Pattern::Event(
                Event::HapticContinuous { .. },
            )) ==> continuous_patterns(patterns).contains(#[trigger] patterns[i]),
        forall|i: int|
            0 <= i < patterns.len() && (patterns[i] matches Pattern::Event(
                Event::HapticTransient { .. },
            )) ==> transient_patterns(patterns).contains(#[trigger] patterns[i]),
        forall|i: int|
            0 <= i < transient_patterns(patterns).len() ==> (#[trigger] transient_patterns(
                patterns,
            )[i] matches Pattern::Event(Event::HapticTransient { .. })),
        forall|i: int|
            0 <= i < continuous_patterns(patterns).len() ==> !(#[trigger] continuous_patterns(
                patterns,
            )[i] matches Pattern::Event(Event::HapticTransient { .. })),
{
    broadcast use vstd::seq_lib::group_filter_ensures;
    split_is_a_partition(patterns);
    assert forall|i: int|
        0 <= i < patterns.len() && (patterns[i] matches Pattern::ParameterCurve(_))
            implies continuous_patterns(patterns).contains(#[trigger] patterns[i]) by {
        assert(patterns.contains(patterns[i]));
    }
    assert forall|i: int|
        0 <= i < patterns.len() && (patterns[i] matches Pattern::Event(Event::HapticContinuous { .. }))
            implies continuous_patterns(patterns).contains(#[trigger] patterns[i]) by {
        assert(patterns.contains(patterns[i]));
    }
    assert forall|i: int|
        0 <= i < patterns.len() && (patterns[i] matches Pattern::Event(Event::HapticTransient { .. }))
            implies transient_patterns(patterns).contains(#[trigger] patterns[i]) by {
        assert(patterns.contains(patterns[i]));
    }
}

} // verus!
