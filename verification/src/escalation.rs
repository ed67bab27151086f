//! Escalation request types and detection logic.

use vstd::prelude::*;

use crate::binary64::Real;
use crate::types::{Beat, Effect};

verus! {

broadcast use vstd::seq_lib::group_seq_properties;

/// `0.4`: a relationship delta of at least this magnitude escalates.
pub const RELATIONSHIP_ESCALATION_BITS: u64 = 0x3FD9_9999_9999_999A;

/// `0.6`: an emotion of at least this intensity escalates.
pub const EMOTION_ESCALATION_BITS: u64 = 0x3FE3_3333_3333_3333;

/// `0.5`: a relationship delta of at least this magnitude asks for full fidelity.
pub const RELATIONSHIP_ACTIVE_BITS: u64 = 0x3FE0_0000_0000_0000;

/// `0.8`: an emotion of at least this intensity asks for full fidelity.
pub const EMOTION_ACTIVE_BITS: u64 = 0x3FE9_9999_9999_999A;

/// What an escalation request was raised on: the largest relationship-delta
/// magnitude and the largest emotion intensity found in the beat.
#[derive(Clone, Copy, Debug, PartialEq)]
pub struct EscalationTrigger {
    /// The largest `|delta|` of the beat's relationship deltas (at least `0.0`).
    pub max_relationship_delta: Real,
    /// The largest intensity of the beat's emotional events (at least `0.0`).
    pub max_emotion_intensity: Real,
}

/// A request to escalate scene fidelity, emitted during a multi-beat encounter.
#[derive(Clone, Copy, Debug, PartialEq)]
pub struct EscalationRequest {
    /// What triggered the escalation.
    pub trigger: EscalationTrigger,
    /// The beat index that triggered it.
    pub beat_index: usize,
    /// Suggested fidelity bump.
    pub suggested_fidelity: FidelityHint,
}

/// Advisory fidelity level.
#[derive(Clone, Copy, Debug, PartialEq, Eq, Structural)]
pub enum FidelityHint {
    /// No change in fidelity recommended.
    Unchanged,
    /// The scene should become fidelity-aware.
    Aware,
    /// Full active fidelity is recommended.
    Active,
}

/// What a relationship delta offers the escalation check: `|delta|`.
pub open spec fn relationship_reading(e: Effect) -> Option<Real> {
    match e {
        Effect::RelationshipDelta { delta, .. } => Some(delta.abs_spec()),
        _ => None,
    }
}

/// What an emotional event offers the escalation check: its intensity.
pub open spec fn emotion_reading(e: Effect) -> Option<Real> {
    match e {
        Effect::EmotionalEvent { intensity, .. } => Some(intensity),
        _ => None,
    }
}

/// [`relationship_reading`] as a function value.
pub open spec fn relationship_reader() -> spec_fn(Effect) -> Option<Real> {
    |e: Effect| relationship_reading(e)
}

/// [`emotion_reading`] as a function value.
pub open spec fn emotion_reader() -> spec_fn(Effect) -> Option<Real> {
    |e: Effect| emotion_reading(e)
}

/// The largest reading that `read` finds among `effects`, starting from
/// `0.0` and folding with binary64 `max`.
pub open spec fn peak_of(effects: Seq<Effect>, read: spec_fn(Effect) -> Option<Real>) -> Real
    decreases effects.len(),
{
    if effects.len() == 0 {
        Real::zero_spec()
    } else {
        let acc = peak_of(effects.drop_last(), read);
        match read(effects.last()) {
            Some(x) => acc.max_spec(x),
            None => acc,
        }
    }
}

/// The largest `|delta|` over the relationship deltas among `effects`,
/// starting from `0.0` and folding with binary64 `max`.
pub open spec fn peak_relationship_delta(effects: Seq<Effect>) -> Real {
    peak_of(effects, relationship_reader())
}

/// The largest intensity over the emotional events among `effects`,
/// starting from `0.0` and folding with binary64 `max`.
pub open spec fn peak_emotion_intensity(effects: Seq<Effect>) -> Real {
    peak_of(effects, emotion_reader())
}

/// The peak is `+0.0` or a positive reading found among the effects, and no
/// reading that is not a NaN lies above it.
pub proof fn lemma_peak_of_shape(effects: Seq<Effect>, read: spec_fn(Effect) -> Option<Real>)
    ensures
        !peak_of(effects, read).nan(),
        peak_of(effects, read).order_key() >= 0,
        peak_of(effects, read) == Real::zero_spec() || (peak_of(effects, read).order_key() > 0
            && exists|i: int|
            0 <= i < effects.len() && #[trigger] read(effects[i]) == Some(peak_of(effects, read))),
        forall|i: int|
            0 <= i < effects.len() && (#[trigger] read(effects[i])) is Some && !read(
                effects[i],
            )->0.nan() ==> read(effects[i])->0.order_key() <= peak_of(effects, read).order_key(),
    decreases effects.len(),
{
    if effects.len() > 0 {
        let rest = effects.drop_last();
        lemma_peak_of_shape(rest, read);
        let acc = peak_of(rest, read);
        let peak = peak_of(effects, read);
        let last = effects.len() - 1;
        assert forall|i: int|
            0 <= i < effects.len() && (#[trigger] read(effects[i])) is Some && !read(
                effects[i],
            )->0.nan() implies read(effects[i])->0.order_key() <= peak.order_key() by {
            if i < last {
                assert(effects[i] == rest[i]);
            }
        }
        if peak != Real::zero_spec() {
            if peak == acc {
                let i = choose|i: int| 0 <= i < rest.len() && #[trigger] read(rest[i]) == Some(acc);
                assert(effects[i] == rest[i]);
            } else {
                assert(read(effects[last]) == Some(peak));
            }
        }
    }
}

/// Two lists of effects in which `read` finds the same readings (in any
/// order, any number of times) have the same peak.
pub proof fn lemma_peak_of_same_readings(
    a: Seq<Effect>,
    b: Seq<Effect>,
    read: spec_fn(Effect) -> Option<Real>,
)
    requires
        forall|i: int|
            0 <= i < a.len() && (#[trigger] read(a[i])) is Some ==> exists|j: int|
                0 <= j < b.len() && #[trigger] read(b[j]) == read(a[i]),
        forall|j: int|
            0 <= j < b.len() && (#[trigger] read(b[j])) is Some ==> exists|i: int|
                0 <= i < a.len() && #[trigger] read(a[i]) == read(b[j]),
    ensures
        peak_of(a, read) == peak_of(b, read),
{
    lemma_peak_of_shape(a, read);
    lemma_peak_of_shape(b, read);
    let pa = peak_of(a, read);
    let pb = peak_of(b, read);
    if pa != Real::zero_spec() {
        let i = choose|i: int| 0 <= i < a.len() && #[trigger] read(a[i]) == Some(pa);
        let j = choose|j: int| 0 <= j < b.len() && #[trigger] read(b[j]) == read(a[i]);
        assert(pa.order_key() <= pb.order_key());
    }
    if pb != Real::zero_spec() {
        let j = choose|j: int| 0 <= j < b.len() && #[trigger] read(b[j]) == Some(pb);
        let i = choose|i: int| 0 <= i < a.len() && #[trigger] read(a[i]) == read(b[j]);
        assert(pb.order_key() <= pa.order_key());
    }
    assert(pa.bits == pb.bits);
}

/// The effects that the escalation check reads.
pub open spec fn affects_escalation(e: Effect) -> bool {
    e is RelationshipDelta || e is EmotionalEvent
}

/// Whether and how a beat escalates depends only on which relationship
/// deltas and emotional events it holds: reordering its effects, repeating
/// them, adding or removing effects of other kinds, or changing its actor,
/// action or answer leaves [`check_escalation`]'s result unchanged.
pub proof fn lemma_escalation_ignores_order_and_other_effects(
    beat: Beat,
    other: Beat,
    beat_index: usize,
)
    requires
        forall|e: Effect|
            #[trigger] affects_escalation(e) ==> (beat.effects@.contains(e)
                <==> other.effects@.contains(e)),
    ensures
        escalation_for(beat, beat_index) == escalation_for(other, beat_index),
{
    let a = beat.effects@;
    let b = other.effects@;
    assert forall|i: int| 0 <= i < a.len() && affects_escalation(#[trigger] a[i]) implies b.contains(
        a[i],
    ) by {}
    assert forall|j: int| 0 <= j < b.len() && affects_escalation(#[trigger] b[j]) implies a.contains(
        b[j],
    ) by {}
    lemma_peak_of_same_readings(a, b, relationship_reader());
    lemma_peak_of_same_readings(a, b, emotion_reader());
}

/// The effect is a relationship delta whose magnitude is at least `t`.
pub open spec fn delta_reaches(e: Effect, t: Real) -> bool {
    match e {
        Effect::RelationshipDelta { delta, .. } => delta.abs_spec().ge_spec(t),
        _ => false,
    }
}

/// The effect is an emotional event whose intensity is at least `t`.
pub open spec fn intensity_reaches(e: Effect, t: Real) -> bool {
    match e {
        Effect::EmotionalEvent { intensity, .. } => intensity.ge_spec(t),
        _ => false,
    }
}

/// The escalation request that a beat at `beat_index` raises, if any.
pub open spec fn escalation_for(beat: Beat, beat_index: usize) -> Option<EscalationRequest> {
    let rel = peak_relationship_delta(beat.effects@);
    let emo = peak_emotion_intensity(beat.effects@);
    if rel.ge_spec(Real { bits: RELATIONSHIP_ESCALATION_BITS }) || emo.ge_spec(
        Real { bits: EMOTION_ESCALATION_BITS },
    ) {
        Some(
            EscalationRequest {
                trigger: EscalationTrigger { max_relationship_delta: rel, max_emotion_intensity: emo },
                beat_index,
                suggested_fidelity: if rel.ge_spec(Real { bits: RELATIONSHIP_ACTIVE_BITS })
                    || emo.ge_spec(Real { bits: EMOTION_ACTIVE_BITS }) {
                    FidelityHint::Active
                } else {
                    FidelityHint::Aware
                },
            },
        )
    } else {
        None
    }
}

/// For a positive threshold `t`, the peak relationship-delta magnitude of
/// `effects` reaches `t` exactly when one of the relationship deltas does;
/// the peak is never a NaN and never below `0.0`.
pub proof fn lemma_peak_relationship_delta(effects: Seq<Effect>, t: Real)
    requires
        !t.nan(),
        t.order_key() > 0,
    ensures
        !peak_relationship_delta(effects).nan(),
        peak_relationship_delta(effects).order_key() >= 0,
        peak_relationship_delta(effects).ge_spec(t) <==> exists|i: int|
            0 <= i < effects.len() && #[trigger] delta_reaches(effects[i], t),
    decreases effects.len(),
{
    if effects.len() > 0 {
        let rest = effects.drop_last();
        lemma_peak_relationship_delta(rest, t);
        if peak_relationship_delta(effects).ge_spec(t) {
            if !peak_relationship_delta(rest).ge_spec(t) {
                assert(delta_reaches(effects[effects.len() - 1], t));
            } else {
                let i = choose|i: int| 0 <= i < rest.len() && #[trigger] delta_reaches(rest[i], t);
                assert(delta_reaches(effects[i], t));
            }
        }
        if exists|i: int| 0 <= i < effects.len() && #[trigger] delta_reaches(effects[i], t) {
            let i = choose|i: int| 0 <= i < effects.len() && #[trigger] delta_reaches(effects[i], t);
            if i < effects.len() - 1 {
                assert(delta_reaches(rest[i], t));
            }
        }
    }
}

/// For a positive threshold `t`, the peak emotion intensity of `effects`
/// reaches `t` exactly when one of the emotional events does; the peak is
/// never a NaN and never below `0.0`.
pub proof fn lemma_peak_emotion_intensity(effects: Seq<Effect>, t: Real)
    requires
        !t.nan(),
        t.order_key() > 0,
    ensures
        !peak_emotion_intensity(effects).nan(),
        peak_emotion_intensity(effects).order_key() >= 0,
        peak_emotion_intensity(effects).ge_spec(t) <==> exists|i: int|
            0 <= i < effects.len() && #[trigger] intensity_reaches(effects[i], t),
    decreases effects.len(),
{
    if effects.len() > 0 {
        let rest = effects.drop_last();
        lemma_peak_emotion_intensity(rest, t);
        if peak_emotion_intensity(effects).ge_spec(t) {
            if !peak_emotion_intensity(rest).ge_spec(t) {
                assert(intensity_reaches(effects[effects.len() - 1], t));
            } else {
                let i = choose|i: int|
                    0 <= i < rest.len() && #[trigger] intensity_reaches(rest[i], t);
                assert(intensity_reaches(effects[i], t));
            }
        }
        if exists|i: int| 0 <= i < effects.len() && #[trigger] intensity_reaches(effects[i], t) {
            let i = choose|i: int|
                0 <= i < effects.len() && #[trigger] intensity_reaches(effects[i], t);
            if i < effects.len() - 1 {
                assert(intensity_reaches(rest[i], t));
            }
        }
    }
}

/// An escalation request's trigger holds the largest `|delta|` among the
/// beat's relationship deltas and the largest intensity among its emotional
/// events: no reading that is not a NaN lies above it, and it is `0.0` or one
/// of the readings.
pub proof fn lemma_escalation_trigger_is_peak(beat: Beat, beat_index: usize)
    ensures
        escalation_for(beat, beat_index) matches Some(req) ==> forall|i: int|
            0 <= i < beat.effects@.len() ==> match #[trigger] beat.effects@[i] {
                Effect::RelationshipDelta { delta, .. } => delta.abs_spec().nan()
                    || delta.abs_spec().le_spec(req.trigger.max_relationship_delta),
                Effect::EmotionalEvent { intensity, .. } => intensity.nan() || intensity.le_spec(
                    req.trigger.max_emotion_intensity,
                ),
                _ => true,
            },
        escalation_for(beat, beat_index) matches Some(req) ==> req.trigger.max_relationship_delta
            == Real::zero_spec() || exists|i: int|
            0 <= i < beat.effects@.len() && (#[trigger] beat.effects@[i] matches Effect::RelationshipDelta {
                delta,
                ..
            } && delta.abs_spec() == req.trigger.max_relationship_delta),
        escalation_for(beat, beat_index) matches Some(req) ==> req.trigger.max_emotion_intensity
            == Real::zero_spec() || exists|i: int|
            0 <= i < beat.effects@.len() && (#[trigger] beat.effects@[i] matches Effect::EmotionalEvent {
                intensity,
                ..
            } && intensity == req.trigger.max_emotion_intensity),
{
    let effects = beat.effects@;
    lemma_peak_of_shape(effects, relationship_reader());
    lemma_peak_of_shape(effects, emotion_reader());
    let rel = peak_relationship_delta(effects);
    let emo = peak_emotion_intensity(effects);
    assert forall|i: int| 0 <= i < effects.len() implies match #[trigger] effects[i] {
        Effect::RelationshipDelta { delta, .. } => delta.abs_spec().nan()
            || delta.abs_spec().le_spec(rel),
        Effect::EmotionalEvent { intensity, .. } => intensity.nan() || intensity.le_spec(emo),
        _ => true,
    } by {
        assert(relationship_reader()(effects[i]) == relationship_reading(effects[i]));
        assert(emotion_reader()(effects[i]) == emotion_reading(effects[i]));
    }
    if rel != Real::zero_spec() {
        let i = choose|i: int|
            0 <= i < effects.len() && #[trigger] relationship_reader()(effects[i]) == Some(rel);
        assert(effects[i] matches Effect::RelationshipDelta { delta, .. } && delta.abs_spec()
            == rel);
    }
    if emo != Real::zero_spec() {
        let i = choose|i: int|
            0 <= i < effects.len() && #[trigger] emotion_reader()(effects[i]) == Some(emo);
        assert(effects[i] matches Effect::EmotionalEvent { intensity, .. } && intensity == emo);
    }
}

/// Check a beat for escalation-worthy conditions.
/// Fires on relationship deltas >= 0.4 or emotion intensity >= 0.6.
pub fn check_escalation(beat: &Beat, beat_index: usize) -> (r: Option<EscalationRequest>)
    ensures
        r == escalation_for(*beat, beat_index),
        r is Some <==> (exists|i: int|
            0 <= i < beat.effects@.len() && #[trigger] delta_reaches(
                beat.effects@[i],
                Real { bits: RELATIONSHIP_ESCALATION_BITS },
            )) || (exists|i: int|
            0 <= i < beat.effects@.len() && #[trigger] intensity_reaches(
                beat.effects@[i],
                Real { bits: EMOTION_ESCALATION_BITS },
            )),
        r matches Some(req) ==> (req.suggested_fidelity == FidelityHint::Active <==> (exists|i: int|
            0 <= i < beat.effects@.len() && #[trigger] delta_reaches(
                beat.effects@[i],
                Real { bits: RELATIONSHIP_ACTIVE_BITS },
            )) || (exists|i: int|
            0 <= i < beat.effects@.len() && #[trigger] intensity_reaches(
                beat.effects@[i],
                Real { bits: EMOTION_ACTIVE_BITS },
            ))),
        r matches Some(req) ==> req.suggested_fidelity != FidelityHint::Unchanged,
        r matches Some(req) ==> !req.trigger.max_relationship_delta.nan()
            && req.trigger.max_relationship_delta.order_key() >= 0
            && !req.trigger.max_emotion_intensity.nan()
            && req.trigger.max_emotion_intensity.order_key() >= 0,
        // the trigger holds the largest |delta| of the relationship deltas
        // (0.0 when there is none) and the largest intensity of the
        // emotional events (0.0 when there is none)
        r matches Some(req) ==> forall|i: int|
            0 <= i < beat.effects@.len() ==> match #[trigger] beat.effects@[i] {
                Effect::RelationshipDelta { delta, .. } => delta.abs_spec().nan()
                    || delta.abs_spec().le_spec(req.trigger.max_relationship_delta),
                Effect::EmotionalEvent { intensity, .. } => intensity.nan() || intensity.le_spec(
                    req.trigger.max_emotion_intensity,
                ),
                _ => true,
            },
        r matches Some(req) ==> req.trigger.max_relationship_delta == Real::zero_spec() || exists|
            i: int,
        |
            0 <= i < beat.effects@.len() && (#[trigger] beat.effects@[i] matches Effect::RelationshipDelta {
                delta,
                ..
            } && delta.abs_spec() == req.trigger.max_relationship_delta),
        r matches Some(req) ==> req.trigger.max_emotion_intensity == Real::zero_spec() || exists|
            i: int,
        |
            0 <= i < beat.effects@.len() && (#[trigger] beat.effects@[i] matches Effect::EmotionalEvent {
                intensity,
                ..
            } && intensity == req.trigger.max_emotion_intensity),
{
    let ghost effects = beat.effects@;
    let mut max_rel_delta = Real::zero();
    let mut max_emotion_intensity = Real::zero();
    let mut i: usize = 0;
    while i < beat.effects.len()
        invariant
            i <= beat.effects.len(),
            effects == beat.effects@,
            max_rel_delta == peak_relationship_delta(effects.take(i as int)),
            max_emotion_intensity == peak_emotion_intensity(effects.take(i as int)),
        decreases beat.effects.len() - i,
    {
        assert(effects.take(i + 1).drop_last() == effects.take(i as int));
        match &beat.effects[i] {
            Effect::RelationshipDelta { delta, .. } => {
                max_rel_delta = max_rel_delta.max(&delta.abs());
            },
            Effect::EmotionalEvent { intensity, .. } => {
                max_emotion_intensity = max_emotion_intensity.max(intensity);
            },
            _ => {},
        }
        i = i + 1;
    }
    assert(effects.take(effects.len() as int) == effects);
    proof {
        lemma_escalation_trigger_is_peak(*beat, beat_index);
        lemma_peak_relationship_delta(effects, Real { bits: RELATIONSHIP_ESCALATION_BITS });
        lemma_peak_relationship_delta(effects, Real { bits: RELATIONSHIP_ACTIVE_BITS });
        lemma_peak_emotion_intensity(effects, Real { bits: EMOTION_ESCALATION_BITS });
        lemma_peak_emotion_intensity(effects, Real { bits: EMOTION_ACTIVE_BITS });
    }
    let rel_threshold = Real { bits: RELATIONSHIP_ESCALATION_BITS };
    let emo_threshold = Real { bits: EMOTION_ESCALATION_BITS };
    if max_rel_delta.ge(&rel_threshold) || max_emotion_intensity.ge(&emo_threshold) {
        let rel_active = Real { bits: RELATIONSHIP_ACTIVE_BITS };
        let emo_active = Real { bits: EMOTION_ACTIVE_BITS };
        let suggested_fidelity = if max_rel_delta.ge(&rel_active) || max_emotion_intensity.ge(
            &emo_active,
        ) {
            FidelityHint::Active
        } else {
            FidelityHint::Aware
        };
        Some(
            EscalationRequest {
                trigger: EscalationTrigger {
                    max_relationship_delta: max_rel_delta,
                    max_emotion_intensity: max_emotion_intensity,
                },
                beat_index,
                suggested_fidelity,
            },
        )
    } else {
        None
    }
}

} // verus!
