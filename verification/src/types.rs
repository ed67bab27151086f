//! Core data types shared across the crate.

use vstd::prelude::*;

use crate::binary64::Real;
use crate::escalation::{check_escalation, escalation_for, EscalationRequest};

verus! {

broadcast use vstd::seq_lib::group_seq_properties;

/// An effect produced by a social interaction beat.
///
/// Effects are categorized into aggregate buckets on [`EncounterResult`] by
/// [`EncounterResult::push_beat`].
#[derive(Debug, PartialEq)]
pub enum Effect {
    /// One character conveys a belief to another.
    KnowledgeTransfer {
        /// The character transmitting the claim.
        from: String,
        /// The character receiving the claim.
        to: String,
        /// The belief being transferred.
        claim: String,
        /// Where the belief originated.
        provenance: Option<String>,
        /// Starting confidence level (0.0–1.0).
        initial_confidence: Option<Real>,
    },
    /// A shift along a relationship axis between two characters.
    RelationshipDelta {
        /// The relationship axis being modified (e.g. "trust").
        axis: String,
        /// The source character.
        from: String,
        /// The target character.
        to: String,
        /// Signed magnitude of the change.
        delta: Real,
    },
    /// An emotional response triggered in a character.
    EmotionalEvent {
        /// The character experiencing the emotion.
        target: String,
        /// The emotion label (e.g. "joy", "anger").
        emotion: String,
        /// How strongly the emotion is felt (0.0–1.0).
        intensity: Real,
    },
    /// A sustained shift in a character's mood along some axis.
    MoodShift {
        /// The character whose mood shifts.
        target: String,
        /// The mood axis being modified.
        axis: String,
        /// Signed magnitude of the shift.
        delta: Real,
    },
    /// Partial or full satisfaction of a character's need.
    NeedSatisfaction {
        /// The character whose need is satisfied.
        target: String,
        /// The need being addressed (e.g. "belonging").
        need: String,
        /// Amount of satisfaction granted.
        amount: Real,
    },
    /// A nudge to a character's value system.
    ValueShift {
        /// The character whose values shift.
        target: String,
        /// The value being modified (e.g. "honesty").
        value: String,
        /// Signed magnitude of the shift.
        delta: Real,
    },
    /// An actor leaves the current practice.
    PracticeExit {
        /// The character exiting.
        actor: String,
        /// Why they are leaving.
        reason: Option<String>,
    },
}

fn clone_opt_string(s: &Option<String>) -> (r: Option<String>)
    ensures
        r == *s,
{
    match s {
        Some(t) => Some(t.clone()),
        None => None,
    }
}

impl Clone for Effect {
    fn clone(&self) -> (r: Effect)
        ensures
            r == *self,
    {
        match self {
            Effect::KnowledgeTransfer { from, to, claim, provenance, initial_confidence } => {
                Effect::KnowledgeTransfer {
                    from: from.clone(),
                    to: to.clone(),
                    claim: claim.clone(),
                    provenance: clone_opt_string(provenance),
                    initial_confidence: *initial_confidence,
                }
            },
            Effect::RelationshipDelta { axis, from, to, delta } => Effect::RelationshipDelta {
                axis: axis.clone(),
                from: from.clone(),
                to: to.clone(),
                delta: *delta,
            },
            Effect::EmotionalEvent { target, emotion, intensity } => Effect::EmotionalEvent {
                target: target.clone(),
                emotion: emotion.clone(),
                intensity: *intensity,
            },
            Effect::MoodShift { target, axis, delta } => Effect::MoodShift {
                target: target.clone(),
                axis: axis.clone(),
                delta: *delta,
            },
            Effect::NeedSatisfaction { target, need, amount } => Effect::NeedSatisfaction {
                target: target.clone(),
                need: need.clone(),
                amount: *amount,
            },
            Effect::ValueShift { target, value, delta } => Effect::ValueShift {
                target: target.clone(),
                value: value.clone(),
                delta: *delta,
            },
            Effect::PracticeExit { actor, reason } => Effect::PracticeExit {
                actor: actor.clone(),
                reason: clone_opt_string(reason),
            },
        }
    }
}

/// Copies a list of effects element by element.
pub(crate) fn clone_effects(effects: &Vec<Effect>) -> (r: Vec<Effect>)
    ensures
        r@ == effects@,
{
    let mut r: Vec<Effect> = Vec::new();
    let mut i: usize = 0;
    while i < effects.len()
        invariant
            i <= effects.len(),
            r@ == effects@.take(i as int),
        decreases effects.len() - i,
    {
        r.push(effects[i].clone());
        assert(effects@.take(i + 1) == effects@.take(i as int).push(effects@[i as int]));
        i = i + 1;
    }
    assert(effects@.take(effects.len() as int) == effects@);
    r
}

/// A drive that motivates a character's participation in an encounter.
#[derive(Debug, PartialEq)]
pub struct DriveAlignment {
    /// The drive category (e.g. "autonomy", "belonging").
    pub kind: String,
    /// How strongly this drive aligns with the action (0.0–1.0).
    pub strength: Real,
}

impl Clone for DriveAlignment {
    fn clone(&self) -> (r: DriveAlignment)
        ensures
            r == *self,
    {
        DriveAlignment { kind: self.kind.clone(), strength: self.strength }
    }
}

/// A single consideration in a utility-scoring curve set.
#[derive(Debug, PartialEq)]
pub struct ConsiderationSpec {
    /// Unique identifier for this consideration.
    pub id: String,
    /// The curve type to apply (e.g. "linear", "logistic").
    pub curve: String,
    /// Weight applied to this consideration's score.
    pub weight: Real,
    /// Minimum score threshold; consideration is ignored below this value.
    pub threshold: Option<Real>,
}

impl Clone for ConsiderationSpec {
    fn clone(&self) -> (r: ConsiderationSpec)
        ensures
            r == *self,
    {
        ConsiderationSpec {
            id: self.id.clone(),
            curve: self.curve.clone(),
            weight: self.weight,
            threshold: self.threshold,
        }
    }
}

/// A single resolved action exchange within an encounter.
#[derive(Debug, PartialEq)]
pub struct Beat {
    /// The character performing the action.
    pub actor: String,
    /// The action identifier.
    pub action: String,
    /// Whether the action was accepted by the target.
    pub accepted: bool,
    /// Effects that fire as a result of this beat.
    pub effects: Vec<Effect>,
}

impl Clone for Beat {
    fn clone(&self) -> (r: Beat)
        ensures
            r.actor == self.actor,
            r.action == self.action,
            r.accepted == self.accepted,
            r.effects@ == self.effects@,
    {
        Beat {
            actor: self.actor.clone(),
            action: self.action.clone(),
            accepted: self.accepted,
            effects: clone_effects(&self.effects),
        }
    }
}

/// The effects that [`EncounterResult`] gathers into `relationship_deltas`.
pub open spec fn relationship_delta_effect() -> spec_fn(Effect) -> bool {
    |e: Effect| e is RelationshipDelta
}

/// The effects that [`EncounterResult`] gathers into `knowledge_transfers`.
pub open spec fn knowledge_transfer_effect() -> spec_fn(Effect) -> bool {
    |e: Effect| e is KnowledgeTransfer
}

/// The effects that [`EncounterResult`] gathers into `emotional_events`.
pub open spec fn emotional_event_effect() -> spec_fn(Effect) -> bool {
    |e: Effect| e is EmotionalEvent
}

/// The effects that [`EncounterResult`] gathers into `value_shifts`.
pub open spec fn value_shift_effect() -> spec_fn(Effect) -> bool {
    |e: Effect| e is ValueShift
}

/// Each bucket gathers exactly the effects of its own kind: whatever it
/// takes from a list of effects is of that kind, and every effect of that
/// kind is taken. Mood shifts, need satisfactions and practice exits go into
/// no bucket.
pub proof fn lemma_buckets_sort_by_kind(effects: Seq<Effect>)
    ensures
        forall|i: int|
            0 <= i < effects.filter(relationship_delta_effect()).len() ==> (#[trigger] effects.filter(
                relationship_delta_effect(),
            )[i]) is RelationshipDelta,
        forall|i: int|
            0 <= i < effects.filter(knowledge_transfer_effect()).len() ==> (#[trigger] effects.filter(
                knowledge_transfer_effect(),
            )[i]) is KnowledgeTransfer,
        forall|i: int|
            0 <= i < effects.filter(emotional_event_effect()).len() ==> (#[trigger] effects.filter(
                emotional_event_effect(),
            )[i]) is EmotionalEvent,
        forall|i: int|
            0 <= i < effects.filter(value_shift_effect()).len() ==> (#[trigger] effects.filter(
                value_shift_effect(),
            )[i]) is ValueShift,
        forall|i: int|
            0 <= i < effects.len() && (#[trigger] effects[i]) is RelationshipDelta ==> effects.filter(
                relationship_delta_effect(),
            ).contains(effects[i]),
        forall|i: int|
            0 <= i < effects.len() && (#[trigger] effects[i]) is KnowledgeTransfer ==> effects.filter(
                knowledge_transfer_effect(),
            ).contains(effects[i]),
        forall|i: int|
            0 <= i < effects.len() && (#[trigger] effects[i]) is EmotionalEvent ==> effects.filter(
                emotional_event_effect(),
            ).contains(effects[i]),
        forall|i: int|
            0 <= i < effects.len() && (#[trigger] effects[i]) is ValueShift ==> effects.filter(
                value_shift_effect(),
            ).contains(effects[i]),
{
    broadcast use vstd::seq_lib::group_filter_ensures;

}

/// All effects of a sequence of beats, beat by beat, in order.
pub open spec fn all_effects(beats: Seq<Beat>) -> Seq<Effect> {
    beats.map_values(|b: Beat| b.effects@).flatten()
}

/// The effects of all beats, followed by those of one more beat, are the
/// effects of the longer sequence of beats.
pub proof fn lemma_all_effects_push(beats: Seq<Beat>, beat: Beat)
    ensures
        all_effects(beats.push(beat)) == all_effects(beats) + beat.effects@,
{
    let f = |b: Beat| b.effects@;
    assert(beats.push(beat).map_values(f) == beats.map_values(f).push(beat.effects@));
    beats.map_values(f).lemma_flatten_push(beat.effects@);
}

/// Aggregated output of a resolved encounter.
#[derive(Debug)]
pub struct EncounterResult {
    /// Characters who participated.
    pub participants: Vec<String>,
    /// The practice that framed this encounter, if any.
    pub practice: Option<String>,
    /// Ordered sequence of beats that occurred.
    pub beats: Vec<Beat>,
    /// All [`Effect::RelationshipDelta`] effects from all beats.
    pub relationship_deltas: Vec<Effect>,
    /// All [`Effect::KnowledgeTransfer`] effects from all beats.
    pub knowledge_transfers: Vec<Effect>,
    /// All [`Effect::EmotionalEvent`] effects from all beats.
    pub emotional_events: Vec<Effect>,
    /// All [`Effect::ValueShift`] effects from all beats.
    pub value_shifts: Vec<Effect>,
    /// Whether any participant requested escalation.
    pub escalation_requested: bool,
    /// Escalation requests emitted during the encounter.
    pub escalation_requests: Vec<EscalationRequest>,
}

impl EncounterResult {
    /// Each aggregate bucket holds exactly the effects of its kind from all
    /// beats, in the order in which the beats and their effects came.
    pub open spec fn buckets_match_beats(&self) -> bool {
        let all = all_effects(self.beats@);
        &&& self.relationship_deltas@ == all.filter(relationship_delta_effect())
        &&& self.knowledge_transfers@ == all.filter(knowledge_transfer_effect())
        &&& self.emotional_events@ == all.filter(emotional_event_effect())
        &&& self.value_shifts@ == all.filter(value_shift_effect())
    }

    /// Create a new, empty result for the given participants and optional practice.
    pub fn new(participants: Vec<String>, practice: Option<String>) -> (r: Self)
        ensures
            r.participants == participants,
            r.practice == practice,
            r.beats@.len() == 0,
            r.relationship_deltas@.len() == 0,
            r.knowledge_transfers@.len() == 0,
            r.emotional_events@.len() == 0,
            r.value_shifts@.len() == 0,
            !r.escalation_requested,
            r.escalation_requests@.len() == 0,
            r.buckets_match_beats(),
    {
        let r = EncounterResult {
            participants,
            practice,
            beats: Vec::new(),
            relationship_deltas: Vec::new(),
            knowledge_transfers: Vec::new(),
            emotional_events: Vec::new(),
            value_shifts: Vec::new(),
            escalation_requested: false,
            escalation_requests: Vec::new(),
        };
        proof {
            let all = all_effects(r.beats@);
            assert(r.beats@.map_values(|b: Beat| b.effects@) =~= Seq::<Seq<Effect>>::empty());
            assert(all =~= Seq::<Effect>::empty());
            reveal(Seq::filter);
            assert(all.filter(relationship_delta_effect()) =~= Seq::<Effect>::empty());
            assert(all.filter(knowledge_transfer_effect()) =~= Seq::<Effect>::empty());
            assert(all.filter(emotional_event_effect()) =~= Seq::<Effect>::empty());
            assert(all.filter(value_shift_effect()) =~= Seq::<Effect>::empty());
        }
        r
    }

    /// Append a beat and categorize its effects into the aggregate buckets.
    ///
    /// Only `RelationshipDelta`, `KnowledgeTransfer`, `EmotionalEvent`, and
    /// `ValueShift` effects are aggregated into the top-level buckets.
    /// `MoodShift`, `NeedSatisfaction`, and `PracticeExit` effects are
    /// preserved in the beat's `effects` vec but not duplicated into
    /// separate aggregate fields.
    pub fn push_beat(&mut self, beat: Beat)
        ensures
            final(self).beats@ == old(self).beats@.push(beat),
            final(self).relationship_deltas@ == old(self).relationship_deltas@ + beat.effects@.filter(
                relationship_delta_effect(),
            ),
            final(self).knowledge_transfers@ == old(self).knowledge_transfers@ + beat.effects@.filter(
                knowledge_transfer_effect(),
            ),
            final(self).emotional_events@ == old(self).emotional_events@ + beat.effects@.filter(
                emotional_event_effect(),
            ),
            final(self).value_shifts@ == old(self).value_shifts@ + beat.effects@.filter(
                value_shift_effect(),
            ),
            final(self).participants == old(self).participants,
            final(self).practice == old(self).practice,
            final(self).escalation_requested == old(self).escalation_requested,
            final(self).escalation_requests == old(self).escalation_requests,
            old(self).buckets_match_beats() ==> final(self).buckets_match_beats(),
    {
        let ghost effects = beat.effects@;
        let mut i: usize = 0;
        while i < beat.effects.len()
            invariant
                i <= beat.effects.len(),
                effects == beat.effects@,
                self.beats == old(self).beats,
                self.participants == old(self).participants,
                self.practice == old(self).practice,
                self.escalation_requested == old(self).escalation_requested,
                self.escalation_requests == old(self).escalation_requests,
                self.relationship_deltas@ == old(self).relationship_deltas@ + effects.take(
                    i as int,
                ).filter(relationship_delta_effect()),
                self.knowledge_transfers@ == old(self).knowledge_transfers@ + effects.take(
                    i as int,
                ).filter(knowledge_transfer_effect()),
                self.emotional_events@ == old(self).emotional_events@ + effects.take(
                    i as int,
                ).filter(emotional_event_effect()),
                self.value_shifts@ == old(self).value_shifts@ + effects.take(i as int).filter(
                    value_shift_effect(),
                ),
            decreases beat.effects.len() - i,
        {
            let effect = &beat.effects[i];
            proof {
                assert(effects.take(i + 1) == effects.take(i as int).push(effects[i as int]));
                effects.take(i as int).lemma_filter_push(effects[i as int], relationship_delta_effect());
                effects.take(i as int).lemma_filter_push(effects[i as int], knowledge_transfer_effect());
                effects.take(i as int).lemma_filter_push(effects[i as int], emotional_event_effect());
                effects.take(i as int).lemma_filter_push(effects[i as int], value_shift_effect());
            }
            match effect {
                Effect::RelationshipDelta { .. } => {
                    self.relationship_deltas.push(effect.clone());
                },
                Effect::KnowledgeTransfer { .. } => {
                    self.knowledge_transfers.push(effect.clone());
                },
                Effect::EmotionalEvent { .. } => {
                    self.emotional_events.push(effect.clone());
                },
                Effect::ValueShift { .. } => {
                    self.value_shifts.push(effect.clone());
                },
                Effect::MoodShift { .. }
                | Effect::NeedSatisfaction { .. }
                | Effect::PracticeExit { .. } => {},
            }
            i = i + 1;
        }
        assert(effects.take(effects.len() as int) == effects);
        proof {
            let all = all_effects(old(self).beats@);
            lemma_all_effects_push(old(self).beats@, beat);
            Seq::filter_distributes_over_add(all, effects, relationship_delta_effect());
            Seq::filter_distributes_over_add(all, effects, knowledge_transfer_effect());
            Seq::filter_distributes_over_add(all, effects, emotional_event_effect());
            Seq::filter_distributes_over_add(all, effects, value_shift_effect());
        }
        self.beats.push(beat);
    }

    /// `escalation_requests` holds, in order, the request each beat raised,
    /// and `escalation_requested` says whether there is any.
    pub open spec fn escalations_match_beats(&self) -> bool {
        &&& self.escalation_requests@ == escalations_of(self.beats@)
        &&& self.escalation_requested == (self.escalation_requests@.len() > 0)
    }

    /// Appends a beat as [`EncounterResult::push_beat`] does, then records the
    /// escalation request, if any, that the beat raises at its index.
    pub(crate) fn push_beat_checked(&mut self, beat: Beat)
        requires
            old(self).beats@.len() < usize::MAX,
        ensures
            final(self).beats@ == old(self).beats@.push(beat),
            final(self).participants == old(self).participants,
            final(self).practice == old(self).practice,
            final(self).escalation_requests@ == old(self).escalation_requests@ + escalation_seq(
                escalation_for(beat, old(self).beats@.len() as usize),
            ),
            final(self).escalation_requested == (old(self).escalation_requested || escalation_for(
                beat,
                old(self).beats@.len() as usize,
            ) is Some),
            old(self).buckets_match_beats() ==> final(self).buckets_match_beats(),
            old(self).escalations_match_beats() ==> final(self).escalations_match_beats(),
    {
        let index = self.beats.len();
        let request = check_escalation(&beat, index);
        self.push_beat(beat);
        if let Some(req) = request {
            self.escalation_requested = true;
            self.escalation_requests.push(req);
        }
        proof {
            assert(self.beats@.drop_last() == old(self).beats@);
            assert(self.beats@.last() == beat);
            assert(escalations_of(self.beats@) == escalations_of(old(self).beats@) + escalation_seq(
                escalation_for(beat, index),
            ));
            assert(escalation_seq(escalation_for(beat, index)).len() > 0 <==> escalation_for(
                beat,
                index,
            ) is Some);
            assert(self.escalation_requests@ == old(self).escalation_requests@ + escalation_seq(
                escalation_for(beat, index),
            ));
        }
    }
}

/// No request, or the one request.
pub open spec fn escalation_seq(r: Option<EscalationRequest>) -> Seq<EscalationRequest> {
    match r {
        Some(q) => seq![q],
        None => Seq::empty(),
    }
}

/// The escalation requests that `beats` raise, beat by beat, each checked at
/// its own index.
pub open spec fn escalations_of(beats: Seq<Beat>) -> Seq<EscalationRequest>
    decreases beats.len(),
{
    if beats.len() == 0 {
        Seq::empty()
    } else {
        escalations_of(beats.drop_last()) + escalation_seq(
            escalation_for(beats.last(), (beats.len() - 1) as usize),
        )
    }
}

} // verus!
