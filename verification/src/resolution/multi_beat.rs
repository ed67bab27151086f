//! Versu-style turn-based encounter resolution.

use vstd::prelude::*;

use crate::affordance::CatalogEntry;
use crate::practice::{DurationPolicy, PracticeSpec, TurnPolicy};
use crate::resolution::{beat_for, beat_records};
use crate::scoring::{best_index, choose_best, AcceptanceEval, ActionScorer, ScoredAffordance};
use crate::types::{Beat, Effect, EncounterResult};

verus! {

broadcast use vstd::seq_lib::group_seq_properties;

/// The catalog entries whose name is one of `names`.
pub open spec fn listed_in<P>(names: Seq<String>) -> spec_fn(CatalogEntry<P>) -> bool {
    |e: CatalogEntry<P>| exists|j: int| 0 <= j < names.len() && (#[trigger] names[j])@ == e.spec.name@
}

/// `copies` holds, in order, a copy of each entry of `sources`.
pub open spec fn copies_of<P: Clone>(copies: Seq<CatalogEntry<P>>, sources: Seq<CatalogEntry<P>>) -> bool {
    &&& copies.len() == sources.len()
    &&& forall|i: int|
        0 <= i < copies.len() ==> (#[trigger] copies[i]).spec.same_as(sources[i].spec)
            && cloned::<P>(sources[i].precondition, copies[i].precondition)
}

/// Some effect of the list makes its actor leave the practice.
pub open spec fn has_exit(effects: Seq<Effect>) -> bool {
    exists|i: int| 0 <= i < effects.len() && (#[trigger] effects[i]) is PracticeExit
}

/// How a scene of `beats` came out of its turns, given what the scorer
/// returned at each turn (`turns`) and the cap on the number of beats:
/// beat `i` is spoken by participant `i mod n`, who performs the action that
/// [`best_index`] picks from turn `i`; the scene stopped at the cap, or right
/// after a beat with a practice exit, or at a turn that offered nothing.
pub open spec fn turns_make_beats<P>(
    participants: Seq<String>,
    cap: int,
    turns: Seq<Seq<ScoredAffordance<P>>>,
    beats: Seq<Beat>,
) -> bool {
    let n = participants.len() as int;
    &&& beats.len() <= turns.len() <= beats.len() + 1
    &&& forall|i: int|
        #![trigger beats[i]]
        #![trigger turns[i]]
        0 <= i < beats.len() ==> best_index(turns[i]) is Some && beat_records(
            beats[i],
            participants[i % n]@,
            turns[i][best_index(turns[i])->0],
            beats[i].accepted,
        )
    &&& forall|i: int|
        #![trigger beats[i]]
        0 <= i < beats.len() && best_index(turns[i]) is Some ==> {
            let chosen = turns[i][best_index(turns[i])->0];
            &&& beats[i].accepted ==> beats[i].effects@ == chosen.entry.spec.effects_on_accept@
            &&& !beats[i].accepted ==> beats[i].effects@ == chosen.entry.spec.effects_on_reject@
        }
    &&& forall|i: int| 0 <= i < beats.len() - 1 ==> !has_exit((#[trigger] beats[i]).effects@)
    &&& turns.len() == beats.len() + 1 ==> turns.last().len() == 0
    &&& turns.len() == beats.len() ==> (beats.len() == cap || (beats.len() > 0 && has_exit(
        beats.last().effects@,
    )))
}

/// At each turn the scorer was asked, for the participant whose turn it
/// was, to score the practice's `allowed` entries, and returned that turn's
/// list.
pub open spec fn scorer_gave<P, S: ActionScorer<P> + ?Sized>(
    scorer: &S,
    participants: &[String],
    allowed: &[CatalogEntry<P>],
    actors: Seq<&str>,
    turns: Seq<Vec<ScoredAffordance<P>>>,
) -> bool {
    let n = participants@.len() as int;
    &&& actors.len() == turns.len()
    &&& forall|i: int|
        0 <= i < turns.len() ==> (#[trigger] actors[i])@ == participants@[i % n]@
            && call_ensures(S::score_actions, (scorer, actors[i], allowed, participants), turns[i])
}

/// The views of a list of scored lists.
pub open spec fn turn_views<P>(turns: Seq<Vec<ScoredAffordance<P>>>) -> Seq<Seq<ScoredAffordance<P>>> {
    turns.map_values(|t: Vec<ScoredAffordance<P>>| t@)
}

/// At each beat the responder, the participant after the speaker, was asked
/// about the chosen action and gave the beat's answer.
pub open spec fn acceptance_gave<P, A: AcceptanceEval<P> + ?Sized>(
    acceptance: &A,
    participants: Seq<String>,
    responders: Seq<&str>,
    turns: Seq<Vec<ScoredAffordance<P>>>,
    beats: Seq<Beat>,
) -> bool {
    let n = participants.len() as int;
    &&& responders.len() == beats.len()
    &&& forall|i: int|
        0 <= i < beats.len() ==> (#[trigger] responders[i])@ == participants[(i + 1) % n]@
            && call_ensures(
            A::evaluate,
            (acceptance, responders[i], &turns[i]@[best_index(turns[i]@)->0]),
            beats[i].accepted,
        )
}

/// How a scene came out: the scorer was handed the copies (`allowed`) of the
/// catalog entries that the practice lists, at each turn for the participant
/// whose turn it was; each responder was asked about the chosen action; and
/// the beats follow from those answers as [`turns_make_beats`] says.
pub open spec fn scene_played_out<P: Clone, S: ActionScorer<P> + ?Sized, A: AcceptanceEval<P> + ?Sized>(
    scorer: &S,
    acceptance: &A,
    participants: &[String],
    practice: &PracticeSpec,
    catalog: Seq<CatalogEntry<P>>,
    allowed: &[CatalogEntry<P>],
    actors: Seq<&str>,
    responders: Seq<&str>,
    turns: Seq<Vec<ScoredAffordance<P>>>,
    beats: Seq<Beat>,
) -> bool {
    &&& copies_of(allowed@, catalog.filter(listed_in(practice.affordances@)))
    &&& scorer_gave(scorer, participants, allowed, actors, turns)
    &&& acceptance_gave(acceptance, participants@, responders, turns, beats)
    &&& turns_make_beats(participants@, practice.duration_policy.beat_cap() as int, turn_views(turns), beats)
    // a scene that did not stop at an exit or at an empty turn ran the whole
    // length its duration policy gives: `max_beats`, one beat, or (until
    // resolved) without any cap short of `usize::MAX`
    &&& turns.len() == beats.len() ==> (beats.len() > 0 && has_exit(beats.last().effects@))
        || match practice.duration_policy {
        DurationPolicy::MultiBeat { max_beats } => beats.len() == max_beats,
        DurationPolicy::SingleExchange => beats.len() == 1,
        DurationPolicy::UntilResolved => beats.len() == usize::MAX,
    }
}

/// Under a practice that runs until resolved, a scene never stops at a beat
/// cap: unless it has run `usize::MAX` beats, either its last beat holds a
/// practice exit or its last turn offered nothing.
pub proof fn lemma_until_resolved_stops_only_at_exit_or_empty_turn<
    P: Clone,
    S: ActionScorer<P> + ?Sized,
    A: AcceptanceEval<P> + ?Sized,
>(
    scorer: &S,
    acceptance: &A,
    participants: &[String],
    practice: &PracticeSpec,
    catalog: Seq<CatalogEntry<P>>,
    allowed: &[CatalogEntry<P>],
    actors: Seq<&str>,
    responders: Seq<&str>,
    turns: Seq<Vec<ScoredAffordance<P>>>,
    beats: Seq<Beat>,
)
    requires
        scene_played_out(
            scorer,
            acceptance,
            participants,
            practice,
            catalog,
            allowed,
            actors,
            responders,
            turns,
            beats,
        ),
        practice.duration_policy == DurationPolicy::UntilResolved,
        beats.len() < usize::MAX,
    ensures
        (beats.len() > 0 && has_exit(beats.last().effects@)) || (turns.len() == beats.len() + 1
            && turns.last()@.len() == 0),
{
    let views = turn_views(turns);
    if turns.len() == beats.len() + 1 {
        assert(views.last() == turns.last()@);
    }
}

fn name_listed(names: &Vec<String>, name: &String) -> (r: bool)
    ensures
        r == exists|j: int| 0 <= j < names@.len() && (#[trigger] names@[j])@ == name@,
{
    let mut j: usize = 0;
    while j < names.len()
        invariant
            j <= names@.len(),
            forall|k: int| 0 <= k < j ==> (#[trigger] names@[k])@ != name@,
        decreases names.len() - j,
    {
        if names[j] == *name {
            return true;
        }
        j = j + 1;
    }
    false
}

/// Copies of the catalog entries that the practice allows, in catalog order.
fn allowed_entries<P: Clone>(names: &Vec<String>, catalog: &[CatalogEntry<P>]) -> (r: Vec<
    CatalogEntry<P>,
>)
    ensures
        copies_of(r@, catalog@.filter(listed_in(names@))),
{
    let mut r: Vec<CatalogEntry<P>> = Vec::new();
    let mut i: usize = 0;
    while i < catalog.len()
        invariant
            i <= catalog@.len(),
            copies_of(r@, catalog@.take(i as int).filter(listed_in(names@))),
        decreases catalog.len() - i,
    {
        proof {
            assert(catalog@.take(i + 1) == catalog@.take(i as int).push(catalog@[i as int]));
            catalog@.take(i as int).lemma_filter_push(catalog@[i as int], listed_in(names@));
        }
        if name_listed(names, &catalog[i].spec.name) {
            r.push(catalog[i].clone());
        }
        i = i + 1;
    }
    assert(catalog@.take(catalog.len() as int) == catalog@);
    r
}

fn copy_names(names: &[String]) -> (r: Vec<String>)
    ensures
        r@ == names@,
{
    let mut r: Vec<String> = Vec::new();
    let mut i: usize = 0;
    while i < names.len()
        invariant
            i <= names@.len(),
            r@ == names@.take(i as int),
        decreases names.len() - i,
    {
        r.push(names[i].clone());
        assert(names@.take(i + 1) == names@.take(i as int).push(names@[i as int]));
        i = i + 1;
    }
    assert(names@.take(names.len() as int) == names@);
    r
}

fn exit_requested(effects: &Vec<Effect>) -> (r: bool)
    ensures
        r == has_exit(effects@),
{
    let mut i: usize = 0;
    while i < effects.len()
        invariant
            i <= effects@.len(),
            forall|k: int| 0 <= k < i ==> !((#[trigger] effects@[k]) is PracticeExit),
        decreases effects.len() - i,
    {
        if let Effect::PracticeExit { .. } = &effects[i] {
            return true;
        }
        i = i + 1;
    }
    false
}

/// Multi-beat resolution: participants take turns across multiple beats,
/// re-scoring actions each beat. Supports RoundRobin and AdjacencyPair
/// turn policies, and respects PracticeExit effects.
pub struct MultiBeat;

impl MultiBeat {
    /// Generic over P (precondition type). Scores are recomputed each beat
    /// by the provided `scorer`, allowing world-state changes to influence
    /// later action selection.
    ///
    /// Each beat is checked for escalation at its index. With no
    /// participants, no beat is played.
    pub fn resolve<P: Clone, S: ActionScorer<P> + ?Sized, A: AcceptanceEval<P> + ?Sized>(
        &self,
        participants: &[String],
        practice: &PracticeSpec,
        catalog: &[CatalogEntry<P>],
        scorer: &S,
        acceptance: &A,
    ) -> (r: EncounterResult)
        ensures
            r.participants@ == participants@,
            r.practice == Some(practice.name),
            r.buckets_match_beats(),
            r.escalations_match_beats(),
            r.beats@.len() <= practice.duration_policy.beat_cap(),
            match practice.duration_policy {
                DurationPolicy::MultiBeat { max_beats } => r.beats@.len() <= max_beats,
                DurationPolicy::SingleExchange => r.beats@.len() <= 1,
                DurationPolicy::UntilResolved => r.beats@.len() <= usize::MAX,
            },
            participants@.len() == 0 ==> r.beats@.len() == 0,
            forall|i: int|
                0 <= i < r.beats@.len() ==> (#[trigger] r.beats@[i]).actor@ == participants@[i
                    % participants@.len() as int]@,
            participants@.len() > 0 ==> exists|
                allowed: &[CatalogEntry<P>],
                actors: Seq<&str>,
                responders: Seq<&str>,
                turns: Seq<Vec<ScoredAffordance<P>>>,
            |
                #[trigger] scene_played_out(
                    scorer,
                    acceptance,
                    participants,
                    practice,
                    catalog@,
                    allowed,
                    actors,
                    responders,
                    turns,
                    r.beats@,
                ),
    {
        let max_beats: usize = match practice.duration_policy {
            DurationPolicy::MultiBeat { max_beats } => max_beats,
            DurationPolicy::SingleExchange => 1,
            DurationPolicy::UntilResolved => usize::MAX,
        };

        let mut result = EncounterResult::new(copy_names(participants), Some(practice.name.clone()));
        proof {
            assert(result.escalation_requests@ =~= crate::types::escalations_of(result.beats@));
        }

        // Filter catalog to affordances allowed by the practice.
        let allowed_entries = allowed_entries(&practice.affordances, catalog);
        let allowed = allowed_entries.as_slice();

        let n = participants.len();
        if n == 0 {
            return result;
        }
        let ghost participants_seq = participants@;
        let ghost mut turns: Seq<Vec<ScoredAffordance<P>>> = Seq::empty();
        let ghost mut actors: Seq<&str> = Seq::empty();
        let ghost mut responders: Seq<&str> = Seq::empty();

        let mut speaker_idx: usize = 0;
        let mut beat_num: usize = 0;
        let mut done = false;
        while beat_num < max_beats && !done
            invariant
                n == participants@.len(),
                n > 0,
                participants_seq == participants@,
                max_beats == practice.duration_policy.beat_cap(),
                copies_of(allowed@, catalog@.filter(listed_in(practice.affordances@))),
                beat_num <= max_beats,
                speaker_idx <= beat_num,
                !done ==> speaker_idx as int % n as int == beat_num as int % n as int,
                result.participants@ == participants@,
                result.practice == Some(practice.name),
                result.buckets_match_beats(),
                result.escalations_match_beats(),
                result.beats@.len() == beat_num,
                turns.len() == beat_num || (done && turns.len() == beat_num + 1),
                scorer_gave(scorer, participants, allowed, actors, turns),
                acceptance_gave(acceptance, participants@, responders, turns, result.beats@),
                forall|i: int|
                    #![trigger result.beats@[i]]
                    #![trigger turns[i]]
                    0 <= i < beat_num ==> best_index(turns[i]@) is Some && beat_records(
                        result.beats@[i],
                        participants_seq[i % n as int]@,
                        turns[i]@[best_index(turns[i]@)->0],
                        result.beats@[i].accepted,
                    ),
                forall|i: int|
                    0 <= i < beat_num - 1 ==> !has_exit((#[trigger] result.beats@[i]).effects@),
                !done && beat_num > 0 ==> !has_exit(result.beats@[beat_num - 1].effects@),
                done && turns.len() == beat_num + 1 ==> turns.last()@.len() == 0 && (beat_num > 0
                    ==> !has_exit(result.beats@[beat_num - 1].effects@)),
                done && turns.len() == beat_num ==> beat_num > 0 && has_exit(
                    result.beats@[beat_num - 1].effects@,
                ),
            decreases max_beats - beat_num, if done { 0int } else { 1int },
        {
            let speaker = participants[speaker_idx % n].as_str();
            let responder_idx = (speaker_idx + 1) % n;
            let responder = participants[responder_idx].as_str();

            let scored = scorer.score_actions(speaker, allowed, participants);
            let ghost before = turns;
            let ghost before_actors = actors;
            proof {
                vstd::arithmetic::div_mod::lemma_add_mod_noop(speaker_idx as int, 1, n as int);
                vstd::arithmetic::div_mod::lemma_add_mod_noop(beat_num as int, 1, n as int);
                vstd::arithmetic::div_mod::lemma_mod_twice(speaker_idx as int + 1, n as int);
                vstd::arithmetic::div_mod::lemma_mod_decreases((speaker_idx + 1) as nat, n as nat);
                turns = turns.push(scored);
                actors = actors.push(speaker);
                assert forall|i: int| 0 <= i < beat_num implies #[trigger] turns[i] == before[i] by {}
                let k = beat_num as int;
                assert(turns[k] == scored);
                assert(actors[k] == speaker);
                assert forall|i: int|
                    0 <= i < turns.len() implies (#[trigger] actors[i])@ == participants@[i % n as int]@
                        && call_ensures(S::score_actions, (scorer, actors[i], allowed, participants), turns[i]) by {
                    if i < k {
                        assert(actors[i] == before_actors[i]);
                    }
                }
            }
            match choose_best(scored.as_slice()) {
                None => {
                    done = true;
                },
                Some(best) => {
                    let accepted = acceptance.evaluate(responder, &scored[best]);
                    let beat = beat_for(speaker, &scored[best], accepted);
                    let exit = exit_requested(&beat.effects);
                    let ghost pushed = beat;
                    let ghost old_beats = result.beats@;
                    let ghost before_responders = responders;
                    result.push_beat_checked(beat);
                    proof {
                        responders = responders.push(responder);
                        let k = beat_num as int;
                        assert(result.beats@[k] == pushed);
                        assert forall|i: int|
                            #![trigger result.beats@[i]]
                            0 <= i < beat_num + 1 implies best_index(turns[i]@) is Some && beat_records(
                                result.beats@[i],
                                participants_seq[i % n as int]@,
                                turns[i]@[best_index(turns[i]@)->0],
                                result.beats@[i].accepted,
                            ) by {
                            if i < k {
                                assert(result.beats@[i] == old_beats[i]);
                            }
                        }
                        assert forall|i: int|
                            0 <= i < beat_num implies !has_exit((#[trigger] result.beats@[i]).effects@) by {
                            assert(result.beats@[i] == old_beats[i]);
                        }
                        assert forall|i: int|
                            0 <= i < result.beats@.len() implies (#[trigger] responders[i])@ == participants@[(i + 1) % n as int]@
                                && call_ensures(
                                A::evaluate,
                                (acceptance, responders[i], &turns[i]@[best_index(turns[i]@)->0]),
                                result.beats@[i].accepted,
                            ) by {
                            if i < k {
                                assert(result.beats@[i] == old_beats[i]);
                                assert(responders[i] == before_responders[i]);
                            }
                        }
                    }
                    if exit {
                        done = true;
                    } else {
                        speaker_idx = match practice.turn_policy {
                            TurnPolicy::RoundRobin => speaker_idx + 1,
                            TurnPolicy::AdjacencyPair => responder_idx,
                            TurnPolicy::Custom => speaker_idx + 1,
                        };
                    }
                    beat_num = beat_num + 1;
                },
            }
        }
        proof {
            let views = turn_views(turns);
            assert forall|i: int| 0 <= i < turns.len() implies #[trigger] views[i] == turns[i]@ by {}
            assert(turns_make_beats(
                participants@,
                practice.duration_policy.beat_cap() as int,
                views,
                result.beats@,
            ));
            assert(scene_played_out(
                scorer,
                acceptance,
                participants,
                practice,
                catalog@,
                allowed,
                actors,
                responders,
                turns,
                result.beats@,
            ));
        }
        result
    }
}

} // verus!
