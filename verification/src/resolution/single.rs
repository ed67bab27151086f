//! CiF-style one-shot resolution protocol.

use vstd::prelude::*;

use crate::resolution::{beat_for, beat_records};
use crate::scoring::{best_index, choose_best, AcceptanceEval, ScoredAffordance};
use crate::types::{all_effects, lemma_all_effects_push, Beat, EncounterResult};

verus! {

/// What a single exchange between `initiator` and `responder` over
/// `available` yields: a result naming the two of them, in that order, with
/// no practice and no escalation, whose buckets match its beats; no beat when
/// nothing is available, and otherwise one beat in which the initiator
/// performs the action [`best_index`] picks, with the beat's answer.
pub open spec fn single_exchange_outcome<P>(
    initiator: Seq<char>,
    responder: Seq<char>,
    available: Seq<ScoredAffordance<P>>,
    r: EncounterResult,
) -> bool {
    &&& r.participants@.len() == 2
    &&& r.participants@[0]@ == initiator
    &&& r.participants@[1]@ == responder
    &&& r.practice is None
    &&& !r.escalation_requested
    &&& r.escalation_requests@.len() == 0
    &&& r.buckets_match_beats()
    &&& available.len() == 0 ==> r.beats@.len() == 0
    &&& available.len() > 0 ==> r.beats@.len() == 1 && beat_records(
        r.beats@[0],
        initiator,
        available[best_index(available)->0],
        r.beats@[0].accepted,
    )
    // an accepted beat carries exactly the accept effects, a rejected one exactly the reject effects
    &&& available.len() > 0 ==> {
        let chosen = available[best_index(available)->0];
        &&& r.beats@[0].accepted ==> r.beats@[0].effects@ == chosen.entry.spec.effects_on_accept@
        &&& !r.beats@[0].accepted ==> r.beats@[0].effects@
            == chosen.entry.spec.effects_on_reject@
    }
}

/// Two scored lists offer the same choices: the same specs with the same
/// scores, in the same order, whatever their preconditions are.
pub open spec fn same_choices<P, Q>(a: Seq<ScoredAffordance<P>>, b: Seq<ScoredAffordance<Q>>) -> bool {
    &&& a.len() == b.len()
    &&& forall|i: int|
        0 <= i < a.len() ==> (#[trigger] a[i]).entry.spec.same_as(b[i].entry.spec) && a[i].score
            == b[i].score
}

/// The pick depends on the scores alone.
pub proof fn lemma_best_index_same_choices<P, Q>(a: Seq<ScoredAffordance<P>>, b: Seq<ScoredAffordance<Q>>)
    requires
        same_choices(a, b),
    ensures
        best_index(a) == best_index(b),
    decreases a.len(),
{
    if a.len() > 0 {
        assert forall|i: int| 0 <= i < a.len() - 1 implies (#[trigger] a.drop_last()[i]).entry.spec.same_as(
            b.drop_last()[i].entry.spec,
        ) && a.drop_last()[i].score == b.drop_last()[i].score by {
            assert(a.drop_last()[i] == a[i]);
            assert(b.drop_last()[i] == b[i]);
        }
        lemma_best_index_same_choices(a.drop_last(), b.drop_last());
        crate::scoring::lemma_best_index_in_range(a.drop_last());
        let last = a.len() - 1;
        assert(a[last].score == b[last].score);
        match best_index(a.drop_last()) {
            None => {},
            Some(k) => {
                assert(a.drop_last()[k] == a[k]);
                assert(b.drop_last()[k] == b[k]);
                assert(a[k].score == b[k].score);
            },
        }
    }
}

/// Sequences of beats with the same effects, beat by beat, have the same
/// effects in all.
pub proof fn lemma_all_effects_same(x: Seq<Beat>, y: Seq<Beat>)
    requires
        x.len() == y.len(),
        forall|i: int| 0 <= i < x.len() ==> (#[trigger] x[i]).effects@ == y[i].effects@,
    ensures
        all_effects(x) == all_effects(y),
    decreases x.len(),
{
    if x.len() > 0 {
        let n = x.len() - 1;
        assert forall|i: int| 0 <= i < n implies (#[trigger] x.drop_last()[i]).effects@
            == y.drop_last()[i].effects@ by {
            assert(x.drop_last()[i] == x[i]);
            assert(y.drop_last()[i] == y[i]);
        }
        lemma_all_effects_same(x.drop_last(), y.drop_last());
        lemma_all_effects_push(x.drop_last(), x[n]);
        lemma_all_effects_push(y.drop_last(), y[n]);
        assert(x.drop_last().push(x[n]) == x);
        assert(y.drop_last().push(y[n]) == y);
    } else {
        assert(x == Seq::<Beat>::empty());
        assert(y == Seq::<Beat>::empty());
    }
}

/// The protocol never inspects the precondition: two exchanges over lists
/// with the same choices (specs and scores), whatever their precondition
/// types, in which the responder gives the same answer, agree on the
/// participants, the practice, the beats and every effect bucket.
pub proof fn lemma_single_exchange_ignores_precondition<P, Q>(
    initiator: Seq<char>,
    responder: Seq<char>,
    a: Seq<ScoredAffordance<P>>,
    b: Seq<ScoredAffordance<Q>>,
    r: EncounterResult,
    r2: EncounterResult,
)
    requires
        same_choices(a, b),
        single_exchange_outcome(initiator, responder, a, r),
        single_exchange_outcome(initiator, responder, b, r2),
        r.beats@.len() > 0 && r2.beats@.len() > 0 ==> r.beats@[0].accepted
            == r2.beats@[0].accepted,
    ensures
        r.participants@.len() == r2.participants@.len(),
        forall|k: int| 0 <= k < r.participants@.len() ==> (#[trigger] r.participants@[k])@
            == r2.participants@[k]@,
        r.practice == r2.practice,
        r.beats@.len() == r2.beats@.len(),
        forall|i: int|
            0 <= i < r.beats@.len() ==> (#[trigger] r.beats@[i]).actor@ == r2.beats@[i].actor@
                && r.beats@[i].action == r2.beats@[i].action && r.beats@[i].accepted
                == r2.beats@[i].accepted && r.beats@[i].effects@ == r2.beats@[i].effects@,
        r.relationship_deltas@ == r2.relationship_deltas@,
        r.knowledge_transfers@ == r2.knowledge_transfers@,
        r.emotional_events@ == r2.emotional_events@,
        r.value_shifts@ == r2.value_shifts@,
        r.escalation_requested == r2.escalation_requested,
        r.escalation_requests@ == r2.escalation_requests@,
{
    lemma_best_index_same_choices(a, b);
    if a.len() > 0 {
        crate::scoring::lemma_best_index_in_range(a);
        let k = best_index(a)->0;
        assert(a[k].entry.spec.same_as(b[k].entry.spec));
    }
    assert(r.escalation_requests@ =~= r2.escalation_requests@);
    lemma_all_effects_same(r.beats@, r2.beats@);
}

/// Single-exchange resolution: initiator picks highest-scored action,
/// responder accepts or rejects, effects fire, one beat is recorded.
pub struct SingleExchange;

impl SingleExchange {
    /// Generic over P (precondition type). Protocol never inspects P.
    ///
    /// The result names the initiator and the responder, in that order, and
    /// no practice. With nothing available it holds no beat; otherwise it
    /// holds one beat: the initiator performs the action [`best_index`]
    /// picks, with the answer that `acceptance` gave the responder for it.
    pub fn resolve<P, A: AcceptanceEval<P> + ?Sized>(
        &self,
        initiator: &str,
        responder: &str,
        available: &[ScoredAffordance<P>],
        acceptance: &A,
    ) -> (r: EncounterResult)
        ensures
            single_exchange_outcome(initiator@, responder@, available@, r),
            available@.len() > 0 ==> call_ensures(
                A::evaluate,
                (acceptance, responder, &available@[best_index(available@)->0]),
                r.beats@[0].accepted,
            ),
    {
        let mut participants: Vec<String> = Vec::new();
        participants.push(String::from_str(initiator));
        participants.push(String::from_str(responder));
        let mut result = EncounterResult::new(participants, None);

        let best = match choose_best(available) {
            Some(b) => b,
            None => {
                return result;
            },
        };

        let accepted = acceptance.evaluate(responder, &available[best]);
        let beat = beat_for(initiator, &available[best], accepted);
        result.push_beat(beat);
        result
    }
}

} // verus!
