//! Scoring traits and scored affordance types for encounter resolution.
//!
//! This module provides [`ScoredAffordance`], [`AcceptanceEval`], and
//! [`ActionScorer`] — the core interfaces consumers implement to plug in
//! utility scoring and acceptance logic — and the rule by which a protocol
//! picks the best-scored action.

use std::collections::HashMap;
use vstd::prelude::*;

use crate::affordance::CatalogEntry;
use crate::binary64::Real;

verus! {

broadcast use vstd::seq_lib::group_seq_properties;

/// An affordance that has been sifted and scored. Input to resolution protocols.
/// Generic over precondition type P (from CatalogEntry<P>). Default is String.
#[derive(Debug)]
pub struct ScoredAffordance<P = String> {
    /// The catalog entry being scored.
    pub entry: CatalogEntry<P>,
    /// The computed utility score for this affordance.
    pub score: Real,
    /// Resolved slot bindings for this affordance instance.
    pub bindings: HashMap<String, String>,
}

impl<P: Clone> Clone for ScoredAffordance<P> {
    fn clone(&self) -> (r: ScoredAffordance<P>)
        ensures
            r.entry.spec.same_as(self.entry.spec),
            cloned::<P>(self.entry.precondition, r.entry.precondition),
            r.score == self.score,
            r.bindings@ == self.bindings@,
    {
        ScoredAffordance {
            entry: self.entry.clone(),
            score: self.score,
            bindings: self.bindings.clone(),
        }
    }
}

/// Evaluates whether a responder accepts an action.
/// Generic over P to match ScoredAffordance<P>.
pub trait AcceptanceEval<P = String> {
    /// Returns true if the responder accepts the given scored action.
    fn evaluate(&self, responder: &str, action: &ScoredAffordance<P>) -> bool;
}

/// Scores available affordances for an actor.
pub trait ActionScorer<P = String> {
    /// Returns a scored and ordered list of affordances available to the actor.
    fn score_actions(
        &self,
        actor: &str,
        available: &[CatalogEntry<P>],
        participants: &[String],
    ) -> Vec<ScoredAffordance<P>>;
}

/// Test helper: always accepts any action for any responder.
pub struct AlwaysAccept;

impl<P> AcceptanceEval<P> for AlwaysAccept {
    fn evaluate(&self, _responder: &str, _action: &ScoredAffordance<P>) -> (r: bool)
        ensures
            r,
    {
        true
    }
}

/// Test helper: always rejects any action for any responder.
pub struct AlwaysReject;

impl<P> AcceptanceEval<P> for AlwaysReject {
    fn evaluate(&self, _responder: &str, _action: &ScoredAffordance<P>) -> (r: bool)
        ensures
            !r,
    {
        false
    }
}

/// The index of the action a protocol picks from `scored`: scanning in
/// order, each action replaces the best so far unless the best so far has a
/// strictly greater score (an incomparable NaN score does not keep it).
/// `None` when there is nothing to pick.
pub open spec fn best_index<P>(scored: Seq<ScoredAffordance<P>>) -> Option<int>
    decreases scored.len(),
{
    if scored.len() == 0 {
        None
    } else {
        match best_index(scored.drop_last()) {
            None => Some(scored.len() - 1),
            Some(b) => if scored[b].score.gt_spec(scored.last().score) {
                Some(b)
            } else {
                Some(scored.len() - 1)
            },
        }
    }
}

/// The pick exists exactly when there is something to pick, and is an
/// index of `scored`.
pub proof fn lemma_best_index_in_range<P>(scored: Seq<ScoredAffordance<P>>)
    ensures
        best_index(scored) is None <==> scored.len() == 0,
        best_index(scored) matches Some(b) ==> 0 <= b < scored.len(),
    decreases scored.len(),
{
    if scored.len() > 0 {
        lemma_best_index_in_range(scored.drop_last());
    }
}

/// When no score is a NaN, the picked action has the highest score, and it
/// is the last one with that score: every other score is at most it, and
/// every later one is strictly below it.
pub proof fn lemma_best_index_is_highest<P>(scored: Seq<ScoredAffordance<P>>)
    requires
        forall|i: int| 0 <= i < scored.len() ==> !(#[trigger] scored[i].score).nan(),
    ensures
        best_index(scored) matches Some(b) ==> (forall|j: int|
            0 <= j < scored.len() ==> (#[trigger] scored[j].score).le_spec(scored[b].score)),
        best_index(scored) matches Some(b) ==> (forall|j: int|
            b < j < scored.len() ==> (#[trigger] scored[j].score).lt_spec(scored[b].score)),
    decreases scored.len(),
{
    if scored.len() > 0 {
        let rest = scored.drop_last();
        assert forall|i: int| 0 <= i < rest.len() implies !(#[trigger] rest[i].score).nan() by {
            assert(rest[i] == scored[i]);
        }
        lemma_best_index_is_highest(rest);
        lemma_best_index_in_range(rest);
        let last = scored.len() - 1;
        assert(!scored[last].score.nan());
        match best_index(rest) {
            None => {},
            Some(b) => {
                assert(rest[b] == scored[b]);
                assert forall|j: int| 0 <= j < rest.len() implies (#[trigger] scored[j].score).le_spec(
                    rest[b].score,
                ) by {
                    assert(rest[j] == scored[j]);
                }
                assert forall|j: int| b < j < rest.len() implies (#[trigger] scored[j].score).lt_spec(
                    rest[b].score,
                ) by {
                    assert(rest[j] == scored[j]);
                }
            },
        }
    }
}

/// Picks the highest-scored action of `scored`, as [`best_index`] defines it.
pub fn choose_best<P>(scored: &[ScoredAffordance<P>]) -> (r: Option<usize>)
    ensures
        match r {
            Some(i) => best_index(scored@) == Some(i as int) && i < scored@.len(),
            None => best_index(scored@) is None && scored@.len() == 0,
        },
{
    let mut best: Option<usize> = None;
    let mut i: usize = 0;
    while i < scored.len()
        invariant
            i <= scored@.len(),
            match best {
                Some(b) => best_index(scored@.take(i as int)) == Some(b as int) && b < i,
                None => best_index(scored@.take(i as int)) is None && i == 0,
            },
        decreases scored.len() - i,
    {
        assert(scored@.take(i + 1).drop_last() == scored@.take(i as int));
        match best {
            None => {
                best = Some(i);
            },
            Some(b) => {
                if !scored[b].score.gt(&scored[i].score) {
                    best = Some(i);
                }
            },
        }
        i = i + 1;
    }
    assert(scored@.take(scored.len() as int) == scored@);
    best
}

} // verus!
