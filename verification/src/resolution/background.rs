//! BackgroundScheme resolution protocol — CK3-style long-duration plot.

use vstd::prelude::*;

use crate::binary64::Real;
use crate::escalation::escalation_for;
use crate::types::{escalation_seq, Beat, Effect, EncounterResult};

verus! {

/// Phase of a background scheme.
#[derive(Clone, Copy, Debug, PartialEq, Eq, Structural)]
pub enum SchemePhase {
    /// The scheme is being set up; no progress has been made yet.
    Preparation,
    /// The scheme is actively in motion.
    Execution,
    /// The scheme has reached its threshold and is complete.
    Resolved,
}

impl SchemePhase {
    /// How far along the lifecycle the phase is: 0, 1 and 2 in order.
    pub open spec fn stage(self) -> int {
        match self {
            SchemePhase::Preparation => 0,
            SchemePhase::Execution => 1,
            SchemePhase::Resolved => 2,
        }
    }
}

/// State of an ongoing background scheme.
#[derive(Debug)]
pub struct SchemeState {
    /// The character running the scheme.
    pub initiator: String,
    /// The character the scheme is directed against.
    pub target: String,
    /// Identifier for the type of scheme (e.g. `"assassination"`).
    pub scheme_type: String,
    /// Accumulated progress toward the threshold.
    pub progress: Real,
    /// Progress value at which the scheme resolves.
    pub threshold: Real,
    /// Current phase of the scheme lifecycle.
    pub phase: SchemePhase,
    /// Labels describing situational advantages held by the initiator.
    pub advantages: Vec<String>,
}

impl Clone for SchemeState {
    fn clone(&self) -> (r: SchemeState)
        ensures
            r.initiator == self.initiator,
            r.target == self.target,
            r.scheme_type == self.scheme_type,
            r.progress == self.progress,
            r.threshold == self.threshold,
            r.phase == self.phase,
            r.advantages@ == self.advantages@,
    {
        let advantages = self.advantages.clone();
        assert(advantages@ =~= self.advantages@);
        SchemeState {
            initiator: self.initiator.clone(),
            target: self.target.clone(),
            scheme_type: self.scheme_type.clone(),
            progress: self.progress,
            threshold: self.threshold,
            phase: self.phase,
            advantages,
        }
    }
}

/// The long-running plot protocol: a [`SchemeState`] advanced tick by tick.
pub type BackgroundScheme = SchemeState;

impl SchemeState {
    /// The phase after a tick that left the progress at `progress`: resolved
    /// once the progress reaches the threshold, in execution once a scheme in
    /// preparation has some progress, and otherwise unchanged.
    pub open spec fn phase_after(self, progress: Real) -> SchemePhase {
        if progress.ge_spec(self.threshold) {
            SchemePhase::Resolved
        } else if self.phase == SchemePhase::Preparation && progress.gt_spec(Real::zero_spec()) {
            SchemePhase::Execution
        } else {
            self.phase
        }
    }

    /// A tick that reaches the threshold resolves the scheme; one that leaves
    /// a scheme in preparation with some progress short of the threshold puts
    /// it in execution; any other tick keeps the phase.
    pub proof fn lemma_phase_after(self, progress: Real)
        ensures
            progress.ge_spec(self.threshold) ==> self.phase_after(progress) == SchemePhase::Resolved,
            self.phase == SchemePhase::Preparation && progress.gt_spec(Real::zero_spec())
                && !progress.ge_spec(self.threshold) ==> self.phase_after(progress)
                == SchemePhase::Execution,
            !progress.ge_spec(self.threshold) && !(self.phase == SchemePhase::Preparation
                && progress.gt_spec(Real::zero_spec())) ==> self.phase_after(progress)
                == self.phase,
            self.phase_after(progress).stage() >= self.phase.stage(),
    {
    }

    /// The action name of the beat that resolves the scheme.
    pub open spec fn resolution_action(self) -> Seq<char> {
        self.scheme_type@ + "_resolution"@
    }

    /// Create a new scheme in the [`SchemePhase::Preparation`] phase with zero progress.
    pub fn new(initiator: String, target: String, scheme_type: String, threshold: Real) -> (r: Self)
        ensures
            r.initiator == initiator,
            r.target == target,
            r.scheme_type == scheme_type,
            r.progress == Real::zero_spec(),
            r.threshold == threshold,
            r.phase == SchemePhase::Preparation,
            r.advantages@.len() == 0,
    {
        SchemeState {
            initiator,
            target,
            scheme_type,
            progress: Real::zero(),
            threshold,
            phase: SchemePhase::Preparation,
            advantages: Vec::new(),
        }
    }

    /// Advance progress by one tick. Returns true if the scheme resolved this tick.
    ///
    /// `progress_plus_delta` is the current progress plus the tick's delta,
    /// added in binary64 by the caller. The new progress is that sum, raised
    /// to `0.0` when it is below zero or a NaN.
    pub fn advance(&mut self, progress_plus_delta: Real) -> (resolved: bool)
        ensures
            final(self).progress == progress_plus_delta.max_spec(Real::zero_spec()),
            final(self).phase == old(self).phase_after(final(self).progress),
            resolved == final(self).progress.ge_spec(old(self).threshold),
            resolved ==> final(self).phase == SchemePhase::Resolved,
            final(self).initiator == old(self).initiator,
            final(self).target == old(self).target,
            final(self).scheme_type == old(self).scheme_type,
            final(self).threshold == old(self).threshold,
            final(self).advantages == old(self).advantages,
            // the new progress is the sum, or 0.0 when the sum is below zero or a NaN
            progress_plus_delta.ge_spec(Real::zero_spec()) ==> final(self).progress
                == progress_plus_delta,
            progress_plus_delta.lt_spec(Real::zero_spec()) || progress_plus_delta.nan()
                ==> final(self).progress == Real::zero_spec(),
            // reaching the threshold resolves the scheme
            final(self).progress.ge_spec(old(self).threshold) ==> final(self).phase
                == SchemePhase::Resolved,
            // a scheme in preparation that has some progress, short of the
            // threshold, is in execution
            old(self).phase == SchemePhase::Preparation && final(self).progress.gt_spec(
                Real::zero_spec(),
            ) && !final(self).progress.ge_spec(old(self).threshold) ==> final(self).phase
                == SchemePhase::Execution,
            // otherwise the phase stays
            !final(self).progress.ge_spec(old(self).threshold) && !(old(self).phase
                == SchemePhase::Preparation && final(self).progress.gt_spec(Real::zero_spec()))
                ==> final(self).phase == old(self).phase,
            // progress never goes below zero
            !final(self).progress.nan(),
            final(self).progress.order_key() >= 0,
            // the phase never moves back
            final(self).phase.stage() >= old(self).phase.stage(),
    {
        self.progress = progress_plus_delta.max(&Real::zero());
        let zero = Real::zero();
        if self.phase == SchemePhase::Preparation && self.progress.gt(&zero) {
            self.phase = SchemePhase::Execution;
        }
        if self.progress.ge(&self.threshold) {
            self.phase = SchemePhase::Resolved;
            return true;
        }
        false
    }

    /// Record an advantage label for the initiator.
    pub fn add_advantage(&mut self, label: String)
        ensures
            final(self).advantages@ == old(self).advantages@.push(label),
            final(self).initiator == old(self).initiator,
            final(self).target == old(self).target,
            final(self).scheme_type == old(self).scheme_type,
            final(self).progress == old(self).progress,
            final(self).threshold == old(self).threshold,
            final(self).phase == old(self).phase,
    {
        self.advantages.push(label);
    }

    /// Convert the scheme to an EncounterResult with one beat: the initiator's
    /// resolution action, accepted exactly when the scheme has resolved, with
    /// the success effects if so and the failure effects otherwise. The beat
    /// is checked for escalation at index 0.
    pub fn to_result(&self, success_effects: Vec<Effect>, failure_effects: Vec<Effect>) -> (r:
        EncounterResult)
        ensures
            r.participants@.len() == 2,
            r.participants@[0] == self.initiator,
            r.participants@[1] == self.target,
            r.practice == Some(self.scheme_type),
            r.beats@.len() == 1,
            r.beats@[0].actor == self.initiator,
            r.beats@[0].action@ == self.resolution_action(),
            r.beats@[0].accepted == (self.phase == SchemePhase::Resolved),
            r.beats@[0].effects@ == if self.phase == SchemePhase::Resolved {
                success_effects@
            } else {
                failure_effects@
            },
            r.escalation_requests@ == escalation_seq(escalation_for(r.beats@[0], 0)),
            r.escalation_requested == escalation_for(r.beats@[0], 0) is Some,
            r.buckets_match_beats(),
            r.escalations_match_beats(),
    {
        let success = self.phase == SchemePhase::Resolved;
        let effects = if success {
            success_effects
        } else {
            failure_effects
        };
        let mut participants: Vec<String> = Vec::new();
        participants.push(self.initiator.clone());
        participants.push(self.target.clone());
        let mut result = EncounterResult::new(participants, Some(self.scheme_type.clone()));
        let beat = Beat {
            actor: self.initiator.clone(),
            action: self.scheme_type.clone().concat("_resolution"),
            accepted: success,
            effects,
        };
        assert(result.escalation_requests@ =~= crate::types::escalations_of(result.beats@));
        result.push_beat_checked(beat);
        result
    }
}

} // verus!
