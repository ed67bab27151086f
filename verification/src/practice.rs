//! Practice specification types: [`PracticeSpec`], [`TurnPolicy`], and [`DurationPolicy`].

use vstd::prelude::*;

verus! {

/// Controls whose turn it is at each beat of a practice.
#[derive(Clone, Copy, Debug, PartialEq, Eq, Structural)]
pub enum TurnPolicy {
    /// Participants take turns in a fixed rotation.
    RoundRobin,
    /// Each initiating utterance is paired with a response (adjacency pair).
    AdjacencyPair,
    /// Turn order is determined by a consumer-supplied callback.
    Custom,
}

impl Default for TurnPolicy {
    fn default() -> (r: TurnPolicy)
        ensures
            r == TurnPolicy::RoundRobin,
    {
        TurnPolicy::RoundRobin
    }
}

/// Controls how long a practice runs.
#[derive(Clone, Copy, Debug, PartialEq, Eq, Structural)]
pub enum DurationPolicy {
    /// A single initiator/responder exchange, then the practice ends.
    SingleExchange,
    /// Turn-based scene that continues until resolved or a beat cap is hit.
    MultiBeat {
        /// Maximum number of beats before the practice is forced to end.
        max_beats: usize,
    },
    /// The practice runs until a resolution condition is satisfied.
    UntilResolved,
}

impl Default for DurationPolicy {
    fn default() -> (r: DurationPolicy)
        ensures
            r == DurationPolicy::SingleExchange,
    {
        DurationPolicy::SingleExchange
    }
}

impl DurationPolicy {
    /// The most beats a practice under this policy may run: the cap of
    /// `MultiBeat`, one for `SingleExchange`, and `usize::MAX` for `UntilResolved`.
    pub open spec fn beat_cap(self) -> usize {
        match self {
            DurationPolicy::MultiBeat { max_beats } => max_beats,
            DurationPolicy::SingleExchange => 1,
            DurationPolicy::UntilResolved => usize::MAX,
        }
    }
}

/// Full specification for a practice, deserialized from a TOML definition file.
#[derive(Debug, PartialEq)]
pub struct PracticeSpec {
    /// Human-readable name for this practice (e.g. "negotiation").
    pub name: String,
    /// Affordance identifiers available within this practice.
    pub affordances: Vec<String>,
    /// How turn order is determined. Defaults to [`TurnPolicy::RoundRobin`].
    pub turn_policy: TurnPolicy,
    /// How long the practice runs. Defaults to [`DurationPolicy::SingleExchange`].
    pub duration_policy: DurationPolicy,
    /// Raw fabula DSL source for the practice entry condition. Empty means always enterable.
    pub entry_condition_source: String,
}

impl Clone for PracticeSpec {
    fn clone(&self) -> (r: PracticeSpec)
        ensures
            r.name == self.name,
            r.affordances@ == self.affordances@,
            r.turn_policy == self.turn_policy,
            r.duration_policy == self.duration_policy,
            r.entry_condition_source == self.entry_condition_source,
    {
        let affordances = self.affordances.clone();
        assert(affordances@ =~= self.affordances@);
        PracticeSpec {
            name: self.name.clone(),
            affordances,
            turn_policy: self.turn_policy,
            duration_policy: self.duration_policy,
            entry_condition_source: self.entry_condition_source.clone(),
        }
    }
}

} // verus!
