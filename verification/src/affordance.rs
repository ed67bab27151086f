//! Affordance catalog types: [`AffordanceSpec`] and [`CatalogEntry`].

use vstd::prelude::*;

use crate::types::{ConsiderationSpec, DriveAlignment, Effect};

verus! {

/// Metadata for a single action, as a catalog TOML file describes it.
#[derive(Debug, PartialEq)]
pub struct AffordanceSpec {
    /// Human-readable name for this action.
    pub name: String,
    /// The practice domain this action belongs to (e.g. "negotiation").
    pub domain: String,
    /// Slot bindings required to instantiate this action (e.g. ["initiator", "target"]).
    pub bindings: Vec<String>,
    /// Utility-scoring considerations evaluated before scoring this action.
    pub considerations: Vec<ConsiderationSpec>,
    /// Effects that fire when the target accepts this action.
    pub effects_on_accept: Vec<Effect>,
    /// Effects that fire when the target rejects this action.
    pub effects_on_reject: Vec<Effect>,
    /// Drive alignments that motivate choosing this action.
    pub drive_alignment: Vec<DriveAlignment>,
}

impl AffordanceSpec {
    /// Two specs hold the same name, domain, bindings, considerations,
    /// effects and drive alignments.
    pub open spec fn same_as(self, other: AffordanceSpec) -> bool {
        &&& self.name == other.name
        &&& self.domain == other.domain
        &&& self.bindings@ == other.bindings@
        &&& self.considerations@ == other.considerations@
        &&& self.effects_on_accept@ == other.effects_on_accept@
        &&& self.effects_on_reject@ == other.effects_on_reject@
        &&& self.drive_alignment@ == other.drive_alignment@
    }
}

impl Clone for AffordanceSpec {
    fn clone(&self) -> (r: AffordanceSpec)
        ensures
            r.same_as(*self),
    {
        let bindings = self.bindings.clone();
        let considerations = self.considerations.clone();
        let effects_on_accept = self.effects_on_accept.clone();
        let effects_on_reject = self.effects_on_reject.clone();
        let drive_alignment = self.drive_alignment.clone();
        assert(bindings@ =~= self.bindings@);
        assert(considerations@ =~= self.considerations@);
        assert(effects_on_accept@ =~= self.effects_on_accept@);
        assert(effects_on_reject@ =~= self.effects_on_reject@);
        assert(drive_alignment@ =~= self.drive_alignment@);
        AffordanceSpec {
            name: self.name.clone(),
            domain: self.domain.clone(),
            bindings,
            considerations,
            effects_on_accept,
            effects_on_reject,
            drive_alignment,
        }
    }
}

/// An affordance spec paired with a compiled or raw precondition.
///
/// The default type parameter `P = String` holds raw fabula DSL text.
/// Bridge crates may substitute a typed pattern by specializing `P`.
#[derive(Debug)]
pub struct CatalogEntry<P = String> {
    /// The affordance metadata.
    pub spec: AffordanceSpec,
    /// The precondition that must hold for this action to be available.
    pub precondition: P,
}

impl<P: Clone> Clone for CatalogEntry<P> {
    fn clone(&self) -> (r: CatalogEntry<P>)
        ensures
            r.spec.same_as(self.spec),
            cloned::<P>(self.precondition, r.precondition),
    {
        CatalogEntry { spec: self.spec.clone(), precondition: self.precondition.clone() }
    }
}

} // verus!
