//! Resolution protocols for encounter resolution, and the rule by which one
//! chosen action becomes a beat.

use vstd::prelude::*;

use crate::scoring::ScoredAffordance;
use crate::types::{clone_effects, Beat};

pub mod background;
pub mod multi_beat;
pub mod single;

pub use background::{BackgroundScheme, SchemePhase, SchemeState};
pub use multi_beat::MultiBeat;
pub use single::SingleExchange;

verus! {

/// `beat` records `actor` performing the chosen action, with the responder's
/// answer `accepted`: the effects are the action's accept effects when it was
/// accepted and its reject effects otherwise.
pub open spec fn beat_records<P>(
    beat: Beat,
    actor: Seq<char>,
    chosen: ScoredAffordance<P>,
    accepted: bool,
) -> bool {
    &&& beat.actor@ == actor
    &&& beat.action == chosen.entry.spec.name
    &&& beat.accepted == accepted
    &&& beat.effects@ == if accepted {
        chosen.entry.spec.effects_on_accept@
    } else {
        chosen.entry.spec.effects_on_reject@
    }
}

/// A recorded beat carries exactly the chosen action's accept effects when
/// the answer was yes, and exactly its reject effects when it was no.
pub proof fn lemma_beat_effects_follow_answer<P>(
    beat: Beat,
    actor: Seq<char>,
    chosen: ScoredAffordance<P>,
    accepted: bool,
)
    requires
        beat_records(beat, actor, chosen, accepted),
    ensures
        beat.accepted == accepted,
        accepted ==> beat.effects@ == chosen.entry.spec.effects_on_accept@,
        !accepted ==> beat.effects@ == chosen.entry.spec.effects_on_reject@,
{
}

/// The beat in which `actor` performs `chosen` and the responder answers `accepted`.
pub(crate) fn beat_for<P>(actor: &str, chosen: &ScoredAffordance<P>, accepted: bool) -> (b: Beat)
    ensures
        beat_records(b, actor@, *chosen, accepted),
        b.actor@ == actor@,
        b.action == chosen.entry.spec.name,
        b.accepted == accepted,
        accepted ==> b.effects@ == chosen.entry.spec.effects_on_accept@,
        !accepted ==> b.effects@ == chosen.entry.spec.effects_on_reject@,
{
    let effects = if accepted {
        clone_effects(&chosen.entry.spec.effects_on_accept)
    } else {
        clone_effects(&chosen.entry.spec.effects_on_reject)
    };
    Beat {
        actor: String::from_str(actor),
        action: chosen.entry.spec.name.clone(),
        accepted,
        effects,
    }
}

} // verus!
