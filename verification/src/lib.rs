//! Resolution engine for multi-character scenes.
//!
//! Given a catalog of actions and the characters present, the library runs
//! one of three resolution protocols and produces a structured sequence of
//! beats and typed effects, replayable and testable:
//!
//! - [`SingleExchange`]: one initiator picks an action, the responder accepts
//!   or rejects, and the scene is over.
//! - [`MultiBeat`]: a turn-based scene; participants take turns and scoring is
//!   recomputed each beat.
//! - [`BackgroundScheme`]: a long-running plot that accumulates progress over
//!   many ticks, then resolves to one consequential beat.
//!
//! Scoring and acceptance are policy of the consumer, behind the
//! [`ActionScorer`] and [`AcceptanceEval`] traits. Numeric quantities
//! (scores, deltas, intensities, progress) are binary64 values carried by
//! their bit patterns as [`Real`]; the library compares them exactly as
//! binary64 does, and leaves their arithmetic to the caller.

pub mod affordance;
pub mod binary64;
pub mod escalation;
pub mod practice;
pub mod resolution;
pub mod scoring;
pub mod types;
pub mod value_argument;

pub use affordance::{AffordanceSpec, CatalogEntry};
pub use binary64::Real;
pub use escalation::{check_escalation, EscalationRequest, EscalationTrigger, FidelityHint};
pub use practice::{DurationPolicy, PracticeSpec, TurnPolicy};
pub use resolution::background::{BackgroundScheme, SchemePhase, SchemeState};
pub use resolution::MultiBeat;
pub use resolution::SingleExchange;
pub use scoring::{AcceptanceEval, ActionScorer, AlwaysAccept, AlwaysReject, ScoredAffordance};
pub use types::{Beat, ConsiderationSpec, DriveAlignment, Effect, EncounterResult};
pub use value_argument::{resolve_value_argument, ValueArgumentInput, ValueArgumentResult};
