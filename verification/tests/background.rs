use encounter::binary64::Real;
use encounter::escalation::FidelityHint;
use encounter::resolution::background::{BackgroundScheme, SchemePhase, SchemeState};
use encounter::types::Effect;

fn r(x: f64) -> Real {
    Real { bits: x.to_bits() }
}

fn f(x: Real) -> f64 {
    f64::from_bits(x.bits)
}

/// One tick of `delta`: the sum is taken in binary64, as a caller does.
fn tick(state: &mut SchemeState, delta: f64) -> bool {
    let sum = f(state.progress) + delta;
    state.advance(r(sum))
}

#[test]
fn scheme_starts_in_preparation() {
    let state = SchemeState::new(
        "alice".to_string(),
        "bob".to_string(),
        "assassination".to_string(),
        r(10.0),
    );
    assert_eq!(state.phase, SchemePhase::Preparation);
    assert_eq!(f(state.progress), 0.0);
}

#[test]
fn advance_transitions_to_execution() {
    let mut state = SchemeState::new(
        "alice".to_string(),
        "bob".to_string(),
        "assassination".to_string(),
        r(10.0),
    );
    let resolved = tick(&mut state, 2.0);
    assert!(!resolved);
    assert_eq!(state.phase, SchemePhase::Execution);
    assert!((f(state.progress) - 2.0).abs() < f64::EPSILON);
}

#[test]
fn advance_resolves_at_threshold() {
    let mut state = SchemeState::new(
        "alice".to_string(),
        "bob".to_string(),
        "blackmail".to_string(),
        r(10.0),
    );
    let first = tick(&mut state, 5.0);
    assert!(!first);
    assert_eq!(state.phase, SchemePhase::Execution);

    let second = tick(&mut state, 5.0);
    assert!(second);
    assert_eq!(state.phase, SchemePhase::Resolved);
}

#[test]
fn setback_cannot_go_below_zero() {
    let mut state = SchemeState::new(
        "alice".to_string(),
        "bob".to_string(),
        "seduction".to_string(),
        r(10.0),
    );
    tick(&mut state, 3.0);
    tick(&mut state, -5.0);
    assert_eq!(f(state.progress), 0.0);
}

#[test]
fn to_result_produces_one_beat() {
    let mut state = SchemeState::new(
        "alice".to_string(),
        "bob".to_string(),
        "spy_ring".to_string(),
        r(5.0),
    );
    tick(&mut state, 5.0);
    assert_eq!(state.phase, SchemePhase::Resolved);

    let success_effects = vec![Effect::RelationshipDelta {
        axis: "trust".to_string(),
        from: "alice".to_string(),
        to: "bob".to_string(),
        delta: r(-0.5),
    }];
    let failure_effects = vec![];

    let result = state.to_result(success_effects, failure_effects);
    assert_eq!(result.beats.len(), 1);
    assert!(result.beats[0].accepted);
    assert_eq!(result.beats[0].effects.len(), 1);
    assert_eq!(result.relationship_deltas.len(), 1);
}

#[test]
fn background_scheme_example_resolves_and_escalates() {
    let mut scheme = BackgroundScheme::new(
        "alice".into(),
        "bob".into(),
        "spy_ring".into(),
        r(5.0),
    );
    scheme.add_advantage("inside_man".into());
    assert!(!tick(&mut scheme, 2.0));
    assert!(!tick(&mut scheme, 2.0));
    assert!(tick(&mut scheme, 1.5));
    assert_eq!(scheme.advantages, vec!["inside_man".to_string()]);

    let result = scheme.to_result(
        vec![Effect::RelationshipDelta {
            axis: "trust".into(),
            from: "alice".into(),
            to: "bob".into(),
            delta: r(-0.6),
        }],
        vec![],
    );
    assert_eq!(result.participants, vec!["alice".to_string(), "bob".to_string()]);
    assert_eq!(result.practice.as_deref(), Some("spy_ring"));
    assert_eq!(result.beats[0].actor, "alice");
    assert_eq!(result.beats[0].action, "spy_ring_resolution");
    assert!(result.escalation_requested);
    assert_eq!(result.escalation_requests.len(), 1);
    assert_eq!(result.escalation_requests[0].beat_index, 0);
    assert_eq!(
        result.escalation_requests[0].suggested_fidelity,
        FidelityHint::Active
    );
}

#[test]
fn unresolved_scheme_reports_failure_effects() {
    let mut state = SchemeState::new(
        "carol".to_string(),
        "dave".to_string(),
        "heist".to_string(),
        r(10.0),
    );
    tick(&mut state, 4.0);
    let result = state.to_result(
        vec![Effect::RelationshipDelta {
            axis: "trust".to_string(),
            from: "carol".to_string(),
            to: "dave".to_string(),
            delta: r(-0.9),
        }],
        vec![Effect::MoodShift {
            target: "carol".to_string(),
            axis: "confidence".to_string(),
            delta: r(-0.2),
        }],
    );
    assert!(!result.beats[0].accepted);
    assert_eq!(result.beats[0].action, "heist_resolution");
    assert_eq!(result.beats[0].effects.len(), 1);
    assert!(result.relationship_deltas.is_empty());
    assert!(!result.escalation_requested);
    assert!(result.escalation_requests.is_empty());
}

#[test]
fn phase_never_moves_back_and_nan_progress_floors_to_zero() {
    let mut state = SchemeState::new(
        "alice".to_string(),
        "bob".to_string(),
        "plot".to_string(),
        r(3.0),
    );
    assert!(tick(&mut state, 4.0));
    assert_eq!(state.phase, SchemePhase::Resolved);
    // a setback below the threshold leaves the scheme resolved
    assert!(!tick(&mut state, -2.0));
    assert_eq!(state.phase, SchemePhase::Resolved);
    assert_eq!(f(state.progress), 2.0);

    let mut other = SchemeState::new(
        "alice".to_string(),
        "bob".to_string(),
        "plot".to_string(),
        r(3.0),
    );
    assert!(!other.advance(r(f64::NAN)));
    assert_eq!(other.progress.bits, 0.0f64.to_bits());
    assert_eq!(other.phase, SchemePhase::Preparation);
    // a zero tick does not start the scheme
    assert!(!tick(&mut other, 0.0));
    assert_eq!(other.phase, SchemePhase::Preparation);
}

#[test]
fn scheme_state_clone_keeps_every_field() {
    let mut state = SchemeState::new(
        "alice".to_string(),
        "bob".to_string(),
        "plot".to_string(),
        r(3.0),
    );
    state.add_advantage("leverage".to_string());
    tick(&mut state, 1.0);
    let copy = state.clone();
    assert_eq!(copy.initiator, state.initiator);
    assert_eq!(copy.target, state.target);
    assert_eq!(copy.scheme_type, state.scheme_type);
    assert_eq!(copy.progress.bits, state.progress.bits);
    assert_eq!(copy.threshold.bits, state.threshold.bits);
    assert_eq!(copy.phase, state.phase);
    assert_eq!(copy.advantages, state.advantages);
}
