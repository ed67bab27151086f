use encounter::binary64::Real;
use encounter::escalation::{check_escalation, FidelityHint};
use encounter::types::{Beat, Effect};

fn r(x: f64) -> Real {
    Real { bits: x.to_bits() }
}

fn f(x: Real) -> f64 {
    f64::from_bits(x.bits)
}

fn make_beat(effects: Vec<Effect>) -> Beat {
    Beat {
        actor: "alice".to_string(),
        action: "test_action".to_string(),
        accepted: true,
        effects,
    }
}

fn rel(delta: f64) -> Effect {
    Effect::RelationshipDelta {
        axis: "trust".to_string(),
        from: "alice".to_string(),
        to: "bob".to_string(),
        delta: r(delta),
    }
}

fn emo(intensity: f64) -> Effect {
    Effect::EmotionalEvent {
        target: "bob".to_string(),
        emotion: "fear".to_string(),
        intensity: r(intensity),
    }
}

#[test]
fn no_escalation_for_mild_effects() {
    let beat = make_beat(vec![Effect::RelationshipDelta {
        axis: "trust".to_string(),
        from: "alice".to_string(),
        to: "bob".to_string(),
        delta: r(0.05),
    }]);
    assert_eq!(check_escalation(&beat, 0), None);
}

#[test]
fn escalation_on_betrayal_magnitude() {
    let beat = make_beat(vec![Effect::RelationshipDelta {
        axis: "trust".to_string(),
        from: "alice".to_string(),
        to: "bob".to_string(),
        delta: r(-0.6),
    }]);
    let result = check_escalation(&beat, 1);
    assert!(result.is_some());
    let req = result.unwrap();
    assert_eq!(req.suggested_fidelity, FidelityHint::Active);
    assert_eq!(req.beat_index, 1);
}

#[test]
fn escalation_on_high_emotion() {
    let beat = make_beat(vec![Effect::EmotionalEvent {
        target: "bob".to_string(),
        emotion: "fear".to_string(),
        intensity: r(0.9),
    }]);
    let result = check_escalation(&beat, 2);
    assert!(result.is_some());
    let req = result.unwrap();
    assert_eq!(req.suggested_fidelity, FidelityHint::Active);
    assert_eq!(req.beat_index, 2);
}

#[test]
fn escalation_threshold_is_inclusive_and_aware_below_active() {
    let req = check_escalation(&make_beat(vec![rel(0.4)]), 3).unwrap();
    assert_eq!(req.suggested_fidelity, FidelityHint::Aware);
    assert_eq!(f(req.trigger.max_relationship_delta), 0.4);
    assert_eq!(f(req.trigger.max_emotion_intensity), 0.0);

    let req = check_escalation(&make_beat(vec![rel(-0.5)]), 0).unwrap();
    assert_eq!(req.suggested_fidelity, FidelityHint::Active);
    assert_eq!(f(req.trigger.max_relationship_delta), 0.5);

    let req = check_escalation(&make_beat(vec![emo(0.6)]), 0).unwrap();
    assert_eq!(req.suggested_fidelity, FidelityHint::Aware);
    let req = check_escalation(&make_beat(vec![emo(0.8)]), 0).unwrap();
    assert_eq!(req.suggested_fidelity, FidelityHint::Active);

    assert_eq!(check_escalation(&make_beat(vec![rel(0.39999)]), 0), None);
    assert_eq!(check_escalation(&make_beat(vec![emo(0.59999)]), 0), None);
}

#[test]
fn escalation_takes_the_largest_readings_and_skips_other_effects() {
    let beat = make_beat(vec![
        rel(0.1),
        rel(-0.45),
        rel(0.2),
        emo(0.3),
        emo(-0.9),
        Effect::MoodShift {
            target: "bob".to_string(),
            axis: "calm".to_string(),
            delta: r(5.0),
        },
        Effect::ValueShift {
            target: "bob".to_string(),
            value: "honesty".to_string(),
            delta: r(-3.0),
        },
    ]);
    let req = check_escalation(&beat, 7).unwrap();
    assert_eq!(req.beat_index, 7);
    assert_eq!(req.suggested_fidelity, FidelityHint::Aware);
    assert_eq!(f(req.trigger.max_relationship_delta), 0.45);
    assert_eq!(f(req.trigger.max_emotion_intensity), 0.3);
}

#[test]
fn escalation_ignores_nan_readings() {
    let beat = make_beat(vec![rel(f64::NAN), emo(f64::NAN)]);
    assert_eq!(check_escalation(&beat, 0), None);
    let beat = make_beat(vec![rel(f64::NAN), rel(0.7)]);
    let req = check_escalation(&beat, 0).unwrap();
    assert_eq!(f(req.trigger.max_relationship_delta), 0.7);
    assert_eq!(check_escalation(&make_beat(vec![]), 0), None);
}

#[test]
fn escalation_ignores_order_repeats_and_other_effects() {
    let mood = Effect::MoodShift {
        target: "bob".to_string(),
        axis: "calm".to_string(),
        delta: r(0.9),
    };
    let a = make_beat(vec![rel(0.1), emo(0.65), rel(-0.42)]);
    let mut b = make_beat(vec![rel(-0.42), mood, rel(0.1), emo(0.65), rel(0.1)]);
    b.actor = "zoe".to_string();
    b.action = "other".to_string();
    b.accepted = false;
    assert_eq!(check_escalation(&a, 4), check_escalation(&b, 4));
    assert!(check_escalation(&a, 4).is_some());
}
