use encounter::affordance::{AffordanceSpec, CatalogEntry};
use encounter::binary64::Real;
use encounter::scoring::{choose_best, AcceptanceEval, AlwaysAccept, AlwaysReject, ScoredAffordance};
use std::collections::HashMap;

fn test_scored(name: &str, score: f64) -> ScoredAffordance<String> {
    let spec = AffordanceSpec {
        name: name.to_string(),
        domain: "test".to_string(),
        bindings: vec![],
        considerations: vec![],
        effects_on_accept: vec![],
        effects_on_reject: vec![],
        drive_alignment: vec![],
    };
    let entry = CatalogEntry {
        spec,
        precondition: String::new(),
    };
    ScoredAffordance {
        entry,
        score: Real { bits: score.to_bits() },
        bindings: HashMap::new(),
    }
}

#[test]
fn always_accept_accepts() {
    let eval = AlwaysAccept;
    let action = test_scored("greet", 0.9);
    assert!(eval.evaluate("alice", &action));
}

#[test]
fn always_reject_rejects() {
    let eval = AlwaysReject;
    let action = test_scored("threaten", 0.5);
    assert!(!eval.evaluate("bob", &action));
}

#[test]
fn always_accept_works_with_unit_precondition() {
    let spec = AffordanceSpec {
        name: "wave".to_string(),
        domain: "social".to_string(),
        bindings: vec![],
        considerations: vec![],
        effects_on_accept: vec![],
        effects_on_reject: vec![],
        drive_alignment: vec![],
    };
    let entry: CatalogEntry<()> = CatalogEntry {
        spec,
        precondition: (),
    };
    let action: ScoredAffordance<()> = ScoredAffordance {
        entry,
        score: Real { bits: 1.0f64.to_bits() },
        bindings: HashMap::new(),
    };
    let eval = AlwaysAccept;
    assert!(eval.evaluate("carol", &action));
}

#[test]
fn choose_best_picks_highest_and_last_of_ties() {
    let empty: Vec<ScoredAffordance<String>> = vec![];
    assert_eq!(choose_best(&empty), None);

    let v = vec![test_scored("a", 0.3), test_scored("b", 0.8), test_scored("c", 0.5)];
    assert_eq!(choose_best(&v), Some(1));

    let v = vec![test_scored("a", 0.8), test_scored("b", 0.2), test_scored("c", 0.8)];
    assert_eq!(choose_best(&v), Some(2));

    // -0.0 and +0.0 tie, so the later one wins
    let v = vec![test_scored("a", 0.0), test_scored("b", -0.0)];
    assert_eq!(choose_best(&v), Some(1));
}

#[test]
fn choose_best_follows_partial_cmp_with_nan() {
    // A NaN compares as equal, so it takes over from the best so far, and
    // the next action takes over from it.
    let v = vec![test_scored("a", 0.9), test_scored("b", f64::NAN)];
    assert_eq!(choose_best(&v), Some(1));
    let v = vec![test_scored("a", 0.9), test_scored("b", f64::NAN), test_scored("c", 0.1)];
    assert_eq!(choose_best(&v), Some(2));
    let v = vec![test_scored("a", f64::NAN), test_scored("b", 0.1), test_scored("c", 0.05)];
    assert_eq!(choose_best(&v), Some(1));
}

#[test]
fn scored_affordance_clone_keeps_bindings() {
    let mut action = test_scored("greet", 0.4);
    action.bindings.insert("self".to_string(), "alice".to_string());
    let copy = action.clone();
    assert_eq!(copy.bindings, action.bindings);
    assert_eq!(copy.score.bits, action.score.bits);
    assert_eq!(copy.entry.spec, action.entry.spec);
}
