use encounter::practice::{DurationPolicy, PracticeSpec, TurnPolicy};

#[test]
fn practice_policies_default_to_round_robin_single_exchange() {
    assert_eq!(TurnPolicy::default(), TurnPolicy::RoundRobin);
    assert_eq!(DurationPolicy::default(), DurationPolicy::SingleExchange);
}

#[test]
fn practice_spec_clone_keeps_every_field() {
    let spec = PracticeSpec {
        name: "negotiation".to_string(),
        affordances: vec!["offer".to_string(), "counter_offer".to_string()],
        turn_policy: TurnPolicy::AdjacencyPair,
        duration_policy: DurationPolicy::MultiBeat { max_beats: 10 },
        entry_condition_source: "a.trust > 0.5".to_string(),
    };
    assert_eq!(spec.clone(), spec);
}
