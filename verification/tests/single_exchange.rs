use encounter::affordance::{AffordanceSpec, CatalogEntry};
use encounter::binary64::Real;
use encounter::resolution::single::SingleExchange;
use encounter::scoring::{AlwaysAccept, AlwaysReject, ScoredAffordance};
use encounter::types::Effect;

fn r(x: f64) -> Real {
    Real { bits: x.to_bits() }
}

fn f(x: Real) -> f64 {
    f64::from_bits(x.bits)
}

fn make_reveal_secret() -> ScoredAffordance<String> {
    ScoredAffordance {
        entry: CatalogEntry {
            spec: AffordanceSpec {
                name: "reveal_secret".into(),
                domain: "information".into(),
                bindings: vec!["self".into(), "target".into(), "subject".into()],
                considerations: Vec::new(),
                effects_on_accept: vec![
                    Effect::KnowledgeTransfer {
                        from: "self".into(),
                        to: "target".into(),
                        claim: "subject".into(),
                        provenance: Some("confided".into()),
                        initial_confidence: Some(r(0.9)),
                    },
                    Effect::RelationshipDelta {
                        axis: "trust".into(),
                        from: "target".into(),
                        to: "self".into(),
                        delta: r(0.1),
                    },
                ],
                effects_on_reject: vec![Effect::RelationshipDelta {
                    axis: "trust".into(),
                    from: "self".into(),
                    to: "target".into(),
                    delta: r(-0.05),
                }],
                drive_alignment: Vec::new(),
            },
            precondition: String::new(),
        },
        score: r(0.8),
        bindings: [
            ("self".into(), "alice".into()),
            ("target".into(), "bob".into()),
        ]
        .into_iter()
        .collect(),
    }
}

#[test]
fn single_exchange_accepted_fires_accept_effects() {
    let protocol = SingleExchange;
    let available = vec![make_reveal_secret()];
    let result = protocol.resolve("alice", "bob", &available, &AlwaysAccept);

    assert_eq!(result.beats.len(), 1);
    let beat = &result.beats[0];
    assert!(beat.accepted);
    assert_eq!(
        result.knowledge_transfers.len(),
        1,
        "expected 1 knowledge_transfer effect"
    );
    assert_eq!(
        result.relationship_deltas.len(),
        1,
        "expected 1 relationship_delta effect"
    );
}

#[test]
fn single_exchange_rejected_fires_reject_effects() {
    let protocol = SingleExchange;
    let available = vec![make_reveal_secret()];
    let result = protocol.resolve("alice", "bob", &available, &AlwaysReject);

    assert_eq!(result.beats.len(), 1);
    let beat = &result.beats[0];
    assert!(!beat.accepted);
    assert_eq!(result.relationship_deltas.len(), 1);

    // Verify it's the negative delta from effects_on_reject
    match &result.relationship_deltas[0] {
        Effect::RelationshipDelta { delta, .. } => {
            assert!(f(*delta) < 0.0, "reject delta should be negative");
        }
        other => panic!("unexpected effect variant: {other:?}"),
    }
}

#[test]
fn single_exchange_picks_highest_scored_action() {
    let mut low = make_reveal_secret();
    low.entry.spec.name = "small_talk".into();
    low.score = r(0.3);

    let mut high = make_reveal_secret();
    high.entry.spec.name = "reveal_secret".into();
    high.score = r(0.8);

    let protocol = SingleExchange;
    let available = vec![low, high];
    let result = protocol.resolve("alice", "bob", &available, &AlwaysAccept);

    assert_eq!(result.beats.len(), 1);
    assert_eq!(result.beats[0].action, "reveal_secret");
}

#[test]
fn single_exchange_with_no_actions_produces_empty_result() {
    let protocol = SingleExchange;
    let available: Vec<ScoredAffordance<String>> = vec![];
    let result = protocol.resolve("alice", "bob", &available, &AlwaysAccept);

    assert!(result.beats.is_empty());
}

#[test]
fn single_exchange_records_participants_and_beat() {
    let available = vec![make_reveal_secret()];
    let result = SingleExchange.resolve("alice", "bob", &available, &AlwaysAccept);
    assert_eq!(result.participants, vec!["alice".to_string(), "bob".to_string()]);
    assert_eq!(result.practice, None);
    assert_eq!(result.beats[0].actor, "alice");
    assert_eq!(
        result.beats[0].effects,
        available[0].entry.spec.effects_on_accept
    );
    assert!(!result.escalation_requested);
    assert!(result.escalation_requests.is_empty());
    let empty: Vec<ScoredAffordance<String>> = vec![];
    let result = SingleExchange.resolve("carol", "dave", &empty, &AlwaysReject);
    assert_eq!(result.participants, vec!["carol".to_string(), "dave".to_string()]);
}

#[test]
fn single_exchange_ignores_the_precondition_type() {
    let with_text = vec![make_reveal_secret()];
    let with_unit: Vec<ScoredAffordance<()>> = vec![ScoredAffordance {
        entry: CatalogEntry {
            spec: with_text[0].entry.spec.clone(),
            precondition: (),
        },
        score: with_text[0].score,
        bindings: with_text[0].bindings.clone(),
    }];
    let a = SingleExchange.resolve("alice", "bob", &with_text, &AlwaysReject);
    let b = SingleExchange.resolve("alice", "bob", &with_unit, &AlwaysReject);
    assert_eq!(a.participants, b.participants);
    assert_eq!(a.practice, b.practice);
    assert_eq!(a.beats, b.beats);
    assert_eq!(a.relationship_deltas, b.relationship_deltas);
    assert_eq!(a.knowledge_transfers, b.knowledge_transfers);
    assert_eq!(a.emotional_events, b.emotional_events);
    assert_eq!(a.value_shifts, b.value_shifts);
}
