use easee_status::routes::{Answer, DEFAULT_TTL};
use easee_status::{
    car_charger_usage, easee_energy_per_hour, easee_lade_mengde, field, field_index, index, Cache,
    CachePlan, ChargerState, EaseeError, Field,
};

fn states() -> Vec<ChargerState> {
    vec![
        ChargerState {
            id: "a".to_string(),
            power: 1.5f64.to_bits(),
            session: 2.5f64.to_bits(),
            energy_per_hour: 3.5f64.to_bits(),
        },
        ChargerState {
            id: "b".to_string(),
            power: 10f64.to_bits(),
            session: 20f64.to_bits(),
            energy_per_hour: 30f64.to_bits(),
        },
    ]
}

fn reading(answer: &Answer) -> Option<f64> {
    match answer {
        Answer::Reading(bits) => Some(f64::from_bits(*bits)),
        Answer::Message(_) => None,
    }
}

fn message(answer: &Answer) -> Option<&str> {
    match answer {
        Answer::Reading(_) => None,
        Answer::Message(text) => Some(text.as_str()),
    }
}

#[test]
fn fields_are_read_from_their_names() {
    assert_eq!(Field::from_param("power"), Ok(Field::Power));
    assert_eq!(Field::from_param("session"), Ok(Field::Session));
    assert_eq!(Field::from_param("energy"), Ok(Field::Energy));
    for other in ["", "Power", "power ", "energy_per_hour", "carChargerUsage", "0"] {
        assert_eq!(Field::from_param(other), Err("Invalid field"), "{}", other);
    }
}

#[test]
fn fields_are_written_as_their_names() {
    for which in [Field::Power, Field::Session, Field::Energy] {
        assert_eq!(Field::from_param(&which.to_string()), Ok(which));
    }
    assert_eq!(Field::Power.to_string(), "power");
    assert_eq!(Field::Session.to_string(), "session");
    assert_eq!(Field::Energy.to_string(), "energy");
}

#[test]
fn aliases_lead_to_the_fields() {
    assert_eq!(car_charger_usage(), "/power");
    assert_eq!(easee_lade_mengde(), "/session");
    assert_eq!(easee_energy_per_hour(), "/energy");
    assert_eq!(field(Field::Power), "/power/0");
    assert_eq!(field(Field::Session), "/session/0");
    assert_eq!(field(Field::Energy), "/energy/0");
}

#[test]
fn reading_is_picked_by_field_and_index() {
    let outcome = Ok(states());
    let expected = [
        (Field::Power, 0, 1.5),
        (Field::Session, 0, 2.5),
        (Field::Energy, 0, 3.5),
        (Field::Power, 1, 10.0),
        (Field::Session, 1, 20.0),
        (Field::Energy, 1, 30.0),
    ];
    for (which, at, value) in expected {
        let answer = field_index(&outcome, which, at);
        assert_eq!(answer.status, 200);
        assert_eq!(reading(&answer.body), Some(value));
    }
}

#[test]
fn index_past_the_end_is_a_bad_request_and_leaves_the_cache() {
    let mut cache = Cache::new();
    assert!(matches!(cache.get_or_refresh(0, DEFAULT_TTL), CachePlan::Fetch));
    let outcome = cache.complete(Ok(states()), 0);
    for at in [2, 3, usize::MAX] {
        for which in [Field::Power, Field::Session, Field::Energy] {
            let answer = field_index(&outcome, which, at);
            assert_eq!(answer.status, 400);
            assert_eq!(message(&answer.body), Some("Index out of range"));
        }
    }
    assert_eq!(cache.entry().map(|e| e.fetched_at()), Some(0));
    assert_eq!(cache.entry().map(|e| e.value().len()), Some(2));
    assert!(!cache.in_flight());
    match cache.get_or_refresh(1, DEFAULT_TTL) {
        CachePlan::Cached(cached) => assert_eq!(cached.len(), 2),
        other => panic!("expected the cached states, got {:?}", other),
    }

    let nothing = Ok(Vec::new());
    assert_eq!(field_index(&nothing, Field::Power, 0).status, 400);
}

#[test]
fn errors_are_answered_with_their_status_and_no_text() {
    for (error, status) in [
        (EaseeError::Unathorized, 401),
        (EaseeError::RateLimit, 429),
        (EaseeError::LoginFailed, 500),
        (EaseeError::HttpFailed, 500),
        (EaseeError::InvalidResponse, 500),
    ] {
        let answer = field_index(&Err(error), Field::Power, 0);
        assert_eq!(answer.status, status);
        assert_eq!(message(&answer.body), Some(""));

        let listing = index(&Err(error));
        assert_eq!(listing.status, status);
        assert!(listing.chargers.is_empty());
    }
}

#[test]
fn listing_hands_out_all_states() {
    let listing = index(&Ok(states()));
    assert_eq!(listing.status, 200);
    let ids: Vec<&str> = listing.chargers.iter().map(|s| s.id.as_str()).collect();
    assert_eq!(ids, vec!["a", "b"]);
    assert_eq!(listing.chargers[1].session, 20f64.to_bits());
}

#[test]
fn default_ttl_is_one_minute() {
    assert_eq!(DEFAULT_TTL, 60_000);
}
