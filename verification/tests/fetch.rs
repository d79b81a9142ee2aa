use easee_status::fetch::{
    body_of, collect_ids, external_request_charger_state, get_charger_list,
};
use easee_status::{
    get_charger_state, ChargerState, EaseeError, Event, FetchRun, FetchStage, FetchStep, AuthStage,
    Request, SessionState,
};

const NOW: i64 = 1_700_000_000_000;

fn response(status: u16, body: &str) -> Event {
    Event::Response { status, body: Some(body.to_string()) }
}

fn state_body(power: &str, session: &str, energy: &str) -> String {
    format!(
        r#"{{"totalPower":{},"sessionEnergy":{},"energyPerHour":{},"other":true}}"#,
        power, session, energy
    )
}

fn valid_session() -> SessionState {
    SessionState::with_tokens("tok".to_string(), Some("ref".to_string()), NOW + 1000)
}

fn readings(state: &ChargerState) -> (String, f64, f64, f64) {
    (
        state.id.clone(),
        f64::from_bits(state.power),
        f64::from_bits(state.session),
        f64::from_bits(state.energy_per_hour),
    )
}

fn expect_state_request(step: FetchStep, id: &str) {
    match step {
        FetchStep::Ask(Request::ChargerState { token, charger_id }) => {
            assert_eq!(token, "tok");
            assert_eq!(charger_id, id);
        }
        other => panic!("expected a request for {}, got {:?}", id, other),
    }
}

/// Runs the pipeline up to the point where the first state is asked for.
fn listed(session: &mut SessionState, ids: &str) -> FetchRun {
    let (run, step) = get_charger_state(session, FetchRun::new(), &Event::Start, NOW);
    match step {
        FetchStep::Ask(Request::ChargerList { token }) => assert_eq!(token, "tok"),
        other => panic!("expected a list request, got {:?}", other),
    }
    assert_eq!(run.stage(), FetchStage::List);
    let (run, step) = get_charger_state(session, run, &response(200, ids), NOW);
    expect_state_request(step, "EH1");
    assert_eq!(run.stage(), FetchStage::States);
    run
}

#[test]
fn states_come_in_listing_order() {
    let mut session = valid_session();
    let run = listed(&mut session, r#"[{"id":"EH1","name":"a"},{"id":"EH2"},{"id":"EH3"}]"#);
    let (run, step) =
        get_charger_state(&mut session, run, &response(200, &state_body("1.5", "2", "0")), NOW);
    expect_state_request(step, "EH2");
    let (run, step) =
        get_charger_state(&mut session, run, &response(200, &state_body("7", "8.25", "9")), NOW);
    expect_state_request(step, "EH3");
    let (run, step) =
        get_charger_state(&mut session, run, &response(200, &state_body("-1", "1e3", "0.1")), NOW);
    assert_eq!(run.stage(), FetchStage::Session(AuthStage::Idle));
    match step {
        FetchStep::Done(Ok(states)) => {
            assert_eq!(states.len(), 3);
            assert_eq!(readings(&states[0]), ("EH1".to_string(), 1.5, 2.0, 0.0));
            assert_eq!(readings(&states[1]), ("EH2".to_string(), 7.0, 8.25, 9.0));
            assert_eq!(readings(&states[2]), ("EH3".to_string(), -1.0, 1000.0, 0.1));
        }
        other => panic!("expected three states, got {:?}", other),
    }
}

#[test]
fn second_of_three_failing_ends_the_run_with_its_error() {
    for (reply, error) in [
        (response(429, ""), EaseeError::RateLimit),
        (response(500, ""), EaseeError::Unathorized),
        (response(200, r#"{"totalPower":1}"#), EaseeError::InvalidResponse),
        (Event::Failed, EaseeError::HttpFailed),
    ] {
        let mut session = valid_session();
        let run = listed(&mut session, r#"[{"id":"EH1"},{"id":"EH2"},{"id":"EH3"}]"#);
        let (run, step) =
            get_charger_state(&mut session, run, &response(200, &state_body("1", "2", "3")), NOW);
        expect_state_request(step, "EH2");
        let (run, step) = get_charger_state(&mut session, run, &reply, NOW);
        match step {
            FetchStep::Done(Err(found)) => assert_eq!(found, error),
            other => panic!("expected {:?}, got {:?}", error, other),
        }
        assert_eq!(run.stage(), FetchStage::Session(AuthStage::Idle));
        // The run that came back starts over: nothing of the failed one is left in it.
        let (run, step) = get_charger_state(&mut session, run, &Event::Start, NOW);
        assert!(matches!(step, FetchStep::Ask(Request::ChargerList { .. })));
        let (_, step) = get_charger_state(&mut session, run, &response(200, "[]"), NOW);
        match step {
            FetchStep::Done(Ok(states)) => assert!(states.is_empty()),
            other => panic!("expected no states, got {:?}", other),
        }
    }
}

#[test]
fn empty_list_ends_the_run_with_no_states() {
    let mut session = valid_session();
    let (run, _) = get_charger_state(&mut session, FetchRun::new(), &Event::Start, NOW);
    let (run, step) = get_charger_state(&mut session, run, &response(200, "[]"), NOW);
    assert_eq!(run.stage(), FetchStage::Session(AuthStage::Idle));
    match step {
        FetchStep::Done(Ok(states)) => assert!(states.is_empty()),
        other => panic!("expected no states, got {:?}", other),
    }
}

#[test]
fn pipeline_logs_in_first_when_there_is_no_token() {
    let mut session = SessionState::new();
    let (run, step) = get_charger_state(&mut session, FetchRun::new(), &Event::Start, NOW);
    assert!(matches!(step, FetchStep::Ask(Request::Credentials)));
    assert_eq!(run.stage(), FetchStage::Session(AuthStage::Credentials));
    let credentials =
        Event::Credentials { username: "user".to_string(), password: "pass".to_string() };
    let (run, step) = get_charger_state(&mut session, run, &credentials, NOW);
    assert!(matches!(step, FetchStep::Ask(Request::Login { .. })));
    assert_eq!(run.stage(), FetchStage::Session(AuthStage::Login));
    let grant = response(200, r#"{"accessToken":"fresh","refreshToken":"R","expiresIn":3600}"#);
    let (run, step) = get_charger_state(&mut session, run, &grant, NOW);
    match step {
        FetchStep::Ask(Request::ChargerList { token }) => assert_eq!(token, "fresh"),
        other => panic!("expected a list request, got {:?}", other),
    }
    let (_, step) = get_charger_state(&mut session, run, &response(200, r#"[{"id":"X"}]"#), NOW);
    match step {
        FetchStep::Ask(Request::ChargerState { token, charger_id }) => {
            assert_eq!(token, "fresh");
            assert_eq!(charger_id, "X");
        }
        other => panic!("expected a state request, got {:?}", other),
    }
}

#[test]
fn failed_login_ends_the_pipeline() {
    let mut session = SessionState::new();
    let (run, _) = get_charger_state(&mut session, FetchRun::new(), &Event::Start, NOW);
    let (run, step) = get_charger_state(&mut session, run, &Event::Failed, NOW);
    assert!(matches!(step, FetchStep::Done(Err(EaseeError::LoginFailed))));
    assert_eq!(run.stage(), FetchStage::Session(AuthStage::Idle));
}

#[test]
fn list_statuses_map_to_errors() {
    assert_eq!(get_charger_list(&response(429, "[]")), Err(EaseeError::RateLimit));
    for status in [100, 199, 300, 301, 400, 401, 403, 404, 428, 430, 500, 503] {
        assert_eq!(get_charger_list(&response(status, "[]")), Err(EaseeError::Unathorized));
    }
    assert_eq!(get_charger_list(&Event::Failed), Err(EaseeError::HttpFailed));
    assert_eq!(get_charger_list(&Event::Start), Err(EaseeError::HttpFailed));
    assert_eq!(
        get_charger_list(&Event::Response { status: 200, body: None }),
        Err(EaseeError::HttpFailed)
    );
    assert_eq!(
        get_charger_list(&Event::Response { status: 429, body: None }),
        Err(EaseeError::RateLimit)
    );
}

#[test]
fn list_is_read_from_the_ids_of_an_array() {
    assert_eq!(get_charger_list(&response(200, "[]")), Ok(vec![]));
    assert_eq!(
        get_charger_list(&response(200, r#"[{"id":"b"},{"id":"a","x":[1,2]},{"id":"b"}]"#)),
        Ok(vec!["b".to_string(), "a".to_string(), "b".to_string()])
    );
    assert_eq!(get_charger_list(&response(204, r#" [ { "id" : "" } ] "#)), Ok(vec!["".to_string()]));
}

#[test]
fn malformed_list_is_invalid_response() {
    for body in [
        "",
        "{",
        r#"{"id":"a"}"#,
        r#""a""#,
        "null",
        r#"[{"id":"a"},{"name":"b"}]"#,
        r#"[{"id":7}]"#,
        r#"[{"id":null}]"#,
        r#"["a"]"#,
        r#"[[{"id":"a"}]]"#,
    ] {
        assert_eq!(get_charger_list(&response(200, body)), Err(EaseeError::InvalidResponse), "{}", body);
    }
}

#[test]
fn state_statuses_map_to_errors() {
    let body = state_body("1", "2", "3");
    assert_eq!(
        external_request_charger_state("a", &response(429, &body)).map(|s| readings(&s)),
        Err(EaseeError::RateLimit)
    );
    for status in [199, 300, 401, 404, 500] {
        assert_eq!(
            external_request_charger_state("a", &response(status, &body)).map(|s| readings(&s)),
            Err(EaseeError::Unathorized)
        );
    }
    assert_eq!(
        external_request_charger_state("a", &Event::Failed).map(|s| readings(&s)),
        Err(EaseeError::HttpFailed)
    );
    assert_eq!(
        external_request_charger_state("a", &Event::Response { status: 200, body: None })
            .map(|s| readings(&s)),
        Err(EaseeError::HttpFailed)
    );
}

#[test]
fn state_is_read_from_three_numbers() {
    let state =
        external_request_charger_state("EH9", &response(200, &state_body("11.04", "3", "-0.5")))
            .unwrap();
    assert_eq!(state.id, "EH9");
    assert_eq!(state.power, 11.04f64.to_bits());
    assert_eq!(state.session, 3.0f64.to_bits());
    assert_eq!(state.energy_per_hour, (-0.5f64).to_bits());
}

#[test]
fn malformed_state_is_invalid_response() {
    for body in [
        "",
        "[]",
        "{}",
        r#"{"sessionEnergy":2,"energyPerHour":3}"#,
        r#"{"totalPower":1,"energyPerHour":3}"#,
        r#"{"totalPower":1,"sessionEnergy":2}"#,
        r#"{"totalPower":"1","sessionEnergy":2,"energyPerHour":3}"#,
        r#"{"totalPower":1,"sessionEnergy":null,"energyPerHour":3}"#,
        r#"{"totalPower":1,"sessionEnergy":2,"energyPerHour":[3]}"#,
    ] {
        assert_eq!(
            external_request_charger_state("a", &response(200, body)).map(|s| readings(&s)),
            Err(EaseeError::InvalidResponse),
            "{}",
            body
        );
    }
}

#[test]
fn ids_are_collected_only_if_all_are_there() {
    assert_eq!(collect_ids(vec![]), Some(vec![]));
    assert_eq!(
        collect_ids(vec![Some("a".to_string()), Some("b".to_string())]),
        Some(vec!["a".to_string(), "b".to_string()])
    );
    assert_eq!(collect_ids(vec![Some("a".to_string()), None, Some("c".to_string())]), None);
    assert_eq!(collect_ids(vec![None]), None);
}

#[test]
fn state_is_assembled_only_from_all_readings() {
    let whole = ChargerState::from_readings("a".to_string(), Some(1), Some(2), Some(3)).unwrap();
    assert_eq!((whole.id.as_str(), whole.power, whole.session, whole.energy_per_hour), ("a", 1, 2, 3));
    assert!(ChargerState::from_readings("a".to_string(), None, Some(2), Some(3)).is_none());
    assert!(ChargerState::from_readings("a".to_string(), Some(1), None, Some(3)).is_none());
    assert!(ChargerState::from_readings("a".to_string(), Some(1), Some(2), None).is_none());
}

#[test]
fn body_is_handed_out_on_success_only() {
    assert_eq!(body_of(&response(200, "x")).map(|b| b.clone()), Ok("x".to_string()));
    assert_eq!(body_of(&response(299, "")).map(|b| b.clone()), Ok("".to_string()));
    assert_eq!(body_of(&response(429, "x")).map(|b| b.clone()), Err(EaseeError::RateLimit));
    assert_eq!(body_of(&response(404, "x")).map(|b| b.clone()), Err(EaseeError::Unathorized));
}

#[test]
fn a_copy_of_a_state_is_the_same_state() {
    let state = ChargerState { id: "a".to_string(), power: 1, session: 2, energy_per_hour: 3 };
    assert_eq!(readings(&state.clone()), readings(&state));
}

#[test]
fn pipeline_waits_for_the_login_under_way() {
    let mut session = SessionState::new();
    let (first, step) = get_charger_state(&mut session, FetchRun::new(), &Event::Start, NOW);
    assert!(matches!(step, FetchStep::Ask(Request::Credentials)));

    assert!(first.renewing());
    let (second, step) = get_charger_state(&mut session, FetchRun::new(), &Event::Start, NOW);
    assert!(matches!(step, FetchStep::Wait));
    assert_eq!(second.stage(), FetchStage::Session(AuthStage::Idle));
    assert!(!second.renewing());

    let credentials =
        Event::Credentials { username: "user".to_string(), password: "pass".to_string() };
    let (first, _) = get_charger_state(&mut session, first, &credentials, NOW);
    let grant = response(200, r#"{"accessToken":"tok","refreshToken":"R","expiresIn":3600}"#);
    assert!(first.renewing());
    let (first, step) = get_charger_state(&mut session, first, &grant, NOW);
    assert!(matches!(step, FetchStep::Ask(Request::ChargerList { .. })));
    assert!(!first.renewing());
    assert!(!session.renewing());

    let (second, step) = get_charger_state(&mut session, second, &Event::Start, NOW);
    match step {
        FetchStep::Ask(Request::ChargerList { token }) => assert_eq!(token, "tok"),
        other => panic!("expected a list request, got {:?}", other),
    }
    assert_eq!(second.stage(), FetchStage::List);
}
