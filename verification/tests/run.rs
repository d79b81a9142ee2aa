use easee_status::run::{log_level, LogLevel};
use easee_status::text::same_text;
use easee_status::upstream::{is_success, EASEE_BASE};
use easee_status::{tick, ChargerState, EaseeError, Request};

#[test]
fn tick_writes_three_points_for_each_charger() {
    let states = vec![
        ChargerState {
            id: "EH1".to_string(),
            power: 1.5f64.to_bits(),
            session: 2.5f64.to_bits(),
            energy_per_hour: 3.5f64.to_bits(),
        },
        ChargerState {
            id: "EH2".to_string(),
            power: 4f64.to_bits(),
            session: 5f64.to_bits(),
            energy_per_hour: 6f64.to_bits(),
        },
    ];
    let written = tick(&Ok(states), 99);
    let flat: Vec<(&str, &str, f64, i64)> = written
        .iter()
        .map(|(measurement, v)| {
            (measurement.as_str(), v.variable.as_str(), f64::from_bits(v.value), v.time)
        })
        .collect();
    assert_eq!(
        flat,
        vec![
            ("EH1", "power", 1.5, 99),
            ("EH1", "energy_per_hour", 3.5, 99),
            ("EH1", "session", 2.5, 99),
            ("EH2", "power", 4.0, 99),
            ("EH2", "energy_per_hour", 6.0, 99),
            ("EH2", "session", 5.0, 99),
        ]
    );
}

#[test]
fn tick_writes_nothing_without_states() {
    assert!(tick(&Ok(Vec::new()), 1).is_empty());
    for error in [
        EaseeError::Unathorized,
        EaseeError::LoginFailed,
        EaseeError::HttpFailed,
        EaseeError::InvalidResponse,
        EaseeError::RateLimit,
    ] {
        assert!(tick(&Err(error), 1).is_empty());
    }
}

#[test]
fn log_level_is_read_from_its_name() {
    assert_eq!(log_level(Some("trace")), LogLevel::Trace);
    assert_eq!(log_level(Some("debug")), LogLevel::Debug);
    assert_eq!(log_level(Some("info")), LogLevel::Info);
    assert_eq!(log_level(Some("warn")), LogLevel::Warn);
    assert_eq!(log_level(Some("error")), LogLevel::Error);
    assert_eq!(log_level(Some("TRACE")), LogLevel::Info);
    assert_eq!(log_level(Some("")), LogLevel::Info);
    assert_eq!(log_level(None), LogLevel::Info);
}

#[test]
fn success_is_the_two_hundreds() {
    assert!(!is_success(0));
    assert!(!is_success(199));
    assert!(is_success(200));
    assert!(is_success(204));
    assert!(is_success(299));
    assert!(!is_success(300));
    assert!(!is_success(429));
    assert!(!is_success(u16::MAX));
}

#[test]
fn requests_know_where_they_go() {
    let login = Request::Login { username: "u".to_string(), password: "p".to_string() };
    let refresh =
        Request::Refresh { access_token: "a".to_string(), refresh_token: "r".to_string() };
    let list = Request::ChargerList { token: "t".to_string() };
    let state = Request::ChargerState { token: "t".to_string(), charger_id: "EH1".to_string() };

    assert_eq!(Request::Credentials.url(EASEE_BASE), None);
    assert_eq!(login.url(EASEE_BASE).as_deref(), Some("https://api.easee.cloud/api/accounts/login"));
    assert_eq!(
        refresh.url(EASEE_BASE).as_deref(),
        Some("https://api.easee.cloud/api/accounts/refresh_token")
    );
    assert_eq!(list.url(EASEE_BASE).as_deref(), Some("https://api.easee.cloud/api/chargers"));
    assert_eq!(
        state.url(EASEE_BASE).as_deref(),
        Some("https://api.easee.cloud/api/chargers/EH1/state")
    );
    assert_eq!(state.url("http://localhost:1").as_deref(), Some("http://localhost:1/chargers/EH1/state"));
}

#[test]
fn requests_know_what_they_carry() {
    let login = Request::Login { username: "u".to_string(), password: "p".to_string() };
    let refresh =
        Request::Refresh { access_token: "a".to_string(), refresh_token: "r".to_string() };
    let list = Request::ChargerList { token: "t1".to_string() };
    let state = Request::ChargerState { token: "t2".to_string(), charger_id: "EH1".to_string() };
    let pair = |name: &str, value: &str| (name.to_string(), value.to_string());

    assert_eq!(login.fields(), vec![pair("username", "u"), pair("password", "p")]);
    assert_eq!(refresh.fields(), vec![pair("accessToken", "a"), pair("refreshToken", "r")]);
    assert!(list.fields().is_empty());
    assert!(state.fields().is_empty());
    assert!(Request::Credentials.fields().is_empty());

    assert_eq!(login.bearer(), None);
    assert_eq!(refresh.bearer(), None);
    assert_eq!(Request::Credentials.bearer(), None);
    assert_eq!(list.bearer().map(|t| t.as_str()), Some("t1"));
    assert_eq!(state.bearer().map(|t| t.as_str()), Some("t2"));
}

#[test]
fn texts_are_the_same_character_for_character() {
    assert!(same_text("", ""));
    assert!(same_text("power", "power"));
    assert!(!same_text("power", "Power"));
    assert!(!same_text("power", "powe"));
    assert!(!same_text("power", "power "));
    assert!(same_text("\u{e5}", "\u{e5}"));
    assert!(!same_text("\u{e5}", "a\u{30a}"));
}
