use parking_renewal::config::{Accounts, Config, Credentials};
use parking_renewal::error::{BookingError, EngineError};
use parking_renewal::paybyphone::{InitEvent, PayByPhone};
use parking_renewal::pipeline::{PipelineAction, PipelineEvent, PipelineState};
use parking_renewal::scheduler::Session;
use parking_renewal::time::Timestamp;
use parking_renewal::types::{Account, Auth, ParkingSession};

const T: i64 = 1_715_677_200; // 2024-05-14T09:00:00Z

fn at(minutes: i64) -> Timestamp {
    Timestamp::from_secs(T + 60 * minutes)
}

fn account(name: &str, plate: &str, session: Option<Session>) -> Config {
    Config {
        name: name.to_string(),
        plate: plate.to_string(),
        lot: 75011,
        pay_by_phone: Credentials {
            login: format!("{name}@example.test"),
            password: "hunter2".to_string(),
            payment_account_id: format!("pay-{name}"),
        },
        session,
    }
}

fn accounts() -> Accounts {
    Accounts {
        accounts: vec![
            account("alice", "AA111AA", None),
            account("bob", "BB222BB", Some(Session { next_check: at(16), duration: 29 })),
            account("carol", "CC333CC", Some(Session { next_check: at(16), duration: 0 })),
            account("bob", "DD444DD", Some(Session { next_check: at(0), duration: 5 })),
        ],
    }
}

fn booked() -> ParkingSession {
    let mut session = ParkingSession::default();
    session.vehicle.license_plate = "AA111AA".to_string();
    session.start_time = "2024-05-14T09:00:00Z".to_string();
    session.expire_time = "2024-05-14T09:15:00Z".to_string();
    session
}

#[test]
fn account_is_found_by_name_first_one_first() {
    let store = accounts();
    assert_eq!(store.find("alice"), Some(0));
    assert_eq!(store.find("bob"), Some(1));
    assert_eq!(store.find("carol"), Some(2));
    assert_eq!(store.find("dave"), None);
    assert_eq!(store.find("Alice"), None);
    assert_eq!(Accounts { accounts: vec![] }.find("alice"), None);
}

#[test]
fn renewal_state_is_read_by_name() {
    let store = accounts();
    assert_eq!(store.get("alice"), None);
    assert_eq!(store.get("bob"), Some(Session { next_check: at(16), duration: 29 }));
    assert_eq!(store.get("dave"), None);
    assert_eq!(store.check_renew("alice"), Ok(None));
    assert_eq!(store.check_renew("bob"), Ok(Some(Session { next_check: at(16), duration: 29 })));
    assert_eq!(store.check_renew("dave"), Err(EngineError::AccountNotFound));
}

#[test]
fn entries_list_what_is_kept_for_every_account() {
    assert_eq!(
        accounts().entries(),
        vec![
            None,
            Some(Session { next_check: at(16), duration: 29 }),
            Some(Session { next_check: at(16), duration: 0 }),
            Some(Session { next_check: at(0), duration: 5 }),
        ]
    );
    assert_eq!(Accounts { accounts: vec![] }.entries(), vec![]);
}

#[test]
fn set_then_get_returns_what_was_set() {
    let mut store = accounts();
    let state = Session { next_check: at(32), duration: 13 };
    assert!(store.set("alice", state));
    assert_eq!(store.get("alice"), Some(state));
    // Nothing else moved.
    let mut expected = accounts();
    expected.accounts[0].session = Some(state);
    assert_eq!(store, expected);
    // Both fields change together, and only for the first account so named.
    assert!(store.set("bob", state));
    expected.accounts[1].session = Some(state);
    assert_eq!(store, expected);
    assert!(!store.set("dave", state));
    assert_eq!(store, expected);
}

#[test]
fn sweep_takes_those_whose_check_has_come_and_minutes_remain() {
    let store = accounts();
    assert_eq!(store.due(at(-1)), vec![]);
    assert_eq!(store.due(at(0)), vec![3]);
    assert_eq!(store.due(at(15)), vec![3]);
    assert_eq!(store.due(at(16)), vec![1, 3]);
    assert_eq!(store.due(at(1000)), vec![1, 3]);
    assert_eq!(Accounts { accounts: vec![] }.due(at(0)), vec![]);
}

#[test]
fn sweep_never_takes_a_vehicle_with_nothing_left() {
    let mut store = accounts();
    store.accounts[1].session = Some(Session { next_check: at(16), duration: -3 });
    store.accounts[3].session = Some(Session { next_check: at(0), duration: 0 });
    assert_eq!(store.due(at(1000)), vec![]);
    assert_eq!(store.due(Timestamp::from_secs(i64::MAX)), vec![]);
}

#[test]
fn engine_is_made_from_the_account_of_that_name() {
    let store = accounts();
    assert_eq!(
        store.engine("bob"),
        Ok(PayByPhone::new(
            "BB222BB".to_string(),
            75011,
            "bob@example.test".to_string(),
            "hunter2".to_string(),
            "pay-bob".to_string(),
        ))
    );
    assert_eq!(store.engine("dave"), Err(EngineError::AccountNotFound));
}

#[test]
fn booked_session_sets_the_next_check_a_minute_after_its_expiry() {
    let mut store = accounts();
    let kept = store.settle("alice", 45, &PipelineAction::Parked(booked()));
    assert_eq!(kept, Some(Session { next_check: at(16), duration: 29 }));
    assert_eq!(store.get("alice"), Some(Session { next_check: at(16), duration: 29 }));
    let mut expected = accounts();
    expected.accounts[0].session = Some(Session { next_check: at(16), duration: 29 });
    assert_eq!(store, expected);
}

#[test]
fn sweep_renewal_counts_down_what_remains() {
    let mut store = accounts();
    // bob had 29 minutes left; the renewal booked [T+16, T+31).
    let mut session = booked();
    session.start_time = "2024-05-14T09:16:00Z".to_string();
    session.expire_time = "2024-05-14T09:31:00Z".to_string();
    let left = store.get("bob").unwrap().duration;
    assert_eq!(
        store.settle("bob", left, &PipelineAction::Parked(session.clone())),
        Some(Session { next_check: at(32), duration: 13 })
    );
    session.start_time = "2024-05-14T09:32:00Z".to_string();
    session.expire_time = "2024-05-14T09:47:00Z".to_string();
    let left = store.get("bob").unwrap().duration;
    assert_eq!(
        store.settle("bob", left, &PipelineAction::Parked(session)),
        Some(Session { next_check: at(48), duration: -3 })
    );
    assert_eq!(store.due(at(1000)), vec![3]);
}

#[test]
fn failed_booking_leaves_the_renewal_state_alone() {
    let mut store = accounts();
    let rejected = PipelineAction::Fail(EngineError::Booking(BookingError::RejectedByService(
        "bad request".to_string(),
    )));
    assert_eq!(store.settle("bob", 29, &rejected), None);
    assert_eq!(store, accounts());
    assert_eq!(store.settle("alice", 45, &rejected), None);
    assert_eq!(store.get("alice"), None);
    let no_rates = PipelineAction::Fail(EngineError::Parse(
        parking_renewal::error::ParseError::NoRateOption,
    ));
    assert_eq!(store.settle("alice", 45, &no_rates), None);
    assert_eq!(store, accounts());
}

#[test]
fn session_with_unreadable_times_is_not_kept() {
    let mut store = accounts();
    let mut session = booked();
    session.expire_time = "soon".to_string();
    assert_eq!(store.settle("bob", 29, &PipelineAction::Parked(session)), None);
    assert_eq!(store, accounts());
    assert_eq!(store.settle("dave", 29, &PipelineAction::Parked(booked())), None);
    assert_eq!(store, accounts());
}

#[test]
fn booking_then_checking_agree_on_the_session_behind_the_renewal() {
    let mut store = accounts();
    let mut engine = store.engine("alice").unwrap();
    engine.init(InitEvent::Script(r#"paymentService:{apiKey:"k3y"}"#.to_string()));
    engine.init(InitEvent::Token {
        status: 200,
        auth: Some(Auth {
            token_type: "Bearer".to_string(),
            access_token: "t0k3n".to_string(),
            expires_in: 3600,
            refresh_token: String::new(),
            scope: String::new(),
        }),
    });
    engine.init(InitEvent::Accounts(vec![Account { id: "acc-1".to_string() }]));

    let mut foreign = booked();
    foreign.vehicle.license_plate = "BB222BB".to_string();
    foreign.expire_time = "2024-05-14T10:00:00Z".to_string();
    let listed = vec![foreign, booked()];

    // The booking was accepted: the pipeline reads the session back.
    let (_, parked) = engine.step(
        PipelineState::Booking,
        PipelineEvent::Booked { status: 202, body: String::new() },
    );
    assert!(matches!(parked, PipelineAction::Send(_)));
    let (_, parked) = engine.step(PipelineState::Sessions, PipelineEvent::Sessions(listed.clone()));
    let kept = store.settle("alice", 45, &parked);

    // A check right after sees the same session.
    let (state, _) = engine.check();
    let (_, checked) = engine.step(state, PipelineEvent::Sessions(listed));
    assert_eq!(checked, parked);
    let PipelineAction::Parked(session) = checked else { panic!("no session was found") };
    assert_eq!(session.start_time, "2024-05-14T09:00:00Z");
    assert_eq!(session.expire_time, "2024-05-14T09:15:00Z");

    // The renewal kept was computed from that session's start and expiry.
    assert_eq!(kept, Session::after(&session, 45).ok());
    assert_eq!(kept, Some(Session { next_check: at(16), duration: 29 }));
    assert_eq!(store.get("alice"), kept);
}
