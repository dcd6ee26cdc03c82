use parking_renewal::error::{BookingError, EngineError, ParseError};
use parking_renewal::paybyphone::{InitEvent, PayByPhone};
use parking_renewal::pipeline::{
    active_session, PipelineAction, PipelineEvent, PipelineState, ACCEPTED,
};
use parking_renewal::scheduler::Continuation;
use parking_renewal::time::{OffsetTimestamp, Timestamp};
use parking_renewal::transport::{Method, Params, Payload};
use parking_renewal::types::{
    Account, Auth, AvailableTimeUnitsWithRestrictions, Cost, Duration, GetParkingSession,
    GetQuote, GetRateOptions, ParkingOption, ParkingSession, PaymentMethod, PaymentPayload,
    PostQuote, Profile, Quote, RenewalParking, TimeUnitRestriction,
};

const T: i64 = 1_715_677_200; // 2024-05-14T09:00:00Z

fn at(minutes: i64) -> Timestamp {
    Timestamp::from_secs(T + 60 * minutes)
}

fn engine() -> PayByPhone {
    let mut engine = PayByPhone::new(
        "AB123CD".to_string(),
        75011,
        "+33600000000".to_string(),
        "hunter2".to_string(),
        "pay-42".to_string(),
    );
    engine.init(InitEvent::Script(r#"paymentService:{apiKey:"k3y"}"#.to_string()));
    engine.init(InitEvent::Token {
        status: 200,
        auth: Some(Auth {
            token_type: "Bearer".to_string(),
            access_token: "t0k3n".to_string(),
            expires_in: 3600,
            refresh_token: String::new(),
            scope: String::new(),
        }),
    });
    engine.init(InitEvent::Accounts(vec![Account { id: "acc-1".to_string() }]));
    assert!(engine.is_ready());
    engine
}

fn profile() -> Profile {
    Profile { profile_name: "default".to_string(), icon: None, user_messages: None }
}

fn limit() -> TimeUnitRestriction {
    TimeUnitRestriction {
        duration: Duration { quantity: 120, time_unit: "Minutes".to_string() },
        end_time: OffsetTimestamp { instant: at(120), offset_secs: 7200 },
    }
}

fn option(rate: &str) -> ParkingOption {
    ParkingOption {
        name: "Visitor".to_string(),
        kind: "RES".to_string(),
        rate_option_id: rate.to_string(),
        effective_max_stay_duration: Duration { quantity: 120, time_unit: "Minutes".to_string() },
        max_stay_status: "Available".to_string(),
        policy_type: "Standard".to_string(),
        max_stay_end_time: OffsetTimestamp { instant: at(120), offset_secs: 7200 },
        accepted_time_units: vec!["Minutes".to_string()],
        restriction_periods: vec![],
        available_time_units_with_restrictions: AvailableTimeUnitsWithRestrictions {
            minutes: limit(),
            hours: limit(),
        },
        time_steps: None,
        is_default: true,
        is_preferred: false,
        license_plate: "AB123CD".to_string(),
        areas: vec![],
        fps: None,
        available_promotions: vec![],
        renewal_parking: RenewalParking { is_allowed: true, window: None },
        eligibility_end_date: None,
        profile: profile(),
    }
}

fn quote_over(start: Timestamp, expiry: Timestamp) -> Quote {
    Quote {
        location_id: "75011".to_string(),
        stall: None,
        quote_date: start,
        total_cost: Cost { amount_bits: 1.5f64.to_bits(), currency: "EUR".to_string() },
        parking_account_id: "acc-1".to_string(),
        parking_start_time: start,
        parking_expiry_time: expiry,
        parking_duration_adjustment: "None".to_string(),
        license_plate: "AB123CD".to_string(),
        quote_items: vec![],
        quote_id: "q-1".to_string(),
        promotion_applied: None,
        profile: profile(),
    }
}

fn session_for(plate: &str, id: &str) -> ParkingSession {
    let mut session = ParkingSession::default();
    session.parking_session_id = id.to_string();
    session.vehicle.license_plate = plate.to_string();
    session.start_time = "2024-05-14T09:00:00Z".to_string();
    session.expire_time = "2024-05-14T09:15:00Z".to_string();
    session
}

#[test]
fn accepted_is_http_202() {
    assert_eq!(ACCEPTED, 202);
}

#[test]
fn park_books_the_probe_and_verifies_the_session() {
    let engine = engine();

    let (state, call) = engine.park(45);
    assert_eq!(state, PipelineState::ParkRates { requested: 45 });
    assert_eq!(call.method, Method::Get);
    assert_eq!(call.url, "https://consumer.paybyphoneapis.com/parking/locations/75011/rateOptions");
    assert_eq!(
        call.payload,
        Payload::Query(Params::RateOptions(GetRateOptions {
            parking_account_id: "acc-1".to_string(),
            license_plate: "AB123CD".to_string(),
        }))
    );
    assert_eq!(call.headers, engine.get_vehicles().headers);

    // The first option offered is taken; a quarter of an hour is quoted.
    let options = vec![option("rate-A"), option("rate-B")];
    let (state, action) = engine.step(state, PipelineEvent::RateOptions(options));
    assert_eq!(state, PipelineState::ParkQuote { requested: 45, rate: "rate-A".to_string() });
    let PipelineAction::Send(call) = action else { panic!("no quote was asked for") };
    assert_eq!(call.method, Method::Get);
    assert_eq!(call.url, "https://consumer.paybyphoneapis.com/parking/accounts/acc-1/quote");
    assert_eq!(
        call.payload,
        Payload::Query(Params::Quote(GetQuote {
            license_plate: "AB123CD".to_string(),
            location_id: "75011".to_string(),
            rate_option_id: "rate-A".to_string(),
            duration_quantity: 15,
            duration_time_unit: "Minutes".to_string(),
        }))
    );

    // The quote covers [T, T+15): the renewal is armed before booking.
    let (state, action) = engine.step(state, PipelineEvent::Quote(quote_over(at(0), at(15))));
    assert_eq!(state, PipelineState::Booking);
    let PipelineAction::Book { continuation, request } = action else { panic!("nothing was booked") };
    assert_eq!(continuation, Some(Continuation { sleep_until: at(16), remaining: 29 }));
    assert_eq!(request.method, Method::Post);
    assert_eq!(request.url, "https://consumer.paybyphoneapis.com/parking/accounts/acc-1/sessions/");
    assert_eq!(
        request.payload,
        Payload::Json(Params::Booking(PostQuote {
            license_plate: "AB123CD".to_string(),
            location_id: "75011".to_string(),
            stall: None,
            rate_option_id: "rate-A".to_string(),
            start_time: at(0),
            quote_id: "q-1".to_string(),
            duration: Duration { quantity: 15, time_unit: "Minutes".to_string() },
            payment_method: PaymentMethod {
                payment_method_type: "PaymentAccount".to_string(),
                payload: PaymentPayload { payment_account_id: "pay-42".to_string(), cvv: None },
            },
        }))
    );

    // Accepted: the session is read back from the service.
    let (state, action) =
        engine.step(state, PipelineEvent::Booked { status: 202, body: String::new() });
    assert_eq!(state, PipelineState::Sessions);
    let PipelineAction::Send(call) = action else { panic!("the sessions were not asked for") };
    assert_eq!(call.method, Method::Get);
    assert_eq!(call.url, "https://consumer.paybyphoneapis.com/parking/accounts/acc-1/sessions");
    assert_eq!(
        call.payload,
        Payload::Query(Params::Sessions(GetParkingSession { period_type: "Current".to_string() }))
    );

    let sessions = vec![session_for("ZZ999ZZ", "s-0"), session_for("AB123CD", "s-1")];
    let (state, action) = engine.step(state, PipelineEvent::Sessions(sessions));
    assert_eq!(state, PipelineState::Finished);
    assert_eq!(action, PipelineAction::Parked(session_for("AB123CD", "s-1")));
}

#[test]
fn continuation_parks_again_for_what_remains() {
    let engine = engine();
    // After the first quarter of an hour, the wake-up asks for 29 minutes.
    let (state, _) = engine.park(29);
    let (state, _) = engine.step(state, PipelineEvent::RateOptions(vec![option("rate-A")]));
    let (_, action) = engine.step(state, PipelineEvent::Quote(quote_over(at(16), at(31))));
    let PipelineAction::Book { continuation, .. } = action else { panic!("nothing was booked") };
    assert_eq!(continuation, Some(Continuation { sleep_until: at(32), remaining: 13 }));

    let (state, _) = engine.park(13);
    let (state, _) = engine.step(state, PipelineEvent::RateOptions(vec![option("rate-A")]));
    let (state, action) = engine.step(state, PipelineEvent::Quote(quote_over(at(32), at(47))));
    assert_eq!(state, PipelineState::Booking);
    let PipelineAction::Book { continuation, .. } = action else { panic!("nothing was booked") };
    assert_eq!(continuation, None);
}

#[test]
fn empty_rate_options_end_park_before_any_booking() {
    let engine = engine();
    let (state, _) = engine.park(45);
    let (state, action) = engine.step(state, PipelineEvent::RateOptions(vec![]));
    assert_eq!(state, PipelineState::Finished);
    assert_eq!(action, PipelineAction::Fail(EngineError::Parse(ParseError::NoRateOption)));
    // Nothing that arrives later makes it book.
    let (state, action) = engine.step(state, PipelineEvent::Quote(quote_over(at(0), at(15))));
    assert_eq!(state, PipelineState::Finished);
    assert_eq!(action, PipelineAction::Fail(EngineError::Parse(ParseError::Unexpected)));
}

#[test]
fn rejected_booking_surfaces_the_body() {
    let engine = engine();
    let body = r#"{"error":"max stay exceeded"}"#.to_string();
    let (state, action) =
        engine.step(PipelineState::Booking, PipelineEvent::Booked { status: 400, body: body.clone() });
    assert_eq!(state, PipelineState::Finished);
    assert_eq!(
        action,
        PipelineAction::Fail(EngineError::Booking(BookingError::RejectedByService(body)))
    );
    // Only 202 counts, not any other success.
    let (state, action) = engine
        .step(PipelineState::Booking, PipelineEvent::Booked { status: 200, body: "ok".to_string() });
    assert_eq!(state, PipelineState::Finished);
    assert_eq!(
        action,
        PipelineAction::Fail(EngineError::Booking(BookingError::RejectedByService("ok".to_string())))
    );
}

#[test]
fn failure_of_a_call_is_passed_on_from_any_state() {
    let engine = engine();
    let down = EngineError::Transport("timed out".to_string());
    for state in [
        PipelineState::ParkRates { requested: 45 },
        PipelineState::QuoteRates { minutes: 30 },
        PipelineState::ParkQuote { requested: 45, rate: "rate-A".to_string() },
        PipelineState::QuoteOnly,
        PipelineState::Booking,
        PipelineState::Sessions,
        PipelineState::Finished,
    ] {
        let (next, action) = engine.step(state, PipelineEvent::Failed(down.clone()));
        assert_eq!(next, PipelineState::Finished);
        assert_eq!(action, PipelineAction::Fail(down.clone()));
    }
}

#[test]
fn answer_out_of_turn_ends_the_operation() {
    let engine = engine();
    let unexpected = PipelineAction::Fail(EngineError::Parse(ParseError::Unexpected));
    let (state, action) =
        engine.step(PipelineState::Booking, PipelineEvent::RateOptions(vec![option("rate-A")]));
    assert_eq!((state, action), (PipelineState::Finished, unexpected.clone()));
    let (state, action) = engine.step(
        PipelineState::ParkRates { requested: 45 },
        PipelineEvent::Booked { status: 202, body: String::new() },
    );
    assert_eq!((state, action), (PipelineState::Finished, unexpected.clone()));
    let (state, action) =
        engine.step(PipelineState::QuoteOnly, PipelineEvent::Sessions(vec![]));
    assert_eq!((state, action), (PipelineState::Finished, unexpected.clone()));
    let (state, action) = engine
        .step(PipelineState::Sessions, PipelineEvent::Quote(quote_over(at(0), at(15))));
    assert_eq!((state, action), (PipelineState::Finished, unexpected));
}

#[test]
fn quote_asks_for_the_minutes_wanted_and_books_nothing() {
    let engine = engine();
    let (state, call) = engine.quote(90);
    assert_eq!(state, PipelineState::QuoteRates { minutes: 90 });
    assert_eq!(call.url, "https://consumer.paybyphoneapis.com/parking/locations/75011/rateOptions");
    let (state, action) =
        engine.step(state, PipelineEvent::RateOptions(vec![option("rate-B"), option("rate-A")]));
    assert_eq!(state, PipelineState::QuoteOnly);
    let PipelineAction::Send(call) = action else { panic!("no quote was asked for") };
    assert_eq!(
        call.payload,
        Payload::Query(Params::Quote(GetQuote {
            license_plate: "AB123CD".to_string(),
            location_id: "75011".to_string(),
            rate_option_id: "rate-B".to_string(),
            duration_quantity: 90,
            duration_time_unit: "Minutes".to_string(),
        }))
    );
    let quote = quote_over(at(0), at(90));
    let (state, action) = engine.step(state, PipelineEvent::Quote(quote.clone()));
    assert_eq!(state, PipelineState::Finished);
    assert_eq!(action, PipelineAction::Quoted(quote));

    let (state, action) =
        engine.step(PipelineState::QuoteRates { minutes: 90 }, PipelineEvent::RateOptions(vec![]));
    assert_eq!(state, PipelineState::Finished);
    assert_eq!(action, PipelineAction::Fail(EngineError::Parse(ParseError::NoRateOption)));
}

#[test]
fn check_finds_the_session_of_the_plate() {
    let engine = engine();
    let (state, call) = engine.check();
    assert_eq!(state, PipelineState::Sessions);
    assert_eq!(call, engine.get_parking_session());
    let sessions = vec![session_for("ZZ999ZZ", "s-0"), session_for("AB123CD", "s-1")];
    let (state, action) = engine.step(state, PipelineEvent::Sessions(sessions));
    assert_eq!(state, PipelineState::Finished);
    assert_eq!(action, PipelineAction::Parked(session_for("AB123CD", "s-1")));
}

#[test]
fn check_fails_without_a_session_for_the_plate() {
    let engine = engine();
    let (state, _) = engine.check();
    let (next, action) =
        engine.step(state.clone(), PipelineEvent::Sessions(vec![session_for("ZZ999ZZ", "s-0")]));
    assert_eq!(next, PipelineState::Finished);
    assert_eq!(action, PipelineAction::Fail(EngineError::NoActiveSession));
    let (_, action) = engine.step(state, PipelineEvent::Sessions(vec![]));
    assert_eq!(action, PipelineAction::Fail(EngineError::NoActiveSession));
}

#[test]
fn first_of_several_sessions_for_a_plate_is_taken() {
    let plate = "AB123CD".to_string();
    let sessions = vec![
        session_for("ZZ999ZZ", "s-0"),
        session_for("AB123CD", "s-1"),
        session_for("AB123CD", "s-2"),
    ];
    assert_eq!(active_session(sessions, &plate), Ok(session_for("AB123CD", "s-1")));
    assert_eq!(active_session(vec![], &plate), Err(EngineError::NoActiveSession));
    // Plates are compared letter for letter.
    assert_eq!(
        active_session(vec![session_for("ab123cd", "s-3")], &plate),
        Err(EngineError::NoActiveSession)
    );
}

#[test]
fn quote_too_far_out_is_not_booked() {
    let engine = engine();
    let state = PipelineState::ParkQuote { requested: 45, rate: "rate-A".to_string() };
    let quote = quote_over(at(0), Timestamp::from_secs(i64::MAX));
    let (state, action) = engine.step(state, PipelineEvent::Quote(quote));
    assert_eq!(state, PipelineState::Finished);
    assert_eq!(action, PipelineAction::Fail(EngineError::Parse(ParseError::OutOfRange)));
}

#[test]
fn lot_is_written_in_decimal() {
    let mut engine = PayByPhone::new(
        "AB123CD".to_string(),
        -7,
        "login".to_string(),
        "password".to_string(),
        "pay".to_string(),
    );
    engine.accept_api_key(Some("k".to_string())).unwrap();
    engine
        .accept_token(
            200,
            Some(Auth {
                token_type: "Bearer".to_string(),
                access_token: "t".to_string(),
                expires_in: 0,
                refresh_token: String::new(),
                scope: String::new(),
            }),
        )
        .unwrap();
    engine.accept_accounts(vec![Account { id: "a".to_string() }]).unwrap();
    assert_eq!(
        engine.get_rate_option().url,
        "https://consumer.paybyphoneapis.com/parking/locations/-7/rateOptions"
    );
    let call = engine.get_quote(30, "r");
    let Payload::Query(Params::Quote(query)) = call.payload else { panic!("no query") };
    assert_eq!(query.location_id, "-7");
    let call = engine.post_quote(quote_over(at(0), at(15)), 15, "r");
    let Payload::Json(Params::Booking(body)) = call.payload else { panic!("no body") };
    assert_eq!(body.location_id, "-7");
}
