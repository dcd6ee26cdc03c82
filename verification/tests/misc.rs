use parking_renewal::error::{BookingError, BootstrapError, EngineError, FailureClass, ParseError};
use parking_renewal::middleware::{auth_middleware, UNAUTHORIZED};
use parking_renewal::text::decimal;
use parking_renewal::types::{ParkedVehicle, ParkingSession, RateOption, TotalCost};

#[test]
fn integers_are_written_as_the_standard_library_writes_them() {
    for n in [0, 1, 9, 10, 11, 99, 100, 101, 75011, -1, -9, -10, -75011, i32::MAX, i32::MIN, i32::MIN + 1] {
        assert_eq!(decimal(n), n.to_string());
    }
    assert_eq!(decimal(0), "0");
    assert_eq!(decimal(-2147483648), "-2147483648");
    assert_eq!(decimal(2147483647), "2147483647");
    assert_eq!(decimal(1000), "1000");
}

#[test]
fn bearer_token_opens_the_door() {
    assert_eq!(auth_middleware(Some("Bearer s3cret"), "s3cret"), Ok(()));
    assert_eq!(auth_middleware(Some("Bearer "), ""), Ok(()));
}

#[test]
fn anything_else_is_unauthorized() {
    assert_eq!(UNAUTHORIZED, 401);
    assert_eq!(auth_middleware(None, "s3cret"), Err(401));
    assert_eq!(auth_middleware(Some("Bearer other"), "s3cret"), Err(401));
    assert_eq!(auth_middleware(Some("bearer s3cret"), "s3cret"), Err(401));
    assert_eq!(auth_middleware(Some("s3cret"), "s3cret"), Err(401));
    assert_eq!(auth_middleware(Some("Bearer s3cret "), "s3cret"), Err(401));
    assert_eq!(auth_middleware(Some("Bearer  s3cret"), "s3cret"), Err(401));
    assert_eq!(auth_middleware(Some(""), "s3cret"), Err(401));
}

#[test]
fn failures_are_classed_for_the_caller() {
    assert_eq!(EngineError::Transport("reset".to_string()).class(), FailureClass::Transient);
    assert_eq!(EngineError::Parse(ParseError::Body("eof".to_string())).class(), FailureClass::Upstream);
    assert_eq!(EngineError::Parse(ParseError::NoRateOption).class(), FailureClass::Upstream);
    assert_eq!(EngineError::Parse(ParseError::SessionTime).class(), FailureClass::Upstream);
    assert_eq!(EngineError::Parse(ParseError::OutOfRange).class(), FailureClass::Upstream);
    assert_eq!(EngineError::Parse(ParseError::Unexpected).class(), FailureClass::Upstream);
    assert_eq!(EngineError::Bootstrap(BootstrapError::ApiKeyNotFound).class(), FailureClass::Upstream);
    assert_eq!(EngineError::Bootstrap(BootstrapError::AuthRejected).class(), FailureClass::Client);
    assert_eq!(EngineError::Bootstrap(BootstrapError::NoAccount).class(), FailureClass::Client);
    assert_eq!(
        EngineError::Booking(BookingError::RejectedByService("no".to_string())).class(),
        FailureClass::Upstream
    );
    assert_eq!(EngineError::NoActiveSession.class(), FailureClass::Client);
    assert_eq!(EngineError::AccountNotFound.class(), FailureClass::Client);
    assert!(EngineError::Transport("reset".to_string()).is_transient());
    assert!(!EngineError::NoActiveSession.is_transient());
    assert!(!EngineError::Booking(BookingError::RejectedByService("no".to_string())).is_transient());
}

#[test]
fn classes_are_reported_under_their_status() {
    assert_eq!(FailureClass::Client.http_status(), 400);
    assert_eq!(FailureClass::Upstream.http_status(), 502);
    assert_eq!(FailureClass::Transient.http_status(), 503);
}

#[test]
fn failures_read_as_sentences() {
    assert_eq!(EngineError::NoActiveSession.message(), "No active parking session found");
    assert_eq!(EngineError::AccountNotFound.message(), "Account not found");
    assert_eq!(
        EngineError::Booking(BookingError::RejectedByService("{\"error\":1}".to_string())).message(),
        "Failed to park: {\"error\":1}"
    );
    assert_eq!(EngineError::Transport("reset".to_string()).message(), "Network failure: reset");
    assert_eq!(
        EngineError::Parse(ParseError::Body("eof".to_string())).message(),
        "Unexpected response: eof"
    );
    assert_eq!(EngineError::Parse(ParseError::NoRateOption).message(), "No rate option offered");
    assert_eq!(EngineError::Parse(ParseError::SessionTime).message(), "Unreadable session time");
    assert_eq!(EngineError::Parse(ParseError::OutOfRange).message(), "Session time out of range");
    assert_eq!(EngineError::Parse(ParseError::Unexpected).message(), "Response out of turn");
    assert_eq!(EngineError::Bootstrap(BootstrapError::ApiKeyNotFound).message(), "API key not found");
    assert_eq!(EngineError::Bootstrap(BootstrapError::AuthRejected).message(), "Login rejected");
    assert_eq!(EngineError::Bootstrap(BootstrapError::NoAccount).message(), "No parking account");
}

#[test]
fn blank_records_hold_nothing() {
    assert_eq!(RateOption::default(), RateOption { rate_option_id: String::new(), kind: String::new() });
    assert_eq!(TotalCost::default(), TotalCost { amount_bits: 0.0f64.to_bits(), currency: String::new() });
    let vehicle = ParkedVehicle::default();
    assert_eq!(
        vehicle,
        ParkedVehicle {
            country_code: String::new(),
            id: 0,
            jurisdiction: String::new(),
            license_plate: String::new(),
            kind: String::new(),
        }
    );
    let session = ParkingSession::default();
    assert_eq!(session.coupon_applied, None);
    assert_eq!(session.expire_time, "");
    assert!(!session.fps_applies && !session.is_extendable);
    assert!(!session.is_renewable && !session.is_stoppable);
    assert_eq!(session.location_id, "");
    assert_eq!(session.max_stay_state, "");
    assert_eq!(session.parking_session_id, "");
    assert_eq!(session.rate_option, RateOption::default());
    assert_eq!(session.renewable_after, None);
    assert!(session.segments.is_empty());
    assert_eq!(session.stall, None);
    assert_eq!(session.start_time, "");
    assert_eq!(session.total_cost, TotalCost::default());
    assert_eq!(session.vehicle, vehicle);
}
