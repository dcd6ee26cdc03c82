//! When to renew, and for how long: the arithmetic that turns the window a
//! booking covers into the next check and the minutes still to cover.

use vstd::prelude::*;
use crate::error::{EngineError, ParseError};
use crate::outside::{parse_rfc3339, rfc3339_instant};
use crate::time::{moved_by_minutes, whole_minutes, Timestamp, NANOS_PER_MINUTE};
use crate::types::ParkingSession;

verus! {

/// The minutes that a booking is asked for when probing the service: it
/// books in these increments and relies on renewal to reach the requested
/// duration.
pub const PROBE_MINUTES: i64 = 15;

/// The seconds between two passes of the periodic sweep.
pub const SWEEP_INTERVAL_SECS: u64 = 60;

/// Whether a request for `requested` minutes from `start` runs past `expiry`.
pub open spec fn outlasts(start: Timestamp, expiry: Timestamp, requested: int) -> bool {
    start@ + 60_000_000_000 * requested > expiry@
}

/// The instant at which to look at a booking that expires at `expiry` again:
/// one minute later.
pub open spec fn next_check_after(expiry: Timestamp) -> Timestamp {
    moved_by_minutes(expiry, 1)
}

/// The minutes still to cover once a booking from `start` to `expiry` has
/// run out, of `requested` minutes wanted from `start`: the span from
/// `expiry` to one minute before the requested end, in whole minutes.
pub open spec fn remaining_minutes(start: Timestamp, expiry: Timestamp, requested: int) -> int {
    whole_minutes(start@ + 60_000_000_000 * requested - 60_000_000_000 - expiry@)
}

/// The minutes of the window from `start` to `expiry`, a started minute
/// counting as a whole one.
pub open spec fn window_minutes(start: Timestamp, expiry: Timestamp) -> int {
    -((start@ - expiry@) / 60_000_000_000)
}

/// Whether the next check and the remaining minutes of such a booking fit
/// the machine's integers.
pub open spec fn schedulable(start: Timestamp, expiry: Timestamp, requested: int) -> bool {
    &&& expiry.secs + 60 <= i64::MAX
    &&& i64::MIN <= remaining_minutes(start, expiry, requested) <= i64::MAX
}

/// A renewal to make later: wake at `sleep_until` and ask for `remaining`
/// minutes more.
#[derive(Clone, Copy, Debug, PartialEq, Eq, Structural)]
pub struct Continuation {
    pub sleep_until: Timestamp,
    pub remaining: i64,
}

/// The renewal to arm for a booking from `start` to `expiry` when
/// `requested` minutes were wanted: none where the booking covers them or
/// nothing would remain.
pub open spec fn continuation_of(start: Timestamp, expiry: Timestamp, requested: int) -> Option<
    Continuation,
> {
    if outlasts(start, expiry, requested) && remaining_minutes(start, expiry, requested) > 0 {
        Some(
            Continuation {
                sleep_until: next_check_after(expiry),
                remaining: remaining_minutes(start, expiry, requested) as i64,
            },
        )
    } else {
        None
    }
}

/// What is kept per vehicle between renewals: when to look again, and the
/// minutes still to cover then. A state whose `duration` is not positive is
/// inert.
#[derive(Clone, Copy, Debug, PartialEq, Eq, Structural)]
pub struct Session {
    pub next_check: Timestamp,
    pub duration: i64,
}

/// The state to keep after a booking from `start` to `expiry` was made for a
/// vehicle that wanted `requested` minutes.
pub open spec fn session_after(start: Timestamp, expiry: Timestamp, requested: int) -> Session {
    Session {
        next_check: next_check_after(expiry),
        duration: remaining_minutes(start, expiry, requested) as i64,
    }
}

/// The state to keep after a booking that the service lists as starting at
/// `start_time` and expiring at `expire_time`, both RFC 3339 dates and times:
/// none where either cannot be read, or where they are too far out to
/// schedule from.
pub open spec fn renewal_of(start_time: Seq<char>, expire_time: Seq<char>, requested: int) -> Result<
    Session,
    EngineError,
> {
    match (rfc3339_instant(start_time), rfc3339_instant(expire_time)) {
        (Some(start), Some(expiry)) => renewal_from(
            instant_of(start),
            instant_of(expiry),
            requested,
        ),
        _ => Err(EngineError::Parse(ParseError::SessionTime)),
    }
}

/// The instant of so many seconds and nanoseconds since the epoch.
pub open spec fn instant_of(parts: (int, int)) -> Timestamp {
    Timestamp { secs: parts.0 as i64, nanos: parts.1 as u32 }
}

/// The state to keep after a booking from `start` to `expiry`, or that it
/// cannot be scheduled from.
pub open spec fn renewal_from(start: Timestamp, expiry: Timestamp, requested: int) -> Result<
    Session,
    EngineError,
> {
    if schedulable(start, expiry, requested) {
        Ok(session_after(start, expiry, requested))
    } else {
        Err(EngineError::Parse(ParseError::OutOfRange))
    }
}

/// Whether the sweep renews a vehicle in `state` at `now`.
pub open spec fn due(state: Session, now: Timestamp) -> bool {
    state.next_check@ <= now@ && state.duration > 0
}

/// The nanoseconds from the epoch to `t`.
fn nanos_of(t: Timestamp) -> (n: i128)
    ensures
        n == t@,
{
    t.secs as i128 * 1_000_000_000i128 + t.nanos as i128
}

/// Computes `remaining_minutes`.
fn remaining(start: Timestamp, expiry: Timestamp, requested: i64) -> (minutes: i128)
    ensures
        minutes == remaining_minutes(start, expiry, requested as int),
{
    let span: i128 = nanos_of(start) + NANOS_PER_MINUTE * (requested as i128) - NANOS_PER_MINUTE
        - nanos_of(expiry);
    span / NANOS_PER_MINUTE
}

/// Whether a booking from `start` to `expiry` can be scheduled from.
pub fn is_schedulable(start: Timestamp, expiry: Timestamp, requested: i64) -> (yes: bool)
    ensures
        yes == schedulable(start, expiry, requested as int),
{
    let minutes = remaining(start, expiry, requested);
    expiry.secs <= i64::MAX - 60 && i64::MIN as i128 <= minutes && minutes <= i64::MAX as i128
}

impl Continuation {
    /// The renewal to arm before booking a quote that runs from `start` to
    /// `expiry`, when `requested` minutes are wanted.
    pub fn plan(start: Timestamp, expiry: Timestamp, requested: i64) -> (armed: Option<Continuation>)
        requires
            schedulable(start, expiry, requested as int),
        ensures
            armed == continuation_of(start, expiry, requested as int),
    {
        let end: i128 = nanos_of(start) + NANOS_PER_MINUTE * (requested as i128);
        if end > nanos_of(expiry) {
            let minutes = remaining(start, expiry, requested);
            if minutes <= 0 {
                None
            } else {
                Some(Continuation { sleep_until: expiry.plus_minutes(1), remaining: minutes as i64 })
            }
        } else {
            None
        }
    }
}

impl Session {
    /// The state to keep after a booking from `start` to `expiry`.
    pub fn after_booking(start: Timestamp, expiry: Timestamp, requested: i64) -> (state: Session)
        requires
            schedulable(start, expiry, requested as int),
        ensures
            state == session_after(start, expiry, requested as int),
    {
        let minutes = remaining(start, expiry, requested);
        Session { next_check: expiry.plus_minutes(1), duration: minutes as i64 }
    }

    /// The state to keep after a booking from `start` to `expiry`, or that
    /// it cannot be scheduled from.
    pub fn from_window(start: Timestamp, expiry: Timestamp, requested: i64) -> (state: Result<
        Session,
        EngineError,
    >)
        ensures
            state == renewal_from(start, expiry, requested as int),
    {
        if is_schedulable(start, expiry, requested) {
            Ok(Session::after_booking(start, expiry, requested))
        } else {
            Err(EngineError::Parse(ParseError::OutOfRange))
        }
    }

    /// The state to keep after the booking `session`, made for a vehicle
    /// that wanted `requested` minutes.
    pub fn after(session: &ParkingSession, requested: i64) -> (state: Result<Session, EngineError>)
        ensures
            state == renewal_of(session.start_time@, session.expire_time@, requested as int),
    {
        let start = parse_rfc3339(session.start_time.as_str());
        let expiry = parse_rfc3339(session.expire_time.as_str());
        match (start, expiry) {
            (Some(start), Some(expiry)) => Session::from_window(
                Timestamp::new(start.0, start.1),
                Timestamp::new(expiry.0, expiry.1),
                requested,
            ),
            _ => Err(EngineError::Parse(ParseError::SessionTime)),
        }
    }

    /// Whether the sweep renews a vehicle in this state at `now`.
    pub fn is_due(&self, now: Timestamp) -> (yes: bool)
        ensures
            yes == due(*self, now),
    {
        self.next_check.at_or_before(now) && self.duration > 0
    }
}

/// A renewal is armed exactly when minutes are left of the requested ones
/// once the minutes of the booked window and one more are taken off, and then
/// for that many minutes, to start one minute after the window ends. Where
/// nothing is left, none is armed.
pub proof fn lemma_continuation_remaining(start: Timestamp, expiry: Timestamp, requested: int)
    requires
        schedulable(start, expiry, requested),
    ensures
        continuation_of(start, expiry, requested) is Some <==> requested - window_minutes(
            start,
            expiry,
        ) - 1 > 0,
        continuation_of(start, expiry, requested) matches Some(c) ==> {
            &&& outlasts(start, expiry, requested)
            &&& c.remaining == requested - window_minutes(start, expiry) - 1
            &&& c.remaining == remaining_minutes(start, expiry, requested)
            &&& c.sleep_until@ == expiry@ + 60_000_000_000
        },
        remaining_minutes(start, expiry, requested) <= 0 ==> continuation_of(
            start,
            expiry,
            requested,
        ) is None,
{
}

/// For a window of whole minutes that the request outlasts, the minutes that
/// remain are the requested ones less the minutes between start and expiry,
/// less one.
pub proof fn lemma_remaining_whole_window(start: Timestamp, expiry: Timestamp, requested: int)
    requires
        outlasts(start, expiry, requested),
        (expiry@ - start@) % 60_000_000_000 == 0,
    ensures
        remaining_minutes(start, expiry, requested) == requested - (expiry@ - start@)
            / 60_000_000_000 - 1,
        window_minutes(start, expiry) == (expiry@ - start@) / 60_000_000_000,
{
}

/// The state kept after a booking looks again one minute after the booking
/// expires, and holds the minutes that remain then.
pub proof fn lemma_next_check(start: Timestamp, expiry: Timestamp, requested: int)
    requires
        schedulable(start, expiry, requested),
    ensures
        session_after(start, expiry, requested).next_check@ == expiry@ + 60_000_000_000,
        session_after(start, expiry, requested).next_check.secs == expiry.secs + 60,
        session_after(start, expiry, requested).next_check.nanos == expiry.nanos,
        session_after(start, expiry, requested).duration == remaining_minutes(
            start,
            expiry,
            requested,
        ),
{
}

/// A vehicle with no minutes left to cover is never due, whatever the time.
pub proof fn lemma_inert_never_due(state: Session, now: Timestamp)
    requires
        state.duration <= 0,
    ensures
        !due(state, now),
{
}

/// Renewals run out: a booking that does not end before it starts leaves
/// fewer minutes to cover than were asked for, so a chain of renewals, each
/// asking for what the one before left, ends.
pub proof fn lemma_renewals_shrink(start: Timestamp, expiry: Timestamp, requested: int)
    requires
        start@ <= expiry@,
    ensures
        remaining_minutes(start, expiry, requested) > 0 ==> remaining_minutes(
            start,
            expiry,
            requested,
        ) < requested,
{
}

} // verus!
