//! Quoting, booking and checking, one answer at a time.
//!
//! Each operation starts with a call to make and a state to keep. Whoever
//! drives the engine makes the call and comes back to [`PayByPhone::step`]
//! with the state and the answer, until the step says how the operation
//! ended.

use vstd::prelude::*;
use crate::error::{BookingError, EngineError, ParseError};
use crate::paybyphone::{
    booking_request, quote_request, rate_options_request, sessions_request, EngineView,
    PayByPhone,
};
use crate::scheduler::{continuation_of, is_schedulable, schedulable, Continuation, PROBE_MINUTES};
use crate::transport::{authenticated_headers, Request, RequestView};
use crate::types::{ParkingOption, ParkingSession, Quote};

verus! {

/// The status with which the service accepts a booking.
pub const ACCEPTED: u16 = 202;

/// Where an operation stands: which answer it waits for, and what it must
/// remember until then.
#[derive(Clone, Debug, PartialEq, Eq)]
pub enum PipelineState {
    /// Parking for `requested` minutes; waiting for the rate options.
    ParkRates { requested: i64 },
    /// Quoting `minutes` minutes; waiting for the rate options.
    QuoteRates { minutes: i64 },
    /// Parking for `requested` minutes under `rate`; waiting for the quote.
    ParkQuote { requested: i64, rate: String },
    /// Quoting; waiting for the quote.
    QuoteOnly,
    /// Waiting for the answer to the booking.
    Booking,
    /// Waiting for the list of current sessions.
    Sessions,
    /// The operation has ended.
    Finished,
}

/// An answer to the call that the engine last asked for.
#[derive(Clone, Debug, PartialEq, Eq)]
pub enum PipelineEvent {
    /// The rate options on offer.
    RateOptions(Vec<ParkingOption>),
    /// A quote.
    Quote(Quote),
    /// The status and body with which the service answered a booking.
    Booked { status: u16, body: String },
    /// The current sessions of the account.
    Sessions(Vec<ParkingSession>),
    /// The call failed, or its answer could not be decoded.
    Failed(EngineError),
}

/// What to do next.
#[derive(Clone, Debug, PartialEq, Eq)]
pub enum PipelineAction {
    /// Make this call and come back with its answer.
    Send(Request),
    /// Arm the renewal, if there is one, then make this call, which books,
    /// and come back with its answer.
    Book { continuation: Option<Continuation>, request: Request },
    /// The operation ended with this quote.
    Quoted(Quote),
    /// The operation ended with this session, as the service lists it.
    Parked(ParkingSession),
    /// The operation ended with this failure.
    Fail(EngineError),
}

/// What a [`PipelineAction`] says.
pub enum ActionView {
    Send(RequestView),
    Book { continuation: Option<Continuation>, request: RequestView },
    Quoted(Quote),
    Parked(ParkingSession),
    Fail(EngineError),
}

impl View for PipelineAction {
    type V = ActionView;

    open spec fn view(&self) -> ActionView {
        match self {
            PipelineAction::Send(call) => ActionView::Send(call@),
            PipelineAction::Book { continuation, request } => ActionView::Book {
                continuation: *continuation,
                request: request@,
            },
            PipelineAction::Quoted(quote) => ActionView::Quoted(*quote),
            PipelineAction::Parked(session) => ActionView::Parked(*session),
            PipelineAction::Fail(error) => ActionView::Fail(*error),
        }
    }
}

impl ActionView {
    /// Whether the action makes a call to the service.
    pub open spec fn calls(self) -> bool {
        self is Send || self is Book
    }
}

/// Whether `session` is for the vehicle `plate`.
pub open spec fn is_for(session: ParkingSession, plate: Seq<char>) -> bool {
    session.vehicle.license_plate@ == plate
}

/// The place of the first session for `plate` at or after `from`.
pub open spec fn first_for(sessions: Seq<ParkingSession>, plate: Seq<char>, from: int) -> Option<
    int,
>
    decreases sessions.len() - from,
{
    if from < 0 || from >= sessions.len() {
        None
    } else if is_for(sessions[from], plate) {
        Some(from)
    } else {
        first_for(sessions, plate, from + 1)
    }
}

/// The place of the first session for `plate`.
pub open spec fn first_session(sessions: Seq<ParkingSession>, plate: Seq<char>) -> Option<int> {
    first_for(sessions, plate, 0)
}

/// The session of the vehicle `plate` among `sessions`, or that there is
/// none.
pub open spec fn session_of(sessions: Seq<ParkingSession>, plate: Seq<char>) -> Result<
    ParkingSession,
    EngineError,
> {
    match first_session(sessions, plate) {
        Some(place) => Ok(sessions[place]),
        None => Err(EngineError::NoActiveSession),
    }
}

/// The step taken on the rate options: the first one offered is taken, and
/// `minutes` minutes are quoted under it; `state` is where to wait for the
/// quote.
pub open spec fn on_rate_options(
    engine: EngineView,
    options: Seq<ParkingOption>,
    minutes: int,
    state: PipelineState,
) -> (PipelineState, ActionView) {
    if options.len() == 0 {
        (PipelineState::Finished, ActionView::Fail(EngineError::Parse(ParseError::NoRateOption)))
    } else {
        (state, ActionView::Send(quote_request(engine, minutes, options[0].rate_option_id@)))
    }
}

/// The step taken on the probe quote when parking for `requested` minutes
/// under `rate`: the renewal is planned from the quote's window, and the
/// quote is booked for the probe's minutes.
pub open spec fn on_probe_quote(engine: EngineView, quote: Quote, requested: int, rate: Seq<char>) -> (
    PipelineState,
    ActionView,
) {
    if schedulable(quote.parking_start_time, quote.parking_expiry_time, requested) {
        (
            PipelineState::Booking,
            ActionView::Book {
                continuation: continuation_of(
                    quote.parking_start_time,
                    quote.parking_expiry_time,
                    requested,
                ),
                request: booking_request(
                    engine,
                    quote.parking_start_time,
                    quote.quote_id@,
                    PROBE_MINUTES as int,
                    rate,
                ),
            },
        )
    } else {
        (PipelineState::Finished, ActionView::Fail(EngineError::Parse(ParseError::OutOfRange)))
    }
}

/// The step taken on the answer to a booking: only "accepted" counts, and
/// then the current sessions are fetched to see the session made.
pub open spec fn on_booked(engine: EngineView, status: u16, body: String) -> (
    PipelineState,
    ActionView,
) {
    if status == ACCEPTED {
        (PipelineState::Sessions, ActionView::Send(sessions_request(engine)))
    } else {
        (
            PipelineState::Finished,
            ActionView::Fail(EngineError::Booking(BookingError::RejectedByService(body))),
        )
    }
}

/// The step taken on the list of current sessions.
pub open spec fn on_sessions(engine: EngineView, sessions: Seq<ParkingSession>) -> (
    PipelineState,
    ActionView,
) {
    match session_of(sessions, engine.plate) {
        Ok(session) => (PipelineState::Finished, ActionView::Parked(session)),
        Err(error) => (PipelineState::Finished, ActionView::Fail(error)),
    }
}

/// The step of an operation: where it stands after `event`, and what to do.
/// A failure ends it with that failure; an answer that the state does not
/// wait for ends it too.
pub open spec fn transition(engine: EngineView, state: PipelineState, event: PipelineEvent) -> (
    PipelineState,
    ActionView,
) {
    match event {
        PipelineEvent::Failed(error) => (PipelineState::Finished, ActionView::Fail(error)),
        PipelineEvent::RateOptions(options) => match state {
            PipelineState::ParkRates { requested } => on_rate_options(
                engine,
                options@,
                PROBE_MINUTES as int,
                PipelineState::ParkQuote { requested, rate: options@[0].rate_option_id },
            ),
            PipelineState::QuoteRates { minutes } => on_rate_options(
                engine,
                options@,
                minutes as int,
                PipelineState::QuoteOnly,
            ),
            _ => unexpected(),
        },
        PipelineEvent::Quote(quote) => match state {
            PipelineState::ParkQuote { requested, rate } => on_probe_quote(
                engine,
                quote,
                requested as int,
                rate@,
            ),
            PipelineState::QuoteOnly => (PipelineState::Finished, ActionView::Quoted(quote)),
            _ => unexpected(),
        },
        PipelineEvent::Booked { status, body } => match state {
            PipelineState::Booking => on_booked(engine, status, body),
            _ => unexpected(),
        },
        PipelineEvent::Sessions(sessions) => match state {
            PipelineState::Sessions => on_sessions(engine, sessions@),
            _ => unexpected(),
        },
    }
}

/// The end of an operation that was handed an answer out of turn.
pub open spec fn unexpected() -> (PipelineState, ActionView) {
    (PipelineState::Finished, ActionView::Fail(EngineError::Parse(ParseError::Unexpected)))
}

/// The session of the vehicle `plate` among `sessions`: the first one listed
/// for it.
pub fn active_session(sessions: Vec<ParkingSession>, plate: &String) -> (found: Result<
    ParkingSession,
    EngineError,
>)
    ensures
        found == session_of(sessions@, plate@),
{
    let mut listed = sessions;
    let mut place: usize = 0;
    while place < listed.len()
        invariant
            listed@ == sessions@,
            place <= listed.len(),
            first_session(sessions@, plate@) == first_for(sessions@, plate@, place as int),
        decreases listed.len() - place,
    {
        if listed[place].vehicle.license_plate == *plate {
            assert(is_for(sessions@[place as int], plate@));
            return Ok(listed.remove(place));
        }
        assert(!is_for(sessions@[place as int], plate@));
        place = place + 1;
    }
    Err(EngineError::NoActiveSession)
}

impl PayByPhone {
    /// Starts parking the vehicle for `requested` minutes.
    pub fn park(&self, requested: i64) -> (start: (PipelineState, Request))
        requires
            self@.ready(),
        ensures
            start.0 == (PipelineState::ParkRates { requested }),
            start.1@ == rate_options_request(self@),
    {
        (PipelineState::ParkRates { requested }, self.get_rate_option())
    }

    /// Starts asking what `minutes` minutes would cost.
    pub fn quote(&self, minutes: i64) -> (start: (PipelineState, Request))
        requires
            self@.ready(),
        ensures
            start.0 == (PipelineState::QuoteRates { minutes }),
            start.1@ == rate_options_request(self@),
    {
        (PipelineState::QuoteRates { minutes }, self.get_rate_option())
    }

    /// Starts looking for the vehicle's current session.
    pub fn check(&self) -> (start: (PipelineState, Request))
        requires
            self@.ready(),
        ensures
            start.0 == PipelineState::Sessions,
            start.1@ == sessions_request(self@),
    {
        (PipelineState::Sessions, self.get_parking_session())
    }

    /// Takes the answer `event` in the state `state`.
    pub fn step(&self, state: PipelineState, event: PipelineEvent) -> (next: (
        PipelineState,
        PipelineAction,
    ))
        requires
            self@.ready(),
        ensures
            (next.0, next.1@) == transition(self@, state, event),
    {
        match event {
            PipelineEvent::Failed(error) => (PipelineState::Finished, PipelineAction::Fail(error)),
            PipelineEvent::RateOptions(options) => {
                let mut options = options;
                match state {
                    PipelineState::ParkRates { requested } => {
                        if options.len() == 0 {
                            no_rate_option()
                        } else {
                            let rate = options.remove(0).rate_option_id;
                            let call = self.get_quote(PROBE_MINUTES, rate.as_str());
                            (
                                PipelineState::ParkQuote { requested, rate },
                                PipelineAction::Send(call),
                            )
                        }
                    },
                    PipelineState::QuoteRates { minutes } => {
                        if options.len() == 0 {
                            no_rate_option()
                        } else {
                            let call = self.get_quote(minutes, options[0].rate_option_id.as_str());
                            (PipelineState::QuoteOnly, PipelineAction::Send(call))
                        }
                    },
                    _ => out_of_turn(),
                }
            },
            PipelineEvent::Quote(quote) => match state {
                PipelineState::ParkQuote { requested, rate } => {
                    let start = quote.parking_start_time;
                    let expiry = quote.parking_expiry_time;
                    if is_schedulable(start, expiry, requested) {
                        let continuation = Continuation::plan(start, expiry, requested);
                        let request = self.post_quote(quote, PROBE_MINUTES, rate.as_str());
                        (PipelineState::Booking, PipelineAction::Book { continuation, request })
                    } else {
                        (
                            PipelineState::Finished,
                            PipelineAction::Fail(EngineError::Parse(ParseError::OutOfRange)),
                        )
                    }
                },
                PipelineState::QuoteOnly => (PipelineState::Finished, PipelineAction::Quoted(quote)),
                _ => out_of_turn(),
            },
            PipelineEvent::Booked { status, body } => match state {
                PipelineState::Booking => {
                    if status == ACCEPTED {
                        (
                            PipelineState::Sessions,
                            PipelineAction::Send(self.get_parking_session()),
                        )
                    } else {
                        (
                            PipelineState::Finished,
                            PipelineAction::Fail(
                                EngineError::Booking(BookingError::RejectedByService(body)),
                            ),
                        )
                    }
                },
                _ => out_of_turn(),
            },
            PipelineEvent::Sessions(sessions) => match state {
                PipelineState::Sessions => match active_session(sessions, self.plate()) {
                    Ok(session) => (PipelineState::Finished, PipelineAction::Parked(session)),
                    Err(error) => (PipelineState::Finished, PipelineAction::Fail(error)),
                },
                _ => out_of_turn(),
            },
        }
    }
}

/// Ends an operation that was offered no rate option.
fn no_rate_option() -> (end: (PipelineState, PipelineAction))
    ensures
        end.0 == PipelineState::Finished,
        end.1@ == ActionView::Fail(EngineError::Parse(ParseError::NoRateOption)),
{
    (PipelineState::Finished, PipelineAction::Fail(EngineError::Parse(ParseError::NoRateOption)))
}

/// Ends an operation that was handed an answer out of turn.
fn out_of_turn() -> (end: (PipelineState, PipelineAction))
    ensures
        (end.0, end.1@) == unexpected(),
{
    (PipelineState::Finished, PipelineAction::Fail(EngineError::Parse(ParseError::Unexpected)))
}

/// Where `first_for` finds a session, it is the first for the plate at or
/// after `from`; where it finds none, there is none.
proof fn lemma_first_for(sessions: Seq<ParkingSession>, plate: Seq<char>, from: int)
    requires
        0 <= from,
    ensures
        match first_for(sessions, plate, from) {
            Some(place) => {
                &&& from <= place < sessions.len()
                &&& is_for(sessions[place], plate)
                &&& forall|j: int| from <= j < place ==> !is_for(sessions[j], plate)
            },
            None => forall|j: int| from <= j < sessions.len() ==> !is_for(sessions[j], plate),
        },
    decreases sessions.len() - from,
{
    if from < sessions.len() && !is_for(sessions[from], plate) {
        lemma_first_for(sessions, plate, from + 1);
    }
}

/// Checking finds a session exactly when one is listed for the plate, and
/// then the first such; otherwise it fails for want of an active session.
pub proof fn lemma_session_of(sessions: Seq<ParkingSession>, plate: Seq<char>)
    ensures
        match session_of(sessions, plate) {
            Ok(session) => exists|place: int|
                {
                    &&& 0 <= place < sessions.len()
                    &&& #[trigger] sessions[place] == session
                    &&& is_for(session, plate)
                    &&& forall|j: int| 0 <= j < place ==> !is_for(sessions[j], plate)
                },
            Err(error) => {
                &&& error == EngineError::NoActiveSession
                &&& forall|j: int| 0 <= j < sessions.len() ==> !is_for(sessions[j], plate)
            },
        },
{
    lemma_first_for(sessions, plate, 0);
}

/// Where exactly one session is listed for the plate, checking returns it.
pub proof fn lemma_unique_session(sessions: Seq<ParkingSession>, plate: Seq<char>, place: int)
    requires
        0 <= place < sessions.len(),
        is_for(sessions[place], plate),
        forall|j: int| 0 <= j < sessions.len() && j != place ==> !is_for(sessions[j], plate),
    ensures
        session_of(sessions, plate) == Ok::<ParkingSession, EngineError>(sessions[place]),
{
    lemma_first_for(sessions, plate, 0);
}

/// An operation that has ended stays ended: whatever it is handed, it makes
/// no call and fails.
pub proof fn lemma_finished_stays(engine: EngineView, event: PipelineEvent)
    ensures
        transition(engine, PipelineState::Finished, event).0 == PipelineState::Finished,
        transition(engine, PipelineState::Finished, event).1 is Fail,
{
}

/// A step either makes a call and waits for its answer, or ends the
/// operation: it goes on exactly when it calls.
pub proof fn lemma_calls_or_ends(engine: EngineView, state: PipelineState, event: PipelineEvent)
    ensures
        transition(engine, state, event).1.calls() <==> transition(engine, state, event).0
            != PipelineState::Finished,
{
}

/// A booking is only ever made in answer to the probe quote of a parking
/// operation, and then with the renewal that the quote's window calls for.
pub proof fn lemma_books_on_quote(engine: EngineView, state: PipelineState, event: PipelineEvent)
    requires
        transition(engine, state, event).1 is Book,
    ensures
        state matches PipelineState::ParkQuote { requested, rate } && event matches PipelineEvent::Quote(
            quote,
        ) && transition(engine, state, event).1 == (ActionView::Book {
            continuation: continuation_of(
                quote.parking_start_time,
                quote.parking_expiry_time,
                requested as int,
            ),
            request: booking_request(
                engine,
                quote.parking_start_time,
                quote.quote_id@,
                PROBE_MINUTES as int,
                rate@,
            ),
        }),
{
}

/// Without a rate option there is no booking: an empty list of rate options
/// ends the operation with a failure, whatever its state.
pub proof fn lemma_no_rate_option(
    engine: EngineView,
    state: PipelineState,
    options: Vec<ParkingOption>,
)
    requires
        options@.len() == 0,
    ensures
        transition(engine, state, PipelineEvent::RateOptions(options)).0 == PipelineState::Finished,
        transition(engine, state, PipelineEvent::RateOptions(options)).1 is Fail,
        state is ParkRates || state is QuoteRates ==> transition(
            engine,
            state,
            PipelineEvent::RateOptions(options),
        ).1 == ActionView::Fail(EngineError::Parse(ParseError::NoRateOption)),
{
}

/// A booking that the service answers with anything but "accepted" ends the
/// operation with that answer's body, and the sessions are never looked at.
pub proof fn lemma_rejected_booking(engine: EngineView, status: u16, body: String)
    requires
        status != ACCEPTED,
    ensures
        transition(engine, PipelineState::Booking, PipelineEvent::Booked { status, body })
            == (
            PipelineState::Finished,
            ActionView::Fail(EngineError::Booking(BookingError::RejectedByService(body))),
        ),
{
}

/// No call of an operation goes out unsigned: whatever a step sends carries
/// the headers of the engine's login, its API key and its token among them.
pub proof fn lemma_calls_are_signed(engine: EngineView, state: PipelineState, event: PipelineEvent)
    ensures
        transition(engine, state, event).1 matches ActionView::Send(call) ==> call.headers
            == authenticated_headers(
            engine.api_key->0,
            engine.auth->0.token_type@,
            engine.auth->0.access_token@,
        ),
        transition(engine, state, event).1 matches ActionView::Book { request, .. }
            ==> request.headers == authenticated_headers(
            engine.api_key->0,
            engine.auth->0.token_type@,
            engine.auth->0.access_token@,
        ),
{
}

} // verus!
