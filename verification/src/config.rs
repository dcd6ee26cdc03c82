//! The accounts that the service is run for, each with what is kept for its
//! vehicle between renewals.
//!
//! An account is found by its name; where two share a name, the first one
//! listed is meant.

use vstd::prelude::*;
use crate::error::EngineError;
use crate::paybyphone::{EngineView, PayByPhone};
use crate::outside::rfc3339_instant;
use crate::pipeline::{
    session_of, transition, ActionView, PipelineAction, PipelineEvent, PipelineState,
};
use crate::scheduler::{due, instant_of, remaining_minutes, renewal_of, Session};
use crate::time::Timestamp;
use crate::types::ParkingSession;

verus! {

/// The login of an account with the parking service.
#[derive(Clone, Debug, PartialEq, Eq)]
pub struct Credentials {
    pub login: String,
    pub password: String,
    pub payment_account_id: String,
}

/// One account: a vehicle, where it parks, the login that pays, and the
/// renewal kept for it, if a booking was ever made.
#[derive(Clone, Debug, PartialEq, Eq)]
pub struct Config {
    pub name: String,
    pub plate: String,
    pub lot: i32,
    pub pay_by_phone: Credentials,
    pub session: Option<Session>,
}

/// All accounts.
#[derive(Clone, Debug, PartialEq, Eq)]
pub struct Accounts {
    pub accounts: Vec<Config>,
}

impl View for Accounts {
    type V = Seq<Config>;

    open spec fn view(&self) -> Seq<Config> {
        self.accounts@
    }
}

/// The place of the first account named `name` at or after `from`.
pub open spec fn first_named(accounts: Seq<Config>, name: Seq<char>, from: int) -> Option<int>
    decreases accounts.len() - from,
{
    if from < 0 || from >= accounts.len() {
        None
    } else if accounts[from].name@ == name {
        Some(from)
    } else {
        first_named(accounts, name, from + 1)
    }
}

/// The place of the account named `name`.
pub open spec fn account_named(accounts: Seq<Config>, name: Seq<char>) -> Option<int> {
    first_named(accounts, name, 0)
}

/// What is kept for the vehicle of the account `name`: nothing where there
/// is no such account or no booking was made for it yet.
pub open spec fn state_of(accounts: Seq<Config>, name: Seq<char>) -> Option<Session> {
    match account_named(accounts, name) {
        Some(place) => accounts[place].session,
        None => None,
    }
}

/// The account `account` with `state` kept for its vehicle.
pub open spec fn keeping(account: Config, state: Session) -> Config {
    Config { session: Some(state), ..account }
}

/// The accounts with `state` kept for the vehicle of the account `name`;
/// unchanged where there is no such account.
pub open spec fn with_state(accounts: Seq<Config>, name: Seq<char>, state: Session) -> Seq<Config> {
    match account_named(accounts, name) {
        Some(place) => accounts.update(place, keeping(accounts[place], state)),
        None => accounts,
    }
}

/// Whether the sweep renews the vehicle of `account` at `now`.
pub open spec fn account_due(account: Config, now: Timestamp) -> bool {
    account.session matches Some(state) && due(state, now)
}

/// The engine for `account`, before it has learned anything from the
/// service.
pub open spec fn engine_of(account: Config) -> EngineView {
    EngineView {
        plate: account.plate@,
        lot: account.lot as int,
        login: account.pay_by_phone.login@,
        password: account.pay_by_phone.password@,
        payment_account_id: account.pay_by_phone.payment_account_id@,
        api_key: None,
        auth: None,
        account_id: None,
    }
}

/// The accounts after an operation that parked the vehicle of the account
/// `name` for `requested` minutes has ended with `action`: where it ended
/// with a session whose times can be read, the renewal is kept; otherwise
/// nothing changes.
pub open spec fn settled(
    accounts: Seq<Config>,
    name: Seq<char>,
    requested: int,
    action: ActionView,
) -> Seq<Config> {
    match action {
        ActionView::Parked(session) => match renewal_of(
            session.start_time@,
            session.expire_time@,
            requested,
        ) {
            Ok(state) => with_state(accounts, name, state),
            Err(_) => accounts,
        },
        _ => accounts,
    }
}

/// What such an operation's end makes the store keep for the vehicle, if
/// anything.
pub open spec fn kept_by(
    accounts: Seq<Config>,
    name: Seq<char>,
    requested: int,
    action: ActionView,
) -> Option<Session> {
    match action {
        ActionView::Parked(session) => match renewal_of(
            session.start_time@,
            session.expire_time@,
            requested,
        ) {
            Ok(state) => if account_named(accounts, name) is Some {
                Some(state)
            } else {
                None
            },
            Err(_) => None,
        },
        _ => None,
    }
}

impl Accounts {
    /// The place of the account named `name`.
    pub fn find(&self, name: &str) -> (place: Option<usize>)
        ensures
            match place {
                Some(p) => account_named(self@, name@) == Some(p as int) && p < self@.len(),
                None => account_named(self@, name@) is None,
            },
    {
        let wanted = name.to_owned();
        let mut place: usize = 0;
        while place < self.accounts.len()
            invariant
                wanted@ == name@,
                place <= self.accounts.len(),
                account_named(self@, name@) == first_named(self@, name@, place as int),
            decreases self.accounts.len() - place,
        {
            if self.accounts[place].name == wanted {
                return Some(place);
            }
            place = place + 1;
        }
        None
    }

    /// What is kept for the vehicle of the account `name`.
    pub fn get(&self, name: &str) -> (state: Option<Session>)
        ensures
            state == state_of(self@, name@),
    {
        match self.find(name) {
            Some(place) => self.accounts[place].session,
            None => None,
        }
    }

    /// What is kept for the vehicle of the account `name`, telling an
    /// account without a booking, `Ok(None)`, from a name that no account
    /// goes by.
    pub fn check_renew(&self, name: &str) -> (state: Result<Option<Session>, EngineError>)
        ensures
            match account_named(self@, name@) {
                Some(place) => state == Ok::<Option<Session>, EngineError>(self@[place].session),
                None => state == Err::<Option<Session>, EngineError>(EngineError::AccountNotFound),
            },
    {
        match self.find(name) {
            Some(place) => Ok(self.accounts[place].session),
            None => Err(EngineError::AccountNotFound),
        }
    }

    /// What is kept for each account, in the order of the accounts.
    pub fn entries(&self) -> (states: Vec<Option<Session>>)
        ensures
            states@.len() == self@.len(),
            forall|place: int| 0 <= place < self@.len() ==> states@[place] == self@[place].session,
    {
        let mut states: Vec<Option<Session>> = Vec::new();
        let mut place: usize = 0;
        while place < self.accounts.len()
            invariant
                place <= self.accounts.len(),
                states@.len() == place,
                forall|p: int| 0 <= p < place ==> states@[p] == self@[p].session,
            decreases self.accounts.len() - place,
        {
            states.push(self.accounts[place].session);
            place = place + 1;
        }
        states
    }

    /// Keeps `state` for the vehicle of the account `name`; says whether
    /// there is such an account.
    pub fn set(&mut self, name: &str, state: Session) -> (kept: bool)
        ensures
            final(self)@ == with_state(old(self)@, name@, state),
            kept == account_named(old(self)@, name@).is_some(),
    {
        match self.find(name) {
            Some(place) => {
                let mut account = self.accounts.remove(place);
                account.session = Some(state);
                self.accounts.insert(place, account);
                assert(self@ =~= with_state(old(self)@, name@, state));
                true
            },
            None => false,
        }
    }

    /// A fresh engine for the account `name`.
    pub fn engine(&self, name: &str) -> (made: Result<PayByPhone, EngineError>)
        ensures
            match account_named(self@, name@) {
                Some(place) => made matches Ok(engine) && engine@ == engine_of(self@[place]),
                None => made == Err::<PayByPhone, EngineError>(EngineError::AccountNotFound),
            },
    {
        match self.find(name) {
            Some(place) => {
                let account = &self.accounts[place];
                Ok(
                    PayByPhone::new(
                        account.plate.clone(),
                        account.lot,
                        account.pay_by_phone.login.clone(),
                        account.pay_by_phone.password.clone(),
                        account.pay_by_phone.payment_account_id.clone(),
                    ),
                )
            },
            None => Err(EngineError::AccountNotFound),
        }
    }

    /// The places of the accounts whose vehicle the sweep renews at `now`,
    /// in the order of the accounts: those that have a renewal kept whose
    /// check has come and that still have minutes to cover.
    pub fn due(&self, now: Timestamp) -> (places: Vec<usize>)
        ensures
            forall|k: int| 0 <= k < places@.len() ==> places@[k] < self@.len(),
            forall|k: int|
                0 <= k < places@.len() ==> account_due(#[trigger] self@[places@[k] as int], now),
            forall|j: int, k: int| 0 <= j < k < places@.len() ==> places@[j] < places@[k],
            forall|place: int|
                0 <= place < self@.len() && account_due(#[trigger] self@[place], now)
                    ==> places@.contains(place as usize),
    {
        let mut places: Vec<usize> = Vec::new();
        let mut place: usize = 0;
        while place < self.accounts.len()
            invariant
                place <= self.accounts.len(),
                forall|k: int| 0 <= k < places@.len() ==> places@[k] < place,
                forall|k: int|
                    0 <= k < places@.len() ==> account_due(
                        #[trigger] self@[places@[k] as int],
                        now,
                    ),
                forall|j: int, k: int| 0 <= j < k < places@.len() ==> places@[j] < places@[k],
                forall|p: int|
                    0 <= p < place && account_due(#[trigger] self@[p], now) ==> places@.contains(
                        p as usize,
                    ),
            decreases self.accounts.len() - place,
        {
            let is_due = match &self.accounts[place].session {
                Some(state) => state.is_due(now),
                None => false,
            };
            if is_due {
                let ghost before = places@;
                places.push(place);
                assert(places@[before.len() as int] == place);
                assert forall|p: int|
                    0 <= p < place + 1 && account_due(#[trigger] self@[p], now) implies places@.contains(
                    p as usize,
                ) by {
                    if p < place {
                        let k = choose|k: int| 0 <= k < before.len() && before[k] == p as usize;
                        assert(places@[k] == p as usize);
                    }
                }
            }
            place = place + 1;
        }
        places
    }

    /// Takes note of how parking the vehicle of the account `name` for
    /// `requested` minutes ended. Only a session that the service lists
    /// changes what is kept.
    /// Returns what was kept, if anything was.
    pub fn settle(&mut self, name: &str, requested: i64, action: &PipelineAction) -> (kept: Option<
        Session,
    >)
        ensures
            final(self)@ == settled(old(self)@, name@, requested as int, action@),
            kept == kept_by(old(self)@, name@, requested as int, action@),
    {
        match action {
            PipelineAction::Parked(session) => match Session::after(session, requested) {
                Ok(state) => {
                    if self.set(name, state) {
                        Some(state)
                    } else {
                        None
                    }
                },
                Err(_) => None,
            },
            _ => None,
        }
    }
}

/// Where `first_named` finds an account, it is the first of that name at or
/// after `from`; where it finds none, there is none.
proof fn lemma_first_named(accounts: Seq<Config>, name: Seq<char>, from: int)
    requires
        0 <= from,
    ensures
        match first_named(accounts, name, from) {
            Some(place) => {
                &&& from <= place < accounts.len()
                &&& accounts[place].name@ == name
                &&& forall|j: int| from <= j < place ==> accounts[j].name@ != name
            },
            None => forall|j: int| from <= j < accounts.len() ==> accounts[j].name@ != name,
        },
    decreases accounts.len() - from,
{
    if from < accounts.len() && accounts[from].name@ != name {
        lemma_first_named(accounts, name, from + 1);
    }
}

/// Two lists of accounts with the same names in the same places find the
/// same account.
proof fn lemma_same_names(a: Seq<Config>, b: Seq<Config>, name: Seq<char>, from: int)
    requires
        a.len() == b.len(),
        forall|i: int| 0 <= i < a.len() ==> a[i].name == b[i].name,
    ensures
        first_named(a, name, from) == first_named(b, name, from),
    decreases a.len() - from,
{
    if 0 <= from < a.len() && a[from].name@ != name {
        lemma_same_names(a, b, name, from + 1);
    }
}

/// An account is found by its name: the one found is the first so named, and
/// none is found only where no account has the name.
pub proof fn lemma_account_named(accounts: Seq<Config>, name: Seq<char>)
    ensures
        match account_named(accounts, name) {
            Some(place) => {
                &&& 0 <= place < accounts.len()
                &&& accounts[place].name@ == name
                &&& forall|j: int| 0 <= j < place ==> accounts[j].name@ != name
            },
            None => forall|j: int| 0 <= j < accounts.len() ==> accounts[j].name@ != name,
        },
{
    lemma_first_named(accounts, name, 0);
}

/// What is kept for an account is what is read back, and keeping it changes
/// the account in nothing else, nor any other account.
pub proof fn lemma_set_then_get(accounts: Seq<Config>, name: Seq<char>, state: Session)
    requires
        account_named(accounts, name) is Some,
    ensures
        state_of(with_state(accounts, name, state), name) == Some(state),
        with_state(accounts, name, state).len() == accounts.len(),
        forall|i: int|
            0 <= i < accounts.len() && i != account_named(accounts, name)->0 ==> with_state(
                accounts,
                name,
                state,
            )[i] == accounts[i],
        forall|other: Seq<char>|
            other != name ==> #[trigger] state_of(with_state(accounts, name, state), other)
                == state_of(accounts, other),
{
    lemma_account_named(accounts, name);
    let place = account_named(accounts, name)->0;
    let after = with_state(accounts, name, state);
    lemma_same_names(accounts, after, name, 0);
    assert forall|other: Seq<char>| other != name implies #[trigger] state_of(after, other)
        == state_of(accounts, other) by {
        lemma_same_names(accounts, after, other, 0);
        lemma_account_named(accounts, other);
    }
}

/// What is kept for a vehicle is never dropped: however an operation ends,
/// for whichever account, an account that had a renewal kept has one after.
pub proof fn lemma_state_never_dropped(
    accounts: Seq<Config>,
    name: Seq<char>,
    requested: int,
    action: ActionView,
    other: Seq<char>,
)
    requires
        state_of(accounts, other) is Some,
    ensures
        state_of(settled(accounts, name, requested, action), other) is Some,
        settled(accounts, name, requested, action).len() == accounts.len(),
{
    let after = settled(accounts, name, requested, action);
    if after != accounts {
        let session = action->Parked_0;
        let state = renewal_of(session.start_time@, session.expire_time@, requested)->Ok_0;
        assert(after == with_state(accounts, name, state));
        assert(account_named(accounts, name) is Some);
        lemma_set_then_get(accounts, name, state);
    }
}

/// The sweep never renews a vehicle that has no minutes left to cover:
/// whatever the time, an account whose renewal holds none is not due.
pub proof fn lemma_sweep_skips_inert(account: Config, now: Timestamp)
    requires
        account.session matches Some(state) && state.duration <= 0,
    ensures
        !account_due(account, now),
{
}

/// Only a session that the service lists changes what is kept: an operation
/// that ends in a failure, in a quote, or has not ended, leaves every account
/// as it was.
pub proof fn lemma_failure_keeps_state(
    accounts: Seq<Config>,
    name: Seq<char>,
    requested: int,
    action: ActionView,
)
    requires
        !(action is Parked),
    ensures
        settled(accounts, name, requested, action) == accounts,
        kept_by(accounts, name, requested, action) is None,
{
}

/// After a renewal that succeeded, the next check of the vehicle is one
/// minute after the expiry of the session that was booked, and the minutes
/// kept are those that remain of the requested ones.
pub proof fn lemma_renewed_next_check(
    accounts: Seq<Config>,
    name: Seq<char>,
    requested: int,
    session: ParkingSession,
)
    requires
        kept_by(accounts, name, requested, ActionView::Parked(session)) is Some,
    ensures
        rfc3339_instant(session.start_time@) is Some,
        rfc3339_instant(session.expire_time@) is Some,
        state_of(settled(accounts, name, requested, ActionView::Parked(session)), name) == kept_by(
            accounts,
            name,
            requested,
            ActionView::Parked(session),
        ),
        kept_by(accounts, name, requested, ActionView::Parked(session))->0.next_check@
            == instant_of(rfc3339_instant(session.expire_time@)->0)@ + 60_000_000_000,
        kept_by(accounts, name, requested, ActionView::Parked(session))->0.duration
            == remaining_minutes(
            instant_of(rfc3339_instant(session.start_time@)->0),
            instant_of(rfc3339_instant(session.expire_time@)->0),
            requested,
        ),
{
    let state = renewal_of(session.start_time@, session.expire_time@, requested)->Ok_0;
    lemma_set_then_get(accounts, name, state);
}

/// Booking and then checking agree: where parking ends with a session out of
/// the list of current sessions, a check on that list finds the same
/// session, and the renewal kept is computed from the start and the expiry
/// of that very session.
pub proof fn lemma_round_trip(
    engine: EngineView,
    accounts: Seq<Config>,
    name: Seq<char>,
    requested: int,
    sessions: Vec<ParkingSession>,
)
    ensures
        transition(engine, PipelineState::Sessions, PipelineEvent::Sessions(sessions)).1 matches ActionView::Parked(
            session,
        ) ==> {
            &&& session_of(sessions@, engine.plate) == Ok::<
                ParkingSession,
                EngineError,
            >(session)
            &&& kept_by(accounts, name, requested, ActionView::Parked(session)) matches Some(state)
                ==> renewal_of(session.start_time@, session.expire_time@, requested) == Ok::<
                Session,
                EngineError,
            >(state)
        },
{
}

} // verus!
