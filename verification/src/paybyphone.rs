//! The engine for one vehicle: its login, what it has learned from the
//! service, and the calls it makes.

use vstd::prelude::*;
use vstd::string::StringExecFns;
use crate::error::{BootstrapError, EngineError};
use crate::outside::{capture, regex_capture};
use crate::text::{decimal, decimal_text};
use crate::time::Timestamp;
use crate::transport::{
    authenticated_header_list, authenticated_headers, header, pairs, params_view, place, placed,
    token_header_list, token_headers, Header, Method, Params, ParamsView, Payload, PayloadView,
    Request, RequestView,
};
use crate::types::{
    Account, Auth, Duration, DurationView, GetParkingSession, GetParkingSessionView, GetQuote,
    GetQuoteView, GetRateOptions, GetRateOptionsView, PaymentMethod, PaymentMethodView,
    PaymentPayload, PaymentPayloadView, PostQuote, PostQuoteView, Quote,
};

verus! {

/// The public script of the service's web application, which holds its API
/// key.
pub const SCRIPT_URL: &'static str = "https://m2.paybyphone.fr/static/js/main.0aec44c0.chunk.js";

/// Where a login is exchanged for a token.
pub const TOKEN_URL: &'static str = "https://auth.paybyphoneapis.com/token";

/// Where the accounts of a login are listed.
pub const ACCOUNTS_URL: &'static str = "https://consumer.paybyphoneapis.com/parking/accounts";

/// Where the vehicles of a login are listed.
pub const VEHICLES_URL: &'static str =
    "https://consumer.paybyphoneapis.com/identity/profileservice/v1/members/vehicles/paybyphone";

/// The regular expression whose first group is the API key in the script.
pub const API_KEY_PATTERN: &'static str = r#"paymentService:\{[^}]*apiKey:"(.*?)""#;

/// What an engine holds.
pub struct EngineView {
    pub plate: Seq<char>,
    pub lot: int,
    pub login: Seq<char>,
    pub password: Seq<char>,
    pub payment_account_id: Seq<char>,
    pub api_key: Option<Seq<char>>,
    pub auth: Option<Auth>,
    pub account_id: Option<Seq<char>>,
}

impl EngineView {
    /// Whether calls can be signed: the API key and a token are there.
    pub open spec fn authenticated(self) -> bool {
        self.api_key is Some && self.auth is Some
    }

    /// Whether the engine can work: calls can be signed and the account is
    /// known.
    pub open spec fn ready(self) -> bool {
        self.authenticated() && self.account_id is Some
    }

    /// Whether this engine holds the same login as `other`: plate, lot, login,
    /// password and payment account.
    pub open spec fn same_credentials(self, other: EngineView) -> bool {
        &&& self.plate == other.plate
        &&& self.lot == other.lot
        &&& self.login == other.login
        &&& self.password == other.password
        &&& self.payment_account_id == other.payment_account_id
    }
}

/// The engine for one vehicle. Its login never changes; what it learns from
/// the service is filled in by [`PayByPhone::init`].
#[derive(Clone, Debug, PartialEq, Eq)]
pub struct PayByPhone {
    plate: String,
    lot: i32,
    login: String,
    password: String,
    payment_account_id: String,
    api_key: Option<String>,
    auth: Option<Auth>,
    account_id: Option<String>,
}

impl View for PayByPhone {
    type V = EngineView;

    closed spec fn view(&self) -> EngineView {
        EngineView {
            plate: self.plate@,
            lot: self.lot as int,
            login: self.login@,
            password: self.password@,
            payment_account_id: self.payment_account_id@,
            api_key: match self.api_key {
                Some(key) => Some(key@),
                None => None,
            },
            auth: self.auth,
            account_id: match self.account_id {
                Some(id) => Some(id@),
                None => None,
            },
        }
    }
}

/// A signed call: `method` to `url` under the headers of the engine's login,
/// with `params` placed by the method.
pub open spec fn request_of(
    engine: EngineView,
    method: Method,
    url: Seq<char>,
    params: Option<ParamsView>,
) -> RequestView {
    RequestView {
        method,
        url,
        headers: authenticated_headers(
            engine.api_key->0,
            engine.auth->0.token_type@,
            engine.auth->0.access_token@,
        ),
        payload: placed(method, params),
    }
}

/// The call that fetches the script.
pub open spec fn script_request() -> RequestView {
    RequestView {
        method: Method::Get,
        url: SCRIPT_URL@,
        headers: Seq::empty(),
        payload: PayloadView::Empty,
    }
}

/// The call that exchanges the engine's login for a token.
pub open spec fn token_request(engine: EngineView) -> RequestView {
    RequestView {
        method: Method::Post,
        url: TOKEN_URL@,
        headers: token_headers(),
        payload: PayloadView::Form(
            seq![
                ("grant_type"@, "password"@),
                ("username"@, engine.login),
                ("password"@, engine.password),
                ("client_id"@, "paybyphone_webapp"@),
            ],
        ),
    }
}

/// The call that lists the accounts of the login.
pub open spec fn accounts_request(engine: EngineView) -> RequestView {
    request_of(engine, Method::Get, ACCOUNTS_URL@, None)
}

/// The call that lists the vehicles of the login.
pub open spec fn vehicles_request(engine: EngineView) -> RequestView {
    request_of(engine, Method::Get, VEHICLES_URL@, None)
}

/// The call that lists the rate options of the engine's vehicle at its lot.
pub open spec fn rate_options_request(engine: EngineView) -> RequestView {
    request_of(
        engine,
        Method::Get,
        "https://consumer.paybyphoneapis.com/parking/locations/"@ + decimal_text(engine.lot)
            + "/rateOptions"@,
        Some(
            ParamsView::RateOptions(
                GetRateOptionsView {
                    parking_account_id: engine.account_id->0,
                    license_plate: engine.plate,
                },
            ),
        ),
    )
}

/// The call that asks what `minutes` minutes under the rate `rate` would
/// cost.
pub open spec fn quote_request(engine: EngineView, minutes: int, rate: Seq<char>) -> RequestView {
    request_of(
        engine,
        Method::Get,
        "https://consumer.paybyphoneapis.com/parking/accounts/"@ + engine.account_id->0 + "/quote"@,
        Some(
            ParamsView::Quote(
                GetQuoteView {
                    license_plate: engine.plate,
                    location_id: decimal_text(engine.lot),
                    rate_option_id: rate,
                    duration_quantity: minutes,
                    duration_time_unit: "Minutes"@,
                },
            ),
        ),
    )
}

/// The call that books the quote `quote_id`, which starts at `start`, for
/// `minutes` minutes under the rate `rate`, paid from the engine's payment
/// account without a card code.
pub open spec fn booking_request(
    engine: EngineView,
    start: Timestamp,
    quote_id: Seq<char>,
    minutes: int,
    rate: Seq<char>,
) -> RequestView {
    request_of(
        engine,
        Method::Post,
        "https://consumer.paybyphoneapis.com/parking/accounts/"@ + engine.account_id->0
            + "/sessions/"@,
        Some(
            ParamsView::Booking(
                PostQuoteView {
                    license_plate: engine.plate,
                    location_id: decimal_text(engine.lot),
                    stall: None,
                    rate_option_id: rate,
                    start_time: start,
                    quote_id,
                    duration: DurationView { quantity: minutes, time_unit: "Minutes"@ },
                    payment_method: PaymentMethodView {
                        payment_method_type: "PaymentAccount"@,
                        payload: PaymentPayloadView {
                            payment_account_id: engine.payment_account_id,
                            cvv: None,
                        },
                    },
                },
            ),
        ),
    )
}

/// The call that lists the current sessions of the account.
pub open spec fn sessions_request(engine: EngineView) -> RequestView {
    request_of(
        engine,
        Method::Get,
        "https://consumer.paybyphoneapis.com/parking/accounts/"@ + engine.account_id->0
            + "/sessions"@,
        Some(ParamsView::Sessions(GetParkingSessionView { period_type: "Current"@ })),
    )
}

impl PayByPhone {
    /// An engine for the vehicle `plate` at lot `lot`, which has yet to learn
    /// anything from the service.
    pub fn new(
        plate: String,
        lot: i32,
        login: String,
        password: String,
        payment_account_id: String,
    ) -> (engine: PayByPhone)
        ensures
            engine@ == (EngineView {
                plate: plate@,
                lot: lot as int,
                login: login@,
                password: password@,
                payment_account_id: payment_account_id@,
                api_key: None,
                auth: None,
                account_id: None,
            }),
    {
        PayByPhone {
            plate,
            lot,
            login,
            password,
            payment_account_id,
            api_key: None,
            auth: None,
            account_id: None,
        }
    }

    /// The plate of the engine's vehicle.
    pub fn plate(&self) -> (plate: &String)
        ensures
            plate@ == self@.plate,
    {
        &self.plate
    }

    /// The lot that the engine parks at.
    pub fn lot(&self) -> (lot: i32)
        ensures
            lot == self@.lot,
    {
        self.lot
    }

    /// The API key, once it is known.
    pub fn api_key(&self) -> (key: &Option<String>)
        ensures
            crate::types::text_of(*key) == self@.api_key,
    {
        &self.api_key
    }

    /// The token, once there is one.
    pub fn auth(&self) -> (auth: &Option<Auth>)
        ensures
            *auth == self@.auth,
    {
        &self.auth
    }

    /// The account with the service, once it is known.
    pub fn account_id(&self) -> (id: &Option<String>)
        ensures
            crate::types::text_of(*id) == self@.account_id,
    {
        &self.account_id
    }

    /// Whether calls can be signed.
    pub fn is_authenticated(&self) -> (yes: bool)
        ensures
            yes == self@.authenticated(),
    {
        self.api_key.is_some() && self.auth.is_some()
    }

    /// Whether the engine can work.
    pub fn is_ready(&self) -> (yes: bool)
        ensures
            yes == self@.ready(),
    {
        self.api_key.is_some() && self.auth.is_some() && self.account_id.is_some()
    }

    /// A signed call: `method` to `url`, with `params` in the query of a
    /// `GET` and in the body of a `POST`.
    pub fn request(&self, method: Method, url: &str, params: Option<Params>) -> (call: Request)
        requires
            self@.authenticated(),
        ensures
            call@ == request_of(self@, method, url@, params_view(params)),
    {
        let key = match &self.api_key {
            Some(key) => key.as_str(),
            None => "",
        };
        let (token_type, access_token) = match &self.auth {
            Some(auth) => (auth.token_type.as_str(), auth.access_token.as_str()),
            None => ("", ""),
        };
        let headers = authenticated_header_list(key, token_type, access_token);
        Request { method, url: String::from_str(url), headers, payload: place(method, params) }
    }

    /// The call that fetches the script holding the API key. It carries no
    /// header of its own.
    pub fn get_script() -> (call: Request)
        ensures
            call@ == script_request(),
    {
        let headers: Vec<Header> = Vec::new();
        assert(pairs(headers@) =~= Seq::empty());
        Request {
            method: Method::Get,
            url: String::from_str(SCRIPT_URL),
            headers,
            payload: Payload::Empty,
        }
    }

    /// The call that exchanges the login for a token: a form with the
    /// password grant.
    pub fn get_token(&self) -> (call: Request)
        ensures
            call@ == token_request(self@),
    {
        let mut fields: Vec<Header> = Vec::new();
        fields.push(header("grant_type", "password"));
        fields.push(header("username", self.login.as_str()));
        fields.push(header("password", self.password.as_str()));
        fields.push(header("client_id", "paybyphone_webapp"));
        assert(pairs(fields@) =~= seq![
            ("grant_type"@, "password"@),
            ("username"@, self@.login),
            ("password"@, self@.password),
            ("client_id"@, "paybyphone_webapp"@),
        ]);
        Request {
            method: Method::Post,
            url: String::from_str(TOKEN_URL),
            headers: token_header_list(),
            payload: Payload::Form(fields),
        }
    }

    /// The call that lists the accounts of the login.
    pub fn get_accounts(&self) -> (call: Request)
        requires
            self@.authenticated(),
        ensures
            call@ == accounts_request(self@),
    {
        self.request(Method::Get, ACCOUNTS_URL, None)
    }

    /// The call that lists the vehicles of the login.
    pub fn get_vehicles(&self) -> (call: Request)
        requires
            self@.authenticated(),
        ensures
            call@ == vehicles_request(self@),
    {
        self.request(Method::Get, VEHICLES_URL, None)
    }

    /// The account's path under the service's parking interface, with
    /// `tail` behind it.
    fn account_url(&self, tail: &str) -> (url: String)
        requires
            self@.ready(),
        ensures
            url@ == "https://consumer.paybyphoneapis.com/parking/accounts/"@ + self@.account_id->0
                + tail@,
    {
        let mut url = String::from_str("https://consumer.paybyphoneapis.com/parking/accounts/");
        match &self.account_id {
            Some(id) => url.append(id.as_str()),
            None => {},
        }
        url.append(tail);
        url
    }

    /// The call that lists the rate options of the vehicle at its lot.
    pub fn get_rate_option(&self) -> (call: Request)
        requires
            self@.ready(),
        ensures
            call@ == rate_options_request(self@),
    {
        let mut url = String::from_str("https://consumer.paybyphoneapis.com/parking/locations/");
        url.append(decimal(self.lot).as_str());
        url.append("/rateOptions");
        let account = match &self.account_id {
            Some(id) => id.clone(),
            None => String::new(),
        };
        let params = Params::RateOptions(
            GetRateOptions { parking_account_id: account, license_plate: self.plate.clone() },
        );
        self.request(Method::Get, url.as_str(), Some(params))
    }

    /// The call that asks what `duration` minutes under the rate `rate`
    /// would cost.
    pub fn get_quote(&self, duration: i64, rate: &str) -> (call: Request)
        requires
            self@.ready(),
        ensures
            call@ == quote_request(self@, duration as int, rate@),
    {
        let url = self.account_url("/quote");
        let params = Params::Quote(
            GetQuote {
                license_plate: self.plate.clone(),
                location_id: decimal(self.lot),
                rate_option_id: String::from_str(rate),
                duration_quantity: duration,
                duration_time_unit: String::from_str("Minutes"),
            },
        );
        self.request(Method::Get, url.as_str(), Some(params))
    }

    /// The call that books `quote` for `duration` minutes under the rate
    /// `rate`, paid from the payment account.
    pub fn post_quote(&self, quote: Quote, duration: i64, rate: &str) -> (call: Request)
        requires
            self@.ready(),
        ensures
            call@ == booking_request(
                self@,
                quote.parking_start_time,
                quote.quote_id@,
                duration as int,
                rate@,
            ),
    {
        let url = self.account_url("/sessions/");
        let params = Params::Booking(
            PostQuote {
                license_plate: self.plate.clone(),
                location_id: decimal(self.lot),
                stall: None,
                rate_option_id: String::from_str(rate),
                start_time: quote.parking_start_time,
                quote_id: quote.quote_id,
                duration: Duration { quantity: duration, time_unit: String::from_str("Minutes") },
                payment_method: PaymentMethod {
                    payment_method_type: String::from_str("PaymentAccount"),
                    payload: PaymentPayload {
                        payment_account_id: self.payment_account_id.clone(),
                        cvv: None,
                    },
                },
            },
        );
        self.request(Method::Post, url.as_str(), Some(params))
    }

    /// The call that lists the current sessions of the account.
    pub fn get_parking_session(&self) -> (call: Request)
        requires
            self@.ready(),
        ensures
            call@ == sessions_request(self@),
    {
        let url = self.account_url("/sessions");
        let params = Params::Sessions(
            GetParkingSession { period_type: String::from_str("Current") },
        );
        self.request(Method::Get, url.as_str(), Some(params))
    }
}

/// What happened since the engine last said what to do while getting ready.
#[derive(Clone, Debug, PartialEq, Eq)]
pub enum InitEvent {
    /// Nothing yet.
    Begin,
    /// The script was fetched; its text.
    Script(String),
    /// The token endpoint answered with this status; what could be read of
    /// its body as a token, if anything.
    Token { status: u16, auth: Option<Auth> },
    /// The accounts of the login were listed.
    Accounts(Vec<Account>),
    /// The call failed, or its answer could not be decoded.
    Failed(EngineError),
}

/// What to do next while getting ready.
#[derive(Clone, Debug, PartialEq, Eq)]
pub enum InitAction {
    /// Make this call and come back with the text of the script.
    FetchScript(Request),
    /// Make this call and come back with the status of the answer and the
    /// token read from it.
    RequestToken(Request),
    /// Make this call and come back with the accounts listed.
    ListAccounts(Request),
    /// Nothing: the engine can work.
    Ready,
    /// Give up.
    Fail(EngineError),
}

/// What an [`InitAction`] says.
pub enum InitActionView {
    FetchScript(RequestView),
    RequestToken(RequestView),
    ListAccounts(RequestView),
    Ready,
    Fail(EngineError),
}

impl View for InitAction {
    type V = InitActionView;

    open spec fn view(&self) -> InitActionView {
        match self {
            InitAction::FetchScript(call) => InitActionView::FetchScript(call@),
            InitAction::RequestToken(call) => InitActionView::RequestToken(call@),
            InitAction::ListAccounts(call) => InitActionView::ListAccounts(call@),
            InitAction::Ready => InitActionView::Ready,
            InitAction::Fail(error) => InitActionView::Fail(*error),
        }
    }
}

/// Whether a status is one of success.
pub open spec fn is_success(status: u16) -> bool {
    200 <= status < 300
}

/// The engine once the API key search of the script has come back with
/// `found`: the key is kept, and its absence is a failure.
pub open spec fn with_api_key(engine: EngineView, found: Option<Seq<char>>) -> Result<
    EngineView,
    EngineError,
> {
    match found {
        Some(key) => Ok(EngineView { api_key: Some(key), ..engine }),
        None => Err(EngineError::Bootstrap(BootstrapError::ApiKeyNotFound)),
    }
}

/// The engine once the token endpoint has answered: the token is kept where
/// the status is one of success and the body could be read.
pub open spec fn with_token(engine: EngineView, status: u16, auth: Option<Auth>) -> Result<
    EngineView,
    EngineError,
> {
    if is_success(status) && auth is Some {
        Ok(EngineView { auth, ..engine })
    } else {
        Err(EngineError::Bootstrap(BootstrapError::AuthRejected))
    }
}

/// The engine once the accounts have been listed: the first one is the
/// engine's, and an empty list is a failure.
pub open spec fn with_accounts(engine: EngineView, accounts: Seq<Account>) -> Result<
    EngineView,
    EngineError,
> {
    if accounts.len() > 0 {
        Ok(EngineView { account_id: Some(accounts[0].id@), ..engine })
    } else {
        Err(EngineError::Bootstrap(BootstrapError::NoAccount))
    }
}

/// The engine after `event`, or why getting ready ends there.
pub open spec fn init_applied(engine: EngineView, event: InitEvent) -> Result<
    EngineView,
    EngineError,
> {
    match event {
        InitEvent::Begin => Ok(engine),
        InitEvent::Script(text) => with_api_key(engine, regex_capture(API_KEY_PATTERN@, text@, 1)),
        InitEvent::Token { status, auth } => with_token(engine, status, auth),
        InitEvent::Accounts(accounts) => with_accounts(engine, accounts@),
        InitEvent::Failed(error) => Err(error),
    }
}

/// What an engine that is getting ready does next: it fetches what it lacks,
/// the API key first, then the token, then the account.
pub open spec fn init_next(engine: EngineView) -> InitActionView {
    if engine.api_key is None {
        InitActionView::FetchScript(script_request())
    } else if engine.auth is None {
        InitActionView::RequestToken(token_request(engine))
    } else if engine.account_id is None {
        InitActionView::ListAccounts(accounts_request(engine))
    } else {
        InitActionView::Ready
    }
}

impl PayByPhone {
    /// Takes what the search for the API key in the script found.
    pub fn accept_api_key(&mut self, found: Option<String>) -> (taken: Result<(), EngineError>)
        ensures
            match with_api_key(old(self)@, crate::types::text_of(found)) {
                Ok(engine) => taken is Ok && final(self)@ == engine,
                Err(error) => taken == Err::<(), EngineError>(error) && final(self)@ == old(self)@,
            },
    {
        match found {
            Some(key) => {
                self.api_key = Some(key);
                Ok(())
            },
            None => Err(EngineError::Bootstrap(BootstrapError::ApiKeyNotFound)),
        }
    }

    /// Takes the answer of the token endpoint.
    pub fn accept_token(&mut self, status: u16, auth: Option<Auth>) -> (taken: Result<
        (),
        EngineError,
    >)
        ensures
            match with_token(old(self)@, status, auth) {
                Ok(engine) => taken is Ok && final(self)@ == engine,
                Err(error) => taken == Err::<(), EngineError>(error) && final(self)@ == old(self)@,
            },
    {
        if status >= 200 && status < 300 && auth.is_some() {
            self.auth = auth;
            Ok(())
        } else {
            Err(EngineError::Bootstrap(BootstrapError::AuthRejected))
        }
    }

    /// Takes the list of the login's accounts.
    pub fn accept_accounts(&mut self, accounts: Vec<Account>) -> (taken: Result<(), EngineError>)
        ensures
            match with_accounts(old(self)@, accounts@) {
                Ok(engine) => taken is Ok && final(self)@ == engine,
                Err(error) => taken == Err::<(), EngineError>(error) && final(self)@ == old(self)@,
            },
    {
        let mut accounts = accounts;
        if accounts.len() > 0 {
            let first = accounts.remove(0);
            self.account_id = Some(first.id);
            Ok(())
        } else {
            Err(EngineError::Bootstrap(BootstrapError::NoAccount))
        }
    }

    /// What the engine does next to get ready.
    pub fn next_init_action(&self) -> (action: InitAction)
        ensures
            action@ == init_next(self@),
    {
        if self.api_key.is_none() {
            InitAction::FetchScript(PayByPhone::get_script())
        } else if self.auth.is_none() {
            InitAction::RequestToken(self.get_token())
        } else if self.account_id.is_none() {
            InitAction::ListAccounts(self.get_accounts())
        } else {
            InitAction::Ready
        }
    }

    /// One step of getting ready. Start with [`InitEvent::Begin`], make the
    /// call that comes back, and return with its answer, until the engine is
    /// ready or gives up. An event that fails leaves the engine as it was.
    pub fn init(&mut self, event: InitEvent) -> (action: InitAction)
        ensures
            match init_applied(old(self)@, event) {
                Ok(engine) => final(self)@ == engine && action@ == init_next(engine),
                Err(error) => final(self)@ == old(self)@ && action@ == InitActionView::Fail(error),
            },
            final(self)@.same_credentials(old(self)@),
    {
        let taken = match event {
            InitEvent::Begin => Ok(()),
            InitEvent::Script(text) => {
                let found = capture(API_KEY_PATTERN, text.as_str(), 1);
                self.accept_api_key(found)
            },
            InitEvent::Token { status, auth } => self.accept_token(status, auth),
            InitEvent::Accounts(accounts) => self.accept_accounts(accounts),
            InitEvent::Failed(error) => Err(error),
        };
        match taken {
            Ok(()) => self.next_init_action(),
            Err(error) => InitAction::Fail(error),
        }
    }
}

/// Getting ready ends exactly when the engine can work: it says `Ready`
/// when, and only when, it holds the API key, a token and the account; and
/// an engine that is ready stays as it is when asked to begin again.
pub proof fn lemma_ready_when_done(engine: EngineView)
    ensures
        init_next(engine) is Ready <==> engine.ready(),
        !(init_next(engine) is Fail),
        engine.ready() ==> init_applied(engine, InitEvent::Begin) == Ok::<EngineView, EngineError>(
            engine,
        ),
{
}

/// Nothing that happens while getting ready touches the login: whatever the
/// event, the engine keeps its plate, lot, login, password and payment
/// account; and a call is signed only once the key and a token are there.
pub proof fn lemma_init_keeps_credentials(engine: EngineView, event: InitEvent)
    ensures
        init_applied(engine, event) matches Ok(after) ==> after.same_credentials(engine),
        init_next(engine) is ListAccounts ==> engine.authenticated(),
{
}

} // verus!
