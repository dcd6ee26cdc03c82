//! What the parking service sends and is sent, as plain values.
//!
//! Instants are [`Timestamp`]s; amounts of money are carried as the bits of
//! the IEEE 754 double that the service wrote, since nothing here computes
//! with them.

use vstd::prelude::*;
use crate::time::{OffsetTimestamp, Timestamp};

verus! {

/// The text of an optional string.
pub open spec fn text_of(value: Option<String>) -> Option<Seq<char>> {
    match value {
        Some(text) => Some(text@),
        None => None,
    }
}

/// The pricing policy that a session was booked under.
#[derive(Clone, Debug, PartialEq, Eq)]
pub struct RateOption {
    pub rate_option_id: String,
    pub kind: String,
}

impl RateOption {
    /// Whether every field is empty.
    pub open spec fn is_blank(&self) -> bool {
        self.rate_option_id@ == Seq::<char>::empty() && self.kind@ == Seq::<char>::empty()
    }

    /// A rate option with every field empty.
    pub fn default() -> (blank: RateOption)
        ensures
            blank.is_blank(),
    {
        RateOption { rate_option_id: String::new(), kind: String::new() }
    }
}

/// One priced stretch of a session.
#[derive(Clone, Debug, PartialEq, Eq)]
pub struct Segment {
    pub chargeable_time_unit_type: i32,
    pub chargeable_time_units_parked: i32,
    pub cost_bits: u64,
    pub fees_bits: u64,
    pub free_time_unit_type: i32,
    pub free_time_units_applied: i32,
    pub parking_end: Timestamp,
    pub parking_start: Timestamp,
}

/// What a session costs in all.
#[derive(Clone, Debug, PartialEq, Eq)]
pub struct TotalCost {
    pub amount_bits: u64,
    pub currency: String,
}

impl TotalCost {
    /// Whether this is an amount of zero in no currency.
    pub open spec fn is_blank(&self) -> bool {
        self.amount_bits == 0 && self.currency@ == Seq::<char>::empty()
    }

    /// An amount of zero in no currency.
    pub fn default() -> (blank: TotalCost)
        ensures
            blank.is_blank(),
    {
        TotalCost { amount_bits: 0, currency: String::new() }
    }
}

/// The vehicle of a session, as the service describes it.
#[derive(Clone, Debug, PartialEq, Eq)]
pub struct ParkedVehicle {
    pub country_code: String,
    pub id: i32,
    pub jurisdiction: String,
    pub license_plate: String,
    pub kind: String,
}

impl ParkedVehicle {
    /// Whether every text is empty and the id zero.
    pub open spec fn is_blank(&self) -> bool {
        &&& self.country_code@ == Seq::<char>::empty()
        &&& self.id == 0
        &&& self.jurisdiction@ == Seq::<char>::empty()
        &&& self.license_plate@ == Seq::<char>::empty()
        &&& self.kind@ == Seq::<char>::empty()
    }

    /// A vehicle with every text empty and the id zero.
    pub fn default() -> (blank: ParkedVehicle)
        ensures
            blank.is_blank(),
    {
        ParkedVehicle {
            country_code: String::new(),
            id: 0,
            jurisdiction: String::new(),
            license_plate: String::new(),
            kind: String::new(),
        }
    }
}

/// The service's record of a parking session. Its start and expiry are kept
/// as the service wrote them: RFC 3339 dates and times.
#[derive(Clone, Debug, PartialEq, Eq)]
pub struct ParkingSession {
    pub coupon_applied: Option<String>,
    pub expire_time: String,
    pub fps_applies: bool,
    pub is_extendable: bool,
    pub is_renewable: bool,
    pub is_stoppable: bool,
    pub location_id: String,
    pub max_stay_state: String,
    pub parking_session_id: String,
    pub rate_option: RateOption,
    pub renewable_after: Option<String>,
    pub segments: Vec<Segment>,
    pub stall: Option<String>,
    pub start_time: String,
    pub total_cost: TotalCost,
    pub vehicle: ParkedVehicle,
}

impl ParkingSession {
    /// Whether this is the record of no session: every text empty, every
    /// flag off, nothing optional there, no segment.
    pub open spec fn is_blank(&self) -> bool {
        &&& self.coupon_applied is None
        &&& self.expire_time@ == Seq::<char>::empty()
        &&& !self.fps_applies
        &&& !self.is_extendable
        &&& !self.is_renewable
        &&& !self.is_stoppable
        &&& self.location_id@ == Seq::<char>::empty()
        &&& self.max_stay_state@ == Seq::<char>::empty()
        &&& self.parking_session_id@ == Seq::<char>::empty()
        &&& self.rate_option.is_blank()
        &&& self.renewable_after is None
        &&& self.segments@ == Seq::<Segment>::empty()
        &&& self.stall is None
        &&& self.start_time@ == Seq::<char>::empty()
        &&& self.total_cost.is_blank()
        &&& self.vehicle.is_blank()
    }

    /// The record of no session.
    pub fn default() -> (blank: ParkingSession)
        ensures
            blank.is_blank(),
    {
        ParkingSession {
            coupon_applied: None,
            expire_time: String::new(),
            fps_applies: false,
            is_extendable: false,
            is_renewable: false,
            is_stoppable: false,
            location_id: String::new(),
            max_stay_state: String::new(),
            parking_session_id: String::new(),
            rate_option: RateOption::default(),
            renewable_after: None,
            segments: Vec::new(),
            stall: None,
            start_time: String::new(),
            total_cost: TotalCost::default(),
            vehicle: ParkedVehicle::default(),
        }
    }
}

/// A vehicle registered with the service.
#[derive(Clone, Debug, PartialEq, Eq)]
pub struct Vehicle {
    pub vehicle_id: String,
    pub legacy_vehicle_id: i64,
    pub license_plate: String,
    pub country: String,
    pub jurisdiction: String,
    pub kind: String,
}

/// An amount of money.
#[derive(Clone, Debug, PartialEq, Eq)]
pub struct Cost {
    pub amount_bits: u64,
    pub currency: String,
}

/// A part of a quoted price that is itself part of a larger item.
#[derive(Clone, Debug, PartialEq, Eq)]
pub struct SubQuoteItem {
    pub quote_item_type: String,
    pub name: String,
    pub cost_amount: Cost,
}

/// One item of a quoted price.
#[derive(Clone, Debug, PartialEq, Eq)]
pub struct QuoteItem {
    pub quote_item_type: String,
    pub name: String,
    pub cost_amount: Cost,
    pub sub_quote_items: Option<Vec<SubQuoteItem>>,
}

/// The profile a quote or rate option was made under.
#[derive(Clone, Debug, PartialEq, Eq)]
pub struct Profile {
    pub profile_name: String,
    pub icon: Option<String>,
    pub user_messages: Option<String>,
}

/// A proposed booking: what parking from `parking_start_time` until
/// `parking_expiry_time` would cost.
#[derive(Clone, Debug, PartialEq, Eq)]
pub struct Quote {
    pub location_id: String,
    pub stall: Option<String>,
    pub quote_date: Timestamp,
    pub total_cost: Cost,
    pub parking_account_id: String,
    pub parking_start_time: Timestamp,
    pub parking_expiry_time: Timestamp,
    pub parking_duration_adjustment: String,
    pub license_plate: String,
    pub quote_items: Vec<QuoteItem>,
    pub quote_id: String,
    pub promotion_applied: Option<String>,
    pub profile: Profile,
}

/// A length of time in the service's units.
#[derive(Clone, Debug, PartialEq, Eq)]
pub struct Duration {
    pub quantity: i64,
    pub time_unit: String,
}

/// What a [`Duration`] says.
pub struct DurationView {
    pub quantity: int,
    pub time_unit: Seq<char>,
}

impl View for Duration {
    type V = DurationView;

    open spec fn view(&self) -> DurationView {
        DurationView { quantity: self.quantity as int, time_unit: self.time_unit@ }
    }
}

/// A stretch of the day with its own longest stay.
#[derive(Clone, Debug, PartialEq, Eq)]
pub struct RestrictionPeriod {
    pub start_time: OffsetTimestamp,
    pub end_time: OffsetTimestamp,
    pub max_stay: Duration,
}

/// How long one may still park, counted in one unit.
#[derive(Clone, Debug, PartialEq, Eq)]
pub struct TimeUnitRestriction {
    pub duration: Duration,
    pub end_time: OffsetTimestamp,
}

/// How long one may still park, in minutes and in hours.
#[derive(Clone, Debug, PartialEq, Eq)]
pub struct AvailableTimeUnitsWithRestrictions {
    pub minutes: TimeUnitRestriction,
    pub hours: TimeUnitRestriction,
}

/// Whether and when a session under a rate option can be renewed.
#[derive(Clone, Debug, PartialEq, Eq)]
pub struct RenewalParking {
    pub is_allowed: bool,
    pub window: Option<String>,
}

/// A pricing policy on offer for a vehicle at a location.
#[derive(Clone, Debug, PartialEq, Eq)]
pub struct ParkingOption {
    pub name: String,
    pub kind: String,
    pub rate_option_id: String,
    pub effective_max_stay_duration: Duration,
    pub max_stay_status: String,
    pub policy_type: String,
    pub max_stay_end_time: OffsetTimestamp,
    pub accepted_time_units: Vec<String>,
    pub restriction_periods: Vec<RestrictionPeriod>,
    pub available_time_units_with_restrictions: AvailableTimeUnitsWithRestrictions,
    pub time_steps: Option<String>,
    pub is_default: bool,
    pub is_preferred: bool,
    pub license_plate: String,
    pub areas: Vec<String>,
    pub fps: Option<String>,
    pub available_promotions: Vec<String>,
    pub renewal_parking: RenewalParking,
    pub eligibility_end_date: Option<String>,
    pub profile: Profile,
}

/// What pays for a booking.
#[derive(Clone, Debug, PartialEq, Eq)]
pub struct PaymentPayload {
    pub payment_account_id: String,
    pub cvv: Option<String>,
}

/// What a [`PaymentPayload`] says.
pub struct PaymentPayloadView {
    pub payment_account_id: Seq<char>,
    pub cvv: Option<Seq<char>>,
}

impl View for PaymentPayload {
    type V = PaymentPayloadView;

    open spec fn view(&self) -> PaymentPayloadView {
        PaymentPayloadView {
            payment_account_id: self.payment_account_id@,
            cvv: text_of(self.cvv),
        }
    }
}

/// How a booking is paid.
#[derive(Clone, Debug, PartialEq, Eq)]
pub struct PaymentMethod {
    pub payment_method_type: String,
    pub payload: PaymentPayload,
}

/// What a [`PaymentMethod`] says.
pub struct PaymentMethodView {
    pub payment_method_type: Seq<char>,
    pub payload: PaymentPayloadView,
}

impl View for PaymentMethod {
    type V = PaymentMethodView;

    open spec fn view(&self) -> PaymentMethodView {
        PaymentMethodView {
            payment_method_type: self.payment_method_type@,
            payload: self.payload@,
        }
    }
}

/// The body that books a quote.
#[derive(Clone, Debug, PartialEq, Eq)]
pub struct PostQuote {
    pub license_plate: String,
    pub location_id: String,
    pub stall: Option<String>,
    pub rate_option_id: String,
    pub start_time: Timestamp,
    pub quote_id: String,
    pub duration: Duration,
    pub payment_method: PaymentMethod,
}

/// What a [`PostQuote`] says.
pub struct PostQuoteView {
    pub license_plate: Seq<char>,
    pub location_id: Seq<char>,
    pub stall: Option<Seq<char>>,
    pub rate_option_id: Seq<char>,
    pub start_time: Timestamp,
    pub quote_id: Seq<char>,
    pub duration: DurationView,
    pub payment_method: PaymentMethodView,
}

impl View for PostQuote {
    type V = PostQuoteView;

    open spec fn view(&self) -> PostQuoteView {
        PostQuoteView {
            license_plate: self.license_plate@,
            location_id: self.location_id@,
            stall: text_of(self.stall),
            rate_option_id: self.rate_option_id@,
            start_time: self.start_time,
            quote_id: self.quote_id@,
            duration: self.duration@,
            payment_method: self.payment_method@,
        }
    }
}

/// The query that asks for a quote.
#[derive(Clone, Debug, PartialEq, Eq)]
pub struct GetQuote {
    pub license_plate: String,
    pub location_id: String,
    pub rate_option_id: String,
    pub duration_quantity: i64,
    pub duration_time_unit: String,
}

/// What a [`GetQuote`] says.
pub struct GetQuoteView {
    pub license_plate: Seq<char>,
    pub location_id: Seq<char>,
    pub rate_option_id: Seq<char>,
    pub duration_quantity: int,
    pub duration_time_unit: Seq<char>,
}

impl View for GetQuote {
    type V = GetQuoteView;

    open spec fn view(&self) -> GetQuoteView {
        GetQuoteView {
            license_plate: self.license_plate@,
            location_id: self.location_id@,
            rate_option_id: self.rate_option_id@,
            duration_quantity: self.duration_quantity as int,
            duration_time_unit: self.duration_time_unit@,
        }
    }
}

/// The query that asks which rate options a vehicle has.
#[derive(Clone, Debug, PartialEq, Eq)]
pub struct GetRateOptions {
    pub parking_account_id: String,
    pub license_plate: String,
}

/// What a [`GetRateOptions`] says.
pub struct GetRateOptionsView {
    pub parking_account_id: Seq<char>,
    pub license_plate: Seq<char>,
}

impl View for GetRateOptions {
    type V = GetRateOptionsView;

    open spec fn view(&self) -> GetRateOptionsView {
        GetRateOptionsView {
            parking_account_id: self.parking_account_id@,
            license_plate: self.license_plate@,
        }
    }
}

/// The query that lists sessions of one period.
#[derive(Clone, Debug, PartialEq, Eq)]
pub struct GetParkingSession {
    pub period_type: String,
}

/// What a [`GetParkingSession`] says.
pub struct GetParkingSessionView {
    pub period_type: Seq<char>,
}

impl View for GetParkingSession {
    type V = GetParkingSessionView;

    open spec fn view(&self) -> GetParkingSessionView {
        GetParkingSessionView { period_type: self.period_type@ }
    }
}

/// The token that the service hands out for a login.
#[derive(Clone, Debug, PartialEq, Eq)]
pub struct Auth {
    pub token_type: String,
    pub access_token: String,
    pub expires_in: i32,
    pub refresh_token: String,
    pub scope: String,
}

/// An account with the service.
#[derive(Clone, Debug, PartialEq, Eq)]
pub struct Account {
    pub id: String,
}

} // verus!
