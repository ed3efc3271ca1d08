//! The catalogue's entities and the requests that create them.
//!
//! An entity is what a backend returned, identifier included. A fractional
//! number (a rating, an amount) is held by the bits of its IEEE 754 form, as
//! `to_bits` gives them.

use vstd::prelude::*;
use crate::clock::{format_rfc3339, text_at, utc_now, Precision, Timestamp};
use crate::event::EventType;

verus! {

/// The answer of a health check.
#[derive(Clone, Copy, Debug, PartialEq, Eq, Structural)]
pub struct ServiceHealth {
    pub status: bool,
}

impl Default for ServiceHealth {
    /// A healthy service.
    fn default() -> (h: ServiceHealth)
        ensures
            h.status,
    {
        ServiceHealth { status: true }
    }
}

#[derive(Clone, Debug, PartialEq, Eq)]
pub struct Movie {
    pub id: i32,
    pub rating_bits: u64,
    pub title: String,
    pub description: String,
    pub genres: Vec<String>,
}

#[derive(Clone, Debug, PartialEq, Eq)]
pub struct CreateMovie {
    pub rating_bits: u64,
    pub title: String,
    pub description: String,
    pub genres: Option<Vec<String>>,
}

#[derive(Clone, Debug, PartialEq, Eq)]
pub struct User {
    pub id: i32,
    pub username: String,
    pub email: String,
}

#[derive(Clone, Debug, PartialEq, Eq)]
pub struct CreateUser {
    pub username: String,
    pub email: String,
}

#[derive(Clone, Debug, PartialEq, Eq)]
pub struct Payment {
    pub id: i32,
    pub user_id: i32,
    pub amount_bits: u32,
    pub timestamp: String,
}

#[derive(Clone, Debug, PartialEq, Eq)]
pub struct CreatePayment {
    pub user_id: i32,
    pub amount_bits: u32,
    pub timestamp: Option<String>,
}

#[derive(Clone, Debug, PartialEq, Eq)]
pub struct Subscription {
    pub id: i32,
    pub user_id: i32,
    pub plan_type: String,
    pub start_date: String,
    pub end_date: String,
}

#[derive(Clone, Debug, PartialEq, Eq)]
pub struct CreateSubscription {
    pub user_id: i32,
    pub plan_type: String,
    pub start_date: String,
    pub end_date: String,
}

/// A create request whose creation is relayed as an event.
pub trait CreateRequest {
    /// The type of the events that relay this kind of request.
    spec fn kind() -> EventType;

    fn event_type(&self) -> (t: EventType)
        ensures
            t == Self::kind(),
    ;
}

impl CreateRequest for CreateMovie {
    open spec fn kind() -> EventType {
        EventType::Movie
    }

    fn event_type(&self) -> (t: EventType) {
        EventType::Movie
    }
}

impl CreateRequest for CreateUser {
    open spec fn kind() -> EventType {
        EventType::User
    }

    fn event_type(&self) -> (t: EventType) {
        EventType::User
    }
}

impl CreateRequest for CreatePayment {
    open spec fn kind() -> EventType {
        EventType::Payment
    }

    fn event_type(&self) -> (t: EventType) {
        EventType::Payment
    }
}

/// The characters of an optional text.
pub open spec fn text_of(text: Option<String>) -> Option<Seq<char>> {
    match text {
        Some(s) => Some(s@),
        None => None,
    }
}

/// The timestamp of a payment that came without one: the current time, in
/// whole seconds. It is never absent.
pub fn default_payment_timestamp() -> (r: Option<String>)
    ensures
        r is Some,
        exists|now: Timestamp| text_of(r) == text_at(now, Precision::Seconds),
{
    let now = utc_now();
    let r = format_rfc3339(now, Precision::Seconds);
    assert(text_of(r) == text_at(now, Precision::Seconds));
    r
}

impl CreatePayment {
    /// The timestamp of the request once it has been handled at `now`: its own
    /// where it brought one, the text of `now` otherwise.
    pub open spec fn timestamp_at(self, now: Timestamp) -> Option<Seq<char>> {
        match self.timestamp {
            Some(own) => Some(own@),
            None => text_at(now, Precision::Seconds),
        }
    }

    /// The request as it is handled at the instant `now`: a request without a
    /// timestamp gets that instant, one with a timestamp keeps its own.
    pub fn stamped(self, now: Timestamp) -> (r: CreatePayment)
        ensures
            r.user_id == self.user_id,
            r.amount_bits == self.amount_bits,
            text_of(r.timestamp) == self.timestamp_at(now),
            self.timestamp is Some ==> r == self,
    {
        match self.timestamp {
            Some(_) => self,
            None => CreatePayment {
                user_id: self.user_id,
                amount_bits: self.amount_bits,
                timestamp: format_rfc3339(now, Precision::Seconds),
            },
        }
    }

    /// The request as it is handled now: the time is that of the handling, not
    /// of the backend that later stores the payment. The request that comes
    /// out has a timestamp, its own or the current one.
    pub fn with_default_timestamp(self) -> (r: CreatePayment)
        ensures
            r.user_id == self.user_id,
            r.amount_bits == self.amount_bits,
            self.timestamp is Some ==> r == self,
            r.timestamp is Some,
            exists|now: Timestamp| text_of(r.timestamp) == self.timestamp_at(now),
    {
        let now = utc_now();
        self.stamped(now)
    }
}

} // verus!
