//! The adapter of the event relay, as the gateway reaches it.

use vstd::prelude::*;
use vstd::string::*;
use crate::event::EventType;
use crate::switcher::{collection_request, Method, Request, RequestView};

verus! {

pub const EVENTS_URL: &'static str = "/api/events";

/// The adapter of the event relay.
#[derive(Clone, Debug)]
pub struct Events {
    url: String,
}

impl View for Events {
    type V = Seq<char>;

    /// The base address of the relay.
    closed spec fn view(&self) -> Seq<char> {
        self.url@
    }
}

/// The path, below the relay's prefix, that takes the create requests whose
/// events have the given type.
pub open spec fn relay_leaf(t: EventType) -> Seq<char> {
    match t {
        EventType::Movie => "/movie"@,
        EventType::User => "/user"@,
        EventType::Payment => "/payment"@,
    }
}

impl Events {
    pub fn new(url: &str) -> (e: Events)
        ensures
            e@ == url@,
    {
        Events { url: url.to_owned() }
    }

    /// The request on a path below the relay's own prefix.
    fn request(&self, method: Method, leaf: &str) -> (r: Request)
        ensures
            r@ == (RequestView { method, url: self@ + EVENTS_URL@ + leaf@ }),
    {
        let base = String::from_str(self.url.as_str()).concat(EVENTS_URL);
        let r = collection_request(method, base.as_str(), leaf);
        r
    }

    /// The relay's health check.
    pub fn health_events(&self) -> (r: Request)
        ensures
            r@ == (RequestView { method: Method::Get, url: self@ + EVENTS_URL@ + "/health"@ }),
    {
        self.request(Method::Get, "/health")
    }

    /// The request that relays the creation of a movie.
    pub fn create_movie(&self) -> (r: Request)
        ensures
            r@ == (RequestView { method: Method::Post, url: self@ + EVENTS_URL@ + "/movie"@ }),
    {
        self.request(Method::Post, "/movie")
    }

    /// The request that relays the creation of a user.
    pub fn create_user(&self) -> (r: Request)
        ensures
            r@ == (RequestView { method: Method::Post, url: self@ + EVENTS_URL@ + "/user"@ }),
    {
        self.request(Method::Post, "/user")
    }

    /// The request that relays the creation of a payment.
    pub fn create_payment(&self) -> (r: Request)
        ensures
            r@ == (RequestView { method: Method::Post, url: self@ + EVENTS_URL@ + "/payment"@ }),
    {
        self.request(Method::Post, "/payment")
    }

    /// The request that relays a create request whose event has the given
    /// type.
    pub fn create(&self, t: EventType) -> (r: Request)
        ensures
            r@ == (RequestView { method: Method::Post, url: self@ + EVENTS_URL@ + relay_leaf(t) }),
    {
        match t {
            EventType::Movie => self.create_movie(),
            EventType::User => self.create_user(),
            EventType::Payment => self.create_payment(),
        }
    }
}

} // verus!
