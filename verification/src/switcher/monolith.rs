//! The legacy backend: one host that serves every kind of resource.

use vstd::prelude::*;
use crate::switcher::{
    collection_request, item_request, APIProvider, HealthProvider, Method, MovieProvider,
    PaymentProvider, Request, SubscriptionProvider, UserProvider, HEALTH_URL, MOVIES_URL,
    PAYMENTS_URL, SUBSCRIPTIONS_URL, USERS_URL,
};

verus! {

/// The adapter of the legacy backend.
#[derive(Clone, Debug)]
pub struct Monolith {
    url: String,
}

impl View for Monolith {
    type V = Seq<char>;

    /// The base address of the host.
    closed spec fn view(&self) -> Seq<char> {
        self.url@
    }
}

impl Monolith {
    pub fn new(url: &str) -> (m: Monolith)
        ensures
            m@ == url@,
    {
        Monolith { url: url.to_owned() }
    }

    /// The base address of the host.
    pub fn url(&self) -> (u: &str)
        ensures
            u@ == self@,
    {
        self.url.as_str()
    }
}

impl APIProvider for Monolith {

}

impl HealthProvider for Monolith {
    open spec fn health_base(&self) -> Seq<char> {
        self@
    }

    fn health(&self) -> (r: Request) {
        collection_request(Method::Get, self.url.as_str(), HEALTH_URL)
    }
}

impl MovieProvider for Monolith {
    open spec fn movie_base(&self) -> Seq<char> {
        self@
    }

    fn health_movie(&self) -> (r: Request) {
        collection_request(Method::Get, self.url.as_str(), HEALTH_URL)
    }

    fn create_movie(&self) -> (r: Request) {
        collection_request(Method::Post, self.url.as_str(), MOVIES_URL)
    }

    fn get_movies(&self) -> (r: Request) {
        collection_request(Method::Get, self.url.as_str(), MOVIES_URL)
    }

    fn get_movie(&self, movie_id: i32) -> (r: Request) {
        item_request(Method::Get, self.url.as_str(), MOVIES_URL, movie_id)
    }

    fn delete_movie(&self, movie_id: i32) -> (r: Request) {
        item_request(Method::Delete, self.url.as_str(), MOVIES_URL, movie_id)
    }
}

impl UserProvider for Monolith {
    open spec fn user_base(&self) -> Seq<char> {
        self@
    }

    fn create_user(&self) -> (r: Request) {
        collection_request(Method::Post, self.url.as_str(), USERS_URL)
    }

    fn get_users(&self) -> (r: Request) {
        collection_request(Method::Get, self.url.as_str(), USERS_URL)
    }

    fn get_user(&self, user_id: i32) -> (r: Request) {
        item_request(Method::Get, self.url.as_str(), USERS_URL, user_id)
    }

    fn delete_user(&self, user_id: i32) -> (r: Request) {
        item_request(Method::Delete, self.url.as_str(), USERS_URL, user_id)
    }
}

impl PaymentProvider for Monolith {
    open spec fn payment_base(&self) -> Seq<char> {
        self@
    }

    fn create_payment(&self) -> (r: Request) {
        collection_request(Method::Post, self.url.as_str(), PAYMENTS_URL)
    }

    fn get_payments(&self) -> (r: Request) {
        collection_request(Method::Get, self.url.as_str(), PAYMENTS_URL)
    }

    fn get_payment(&self, payment_id: i32) -> (r: Request) {
        item_request(Method::Get, self.url.as_str(), PAYMENTS_URL, payment_id)
    }

    fn delete_payment(&self, payment_id: i32) -> (r: Request) {
        item_request(Method::Delete, self.url.as_str(), PAYMENTS_URL, payment_id)
    }
}

impl SubscriptionProvider for Monolith {
    open spec fn subscription_base(&self) -> Seq<char> {
        self@
    }

    fn create_subscription(&self) -> (r: Request) {
        collection_request(Method::Post, self.url.as_str(), SUBSCRIPTIONS_URL)
    }

    fn get_subscriptions(&self) -> (r: Request) {
        collection_request(Method::Get, self.url.as_str(), SUBSCRIPTIONS_URL)
    }

    fn get_subscription(&self, subscription_id: i32) -> (r: Request) {
        item_request(Method::Get, self.url.as_str(), SUBSCRIPTIONS_URL, subscription_id)
    }

    fn delete_subscription(&self, subscription_id: i32) -> (r: Request) {
        item_request(Method::Delete, self.url.as_str(), SUBSCRIPTIONS_URL, subscription_id)
    }
}

} // verus!
