//! The distributed backend: one service for each kind of resource.

use vstd::prelude::*;
use crate::config::ServiceConfig;
use crate::switcher::{
    collection_request, item_request, APIProvider, HealthProvider, Method, MovieProvider,
    PaymentProvider, Request, SubscriptionProvider, UserProvider, HEALTH_URL, MOVIES_URL,
    PAYMENTS_URL, SUBSCRIPTIONS_URL, USERS_URL,
};

verus! {

/// The adapter of the distributed backend.
#[derive(Clone, Debug)]
pub struct Distributed {
    movie_url: String,
    user_url: String,
    payment_url: String,
    subscription_url: String,
}

/// The base addresses that a [`Distributed`] holds.
pub struct DistributedView {
    pub movie_url: Seq<char>,
    pub user_url: Seq<char>,
    pub payment_url: Seq<char>,
    pub subscription_url: Seq<char>,
}

impl View for Distributed {
    type V = DistributedView;

    closed spec fn view(&self) -> DistributedView {
        DistributedView {
            movie_url: self.movie_url@,
            user_url: self.user_url@,
            payment_url: self.payment_url@,
            subscription_url: self.subscription_url@,
        }
    }
}

impl Distributed {
    /// The adapter for the given settings. The settings name one distributed
    /// service, and every kind of resource is reached through it.
    pub fn new(config: &ServiceConfig) -> (d: Distributed)
        ensures
            d@ == (DistributedView {
                movie_url: config@.movies_service_url,
                user_url: config@.movies_service_url,
                payment_url: config@.movies_service_url,
                subscription_url: config@.movies_service_url,
            }),
    {
        Distributed {
            movie_url: config.movies_service_url().clone(),
            user_url: config.movies_service_url().clone(),
            payment_url: config.movies_service_url().clone(),
            subscription_url: config.movies_service_url().clone(),
        }
    }
}

impl APIProvider for Distributed {

}

impl HealthProvider for Distributed {
    open spec fn health_base(&self) -> Seq<char> {
        self@.movie_url
    }

    fn health(&self) -> (r: Request) {
        collection_request(Method::Get, self.movie_url.as_str(), HEALTH_URL)
    }
}

impl MovieProvider for Distributed {
    open spec fn movie_base(&self) -> Seq<char> {
        self@.movie_url
    }

    fn health_movie(&self) -> (r: Request) {
        collection_request(Method::Get, self.movie_url.as_str(), HEALTH_URL)
    }

    fn create_movie(&self) -> (r: Request) {
        collection_request(Method::Post, self.movie_url.as_str(), MOVIES_URL)
    }

    fn get_movies(&self) -> (r: Request) {
        collection_request(Method::Get, self.movie_url.as_str(), MOVIES_URL)
    }

    fn get_movie(&self, movie_id: i32) -> (r: Request) {
        item_request(Method::Get, self.movie_url.as_str(), MOVIES_URL, movie_id)
    }

    fn delete_movie(&self, movie_id: i32) -> (r: Request) {
        item_request(Method::Delete, self.movie_url.as_str(), MOVIES_URL, movie_id)
    }
}

impl UserProvider for Distributed {
    open spec fn user_base(&self) -> Seq<char> {
        self@.user_url
    }

    fn create_user(&self) -> (r: Request) {
        collection_request(Method::Post, self.user_url.as_str(), USERS_URL)
    }

    fn get_users(&self) -> (r: Request) {
        collection_request(Method::Get, self.user_url.as_str(), USERS_URL)
    }

    fn get_user(&self, user_id: i32) -> (r: Request) {
        item_request(Method::Get, self.user_url.as_str(), USERS_URL, user_id)
    }

    fn delete_user(&self, user_id: i32) -> (r: Request) {
        item_request(Method::Delete, self.user_url.as_str(), USERS_URL, user_id)
    }
}

impl PaymentProvider for Distributed {
    open spec fn payment_base(&self) -> Seq<char> {
        self@.payment_url
    }

    fn create_payment(&self) -> (r: Request) {
        collection_request(Method::Post, self.payment_url.as_str(), PAYMENTS_URL)
    }

    fn get_payments(&self) -> (r: Request) {
        collection_request(Method::Get, self.payment_url.as_str(), PAYMENTS_URL)
    }

    fn get_payment(&self, payment_id: i32) -> (r: Request) {
        item_request(Method::Get, self.payment_url.as_str(), PAYMENTS_URL, payment_id)
    }

    fn delete_payment(&self, payment_id: i32) -> (r: Request) {
        item_request(Method::Delete, self.payment_url.as_str(), PAYMENTS_URL, payment_id)
    }
}

impl SubscriptionProvider for Distributed {
    open spec fn subscription_base(&self) -> Seq<char> {
        self@.subscription_url
    }

    fn create_subscription(&self) -> (r: Request) {
        collection_request(Method::Post, self.subscription_url.as_str(), SUBSCRIPTIONS_URL)
    }

    fn get_subscriptions(&self) -> (r: Request) {
        collection_request(Method::Get, self.subscription_url.as_str(), SUBSCRIPTIONS_URL)
    }

    fn get_subscription(&self, subscription_id: i32) -> (r: Request) {
        item_request(Method::Get, self.subscription_url.as_str(), SUBSCRIPTIONS_URL, subscription_id)
    }

    fn delete_subscription(&self, subscription_id: i32) -> (r: Request) {
        item_request(Method::Delete, self.subscription_url.as_str(), SUBSCRIPTIONS_URL, subscription_id)
    }
}

} // verus!
