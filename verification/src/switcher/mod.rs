//! The traffic switch and the operation set that both backends serve.
//!
//! A backend is reached over HTTP. What this module decides is which backend a
//! call goes to and which request that call is: the method and the address.
//! Sending the request and reading the answer is the caller's part.

pub mod distributed;
pub mod events;
pub mod monolith;

use std::sync::Arc;
use vstd::prelude::*;
use vstd::string::*;
use vstd::set_lib::*;
use crate::event::EventType;
use crate::switcher::distributed::Distributed;
use crate::switcher::events::Events;
use crate::switcher::monolith::Monolith;
use crate::text::{decimal_text, push_id};

verus! {

pub const HEALTH_URL: &'static str = "/health";

pub const USERS_URL: &'static str = "/api/users";

pub const MOVIES_URL: &'static str = "/api/movies";

pub const PAYMENTS_URL: &'static str = "/api/payments";

pub const SUBSCRIPTIONS_URL: &'static str = "/api/subscriptions";

/// The HTTP method of an outbound request.
#[derive(Clone, Copy, Debug, PartialEq, Eq, Structural)]
pub enum Method {
    Get,
    Post,
    Delete,
}

/// An outbound request: the method and the full address. A `Post` carries the
/// create request of the call as its body.
#[derive(Clone, Debug)]
pub struct Request {
    pub method: Method,
    pub url: String,
}

/// What a [`Request`] says: its method and the characters of its address.
pub struct RequestView {
    pub method: Method,
    pub url: Seq<char>,
}

impl View for Request {
    type V = RequestView;

    open spec fn view(&self) -> RequestView {
        RequestView { method: self.method, url: self.url@ }
    }
}

/// The address of a whole collection: the path right behind the base.
pub open spec fn collection_url(base: Seq<char>, path: Seq<char>) -> Seq<char> {
    base + path
}

/// The address of one entity: the collection's address, a slash, and the
/// identifier in decimal.
pub open spec fn item_url(base: Seq<char>, path: Seq<char>, id: int) -> Seq<char> {
    base + path + seq!['/'] + decimal_text(id)
}

/// A request on a collection, or on any fixed path below a base.
pub fn collection_request(method: Method, base: &str, path: &str) -> (r: Request)
    ensures
        r@ == (RequestView { method, url: collection_url(base@, path@) }),
{
    Request { method, url: String::from_str(base).concat(path) }
}

/// A request on the entity with the given identifier.
pub fn item_request(method: Method, base: &str, path: &str, id: i32) -> (r: Request)
    ensures
        r@ == (RequestView { method, url: item_url(base@, path@, id as int) }),
{
    let stem = String::from_str(base).concat(path).concat("/");
    proof {
        reveal_strlit("/");
        assert(stem@ =~= base@ + path@ + seq!['/']);
    }
    Request { method, url: push_id(stem, id) }
}

/// The two backends that can serve the catalogue.
#[derive(Clone, Copy, Debug, PartialEq, Eq, Structural)]
pub enum Backend {
    Legacy,
    Distributed,
}

/// One call of the catalogue's operation set.
#[derive(Clone, Copy, Debug, PartialEq, Eq, Structural)]
pub enum Operation {
    HealthMovie,
    CreateMovie,
    GetMovies,
    GetMovie(i32),
    DeleteMovie(i32),
    CreateUser,
    GetUsers,
    GetUser(i32),
    DeleteUser(i32),
    CreatePayment,
    GetPayments,
    GetPayment(i32),
    DeletePayment(i32),
    CreateSubscription,
    GetSubscriptions,
    GetSubscription(i32),
    DeleteSubscription(i32),
}

/// The type of the event that mirrors an operation: the creation of a movie,
/// of a user and of a payment is relayed as an event, nothing else is.
pub open spec fn relayed(op: Operation) -> Option<EventType> {
    match op {
        Operation::CreateMovie => Some(EventType::Movie),
        Operation::CreateUser => Some(EventType::User),
        Operation::CreatePayment => Some(EventType::Payment),
        _ => None,
    }
}

impl Operation {
    /// The type of the event that mirrors this operation, if one does.
    pub fn event_type(self) -> (r: Option<EventType>)
        ensures
            r == relayed(self),
    {
        match self {
            Operation::CreateMovie => Some(EventType::Movie),
            Operation::CreateUser => Some(EventType::User),
            Operation::CreatePayment => Some(EventType::Payment),
            _ => None,
        }
    }
}

/// The health check of a backend as a whole.
pub trait HealthProvider {
    /// The base address that the health check goes to.
    spec fn health_base(&self) -> Seq<char>;

    fn health(&self) -> (r: Request)
        ensures
            r@ == (RequestView {
                method: Method::Get,
                url: collection_url(self.health_base(), HEALTH_URL@),
            }),
    ;
}

/// The operations on movies.
pub trait MovieProvider {
    /// The base address of the service that holds the movies.
    spec fn movie_base(&self) -> Seq<char>;

    fn health_movie(&self) -> (r: Request)
        ensures
            r@ == (RequestView {
                method: Method::Get,
                url: collection_url(self.movie_base(), HEALTH_URL@),
            }),
    ;

    fn create_movie(&self) -> (r: Request)
        ensures
            r@ == (RequestView {
                method: Method::Post,
                url: collection_url(self.movie_base(), MOVIES_URL@),
            }),
    ;

    fn get_movies(&self) -> (r: Request)
        ensures
            r@ == (RequestView {
                method: Method::Get,
                url: collection_url(self.movie_base(), MOVIES_URL@),
            }),
    ;

    fn get_movie(&self, movie_id: i32) -> (r: Request)
        ensures
            r@ == (RequestView {
                method: Method::Get,
                url: item_url(self.movie_base(), MOVIES_URL@, movie_id as int),
            }),
    ;

    fn delete_movie(&self, movie_id: i32) -> (r: Request)
        ensures
            r@ == (RequestView {
                method: Method::Delete,
                url: item_url(self.movie_base(), MOVIES_URL@, movie_id as int),
            }),
    ;
}

/// The operations on users.
pub trait UserProvider {
    /// The base address of the service that holds the users.
    spec fn user_base(&self) -> Seq<char>;

    fn create_user(&self) -> (r: Request)
        ensures
            r@ == (RequestView {
                method: Method::Post,
                url: collection_url(self.user_base(), USERS_URL@),
            }),
    ;

    fn get_users(&self) -> (r: Request)
        ensures
            r@ == (RequestView {
                method: Method::Get,
                url: collection_url(self.user_base(), USERS_URL@),
            }),
    ;

    fn get_user(&self, user_id: i32) -> (r: Request)
        ensures
            r@ == (RequestView {
                method: Method::Get,
                url: item_url(self.user_base(), USERS_URL@, user_id as int),
            }),
    ;

    fn delete_user(&self, user_id: i32) -> (r: Request)
        ensures
            r@ == (RequestView {
                method: Method::Delete,
                url: item_url(self.user_base(), USERS_URL@, user_id as int),
            }),
    ;
}

/// The operations on payments.
pub trait PaymentProvider {
    /// The base address of the service that holds the payments.
    spec fn payment_base(&self) -> Seq<char>;

    fn create_payment(&self) -> (r: Request)
        ensures
            r@ == (RequestView {
                method: Method::Post,
                url: collection_url(self.payment_base(), PAYMENTS_URL@),
            }),
    ;

    fn get_payments(&self) -> (r: Request)
        ensures
            r@ == (RequestView {
                method: Method::Get,
                url: collection_url(self.payment_base(), PAYMENTS_URL@),
            }),
    ;

    fn get_payment(&self, payment_id: i32) -> (r: Request)
        ensures
            r@ == (RequestView {
                method: Method::Get,
                url: item_url(self.payment_base(), PAYMENTS_URL@, payment_id as int),
            }),
    ;

    fn delete_payment(&self, payment_id: i32) -> (r: Request)
        ensures
            r@ == (RequestView {
                method: Method::Delete,
                url: item_url(self.payment_base(), PAYMENTS_URL@, payment_id as int),
            }),
    ;
}

/// The operations on subscriptions.
pub trait SubscriptionProvider {
    /// The base address of the service that holds the subscriptions.
    spec fn subscription_base(&self) -> Seq<char>;

    fn create_subscription(&self) -> (r: Request)
        ensures
            r@ == (RequestView {
                method: Method::Post,
                url: collection_url(self.subscription_base(), SUBSCRIPTIONS_URL@),
            }),
    ;

    fn get_subscriptions(&self) -> (r: Request)
        ensures
            r@ == (RequestView {
                method: Method::Get,
                url: collection_url(self.subscription_base(), SUBSCRIPTIONS_URL@),
            }),
    ;

    fn get_subscription(&self, subscription_id: i32) -> (r: Request)
        ensures
            r@ == (RequestView {
                method: Method::Get,
                url: item_url(
                    self.subscription_base(),
                    SUBSCRIPTIONS_URL@,
                    subscription_id as int,
                ),
            }),
    ;

    fn delete_subscription(&self, subscription_id: i32) -> (r: Request)
        ensures
            r@ == (RequestView {
                method: Method::Delete,
                url: item_url(
                    self.subscription_base(),
                    SUBSCRIPTIONS_URL@,
                    subscription_id as int,
                ),
            }),
    ;
}

/// A backend that serves the whole catalogue.
pub trait APIProvider: MovieProvider + UserProvider + PaymentProvider + SubscriptionProvider {

}

/// The request that an operation is on a backend with the given base
/// addresses, one for each kind of resource.
pub open spec fn request_of(
    movie_base: Seq<char>,
    user_base: Seq<char>,
    payment_base: Seq<char>,
    subscription_base: Seq<char>,
    op: Operation,
) -> RequestView {
    match op {
        Operation::HealthMovie => RequestView {
            method: Method::Get,
            url: collection_url(movie_base, HEALTH_URL@),
        },
        Operation::CreateMovie => RequestView {
            method: Method::Post,
            url: collection_url(movie_base, MOVIES_URL@),
        },
        Operation::GetMovies => RequestView {
            method: Method::Get,
            url: collection_url(movie_base, MOVIES_URL@),
        },
        Operation::GetMovie(id) => RequestView {
            method: Method::Get,
            url: item_url(movie_base, MOVIES_URL@, id as int),
        },
        Operation::DeleteMovie(id) => RequestView {
            method: Method::Delete,
            url: item_url(movie_base, MOVIES_URL@, id as int),
        },
        Operation::CreateUser => RequestView {
            method: Method::Post,
            url: collection_url(user_base, USERS_URL@),
        },
        Operation::GetUsers => RequestView {
            method: Method::Get,
            url: collection_url(user_base, USERS_URL@),
        },
        Operation::GetUser(id) => RequestView {
            method: Method::Get,
            url: item_url(user_base, USERS_URL@, id as int),
        },
        Operation::DeleteUser(id) => RequestView {
            method: Method::Delete,
            url: item_url(user_base, USERS_URL@, id as int),
        },
        Operation::CreatePayment => RequestView {
            method: Method::Post,
            url: collection_url(payment_base, PAYMENTS_URL@),
        },
        Operation::GetPayments => RequestView {
            method: Method::Get,
            url: collection_url(payment_base, PAYMENTS_URL@),
        },
        Operation::GetPayment(id) => RequestView {
            method: Method::Get,
            url: item_url(payment_base, PAYMENTS_URL@, id as int),
        },
        Operation::DeletePayment(id) => RequestView {
            method: Method::Delete,
            url: item_url(payment_base, PAYMENTS_URL@, id as int),
        },
        Operation::CreateSubscription => RequestView {
            method: Method::Post,
            url: collection_url(subscription_base, SUBSCRIPTIONS_URL@),
        },
        Operation::GetSubscriptions => RequestView {
            method: Method::Get,
            url: collection_url(subscription_base, SUBSCRIPTIONS_URL@),
        },
        Operation::GetSubscription(id) => RequestView {
            method: Method::Get,
            url: item_url(subscription_base, SUBSCRIPTIONS_URL@, id as int),
        },
        Operation::DeleteSubscription(id) => RequestView {
            method: Method::Delete,
            url: item_url(subscription_base, SUBSCRIPTIONS_URL@, id as int),
        },
    }
}

/// The request that `op` is on `provider`.
pub fn request_for<P: APIProvider>(provider: &P, op: Operation) -> (r: Request)
    ensures
        r@ == request_of(
            provider.movie_base(),
            provider.user_base(),
            provider.payment_base(),
            provider.subscription_base(),
            op,
        ),
{
    match op {
        Operation::HealthMovie => provider.health_movie(),
        Operation::CreateMovie => provider.create_movie(),
        Operation::GetMovies => provider.get_movies(),
        Operation::GetMovie(id) => provider.get_movie(id),
        Operation::DeleteMovie(id) => provider.delete_movie(id),
        Operation::CreateUser => provider.create_user(),
        Operation::GetUsers => provider.get_users(),
        Operation::GetUser(id) => provider.get_user(id),
        Operation::DeleteUser(id) => provider.delete_user(id),
        Operation::CreatePayment => provider.create_payment(),
        Operation::GetPayments => provider.get_payments(),
        Operation::GetPayment(id) => provider.get_payment(id),
        Operation::DeletePayment(id) => provider.delete_payment(id),
        Operation::CreateSubscription => provider.create_subscription(),
        Operation::GetSubscriptions => provider.get_subscriptions(),
        Operation::GetSubscription(id) => provider.get_subscription(id),
        Operation::DeleteSubscription(id) => provider.delete_subscription(id),
    }
}

/// The backend that a draw selects: the distributed one where the draw is
/// below the migration percentage, the legacy one otherwise.
///
/// The draw ranges over the whole of `u32` and the percentage is compared with
/// it as it stands, unscaled. A percentage of `p` therefore sends `p` of the
/// 4,294,967,296 possible draws to the distributed backend: none at 0, and at
/// 100 still fewer than one call in forty million.
pub open spec fn selected(draw: u32, percent: u32) -> Backend {
    if draw >= percent {
        Backend::Legacy
    } else {
        Backend::Distributed
    }
}

/// The draws that a migration percentage sends to the distributed backend.
pub open spec fn distributed_draws(percent: u32) -> Set<int> {
    Set::new(|d: int| 0 <= d <= u32::MAX && selected(d as u32, percent) == Backend::Distributed)
}

/// The draws that a migration percentage sends to the legacy backend.
pub open spec fn legacy_draws(percent: u32) -> Set<int> {
    Set::new(|d: int| 0 <= d <= u32::MAX && selected(d as u32, percent) == Backend::Legacy)
}

/// Of the 2^32 draws, exactly `percent` select the distributed backend and all
/// the others the legacy one. With a uniform draw the share of calls that the
/// distributed backend serves therefore tends to `percent / 2^32`.
pub proof fn lemma_split_shares(percent: u32)
    ensures
        distributed_draws(percent).finite(),
        distributed_draws(percent).len() == percent,
        legacy_draws(percent).finite(),
        legacy_draws(percent).len() == 0x1_0000_0000 - percent,
{
    lemma_int_range(0, percent as int);
    assert(distributed_draws(percent) =~= set_int_range(0, percent as int));
    lemma_int_range(percent as int, 0x1_0000_0000);
    assert(legacy_draws(percent) =~= set_int_range(percent as int, 0x1_0000_0000));
}

/// The backend that a given draw selects.
pub fn select_backend(draw: u32, percent: u32) -> (b: Backend)
    ensures
        b == selected(draw, percent),
{
    if draw >= percent {
        Backend::Legacy
    } else {
        Backend::Distributed
    }
}

/// A fresh draw from `rand::random::<u32>()`, the thread's generator sampled
/// over the whole range of `u32`. Nothing is claimed of the value.
#[verifier::external_body]
fn random_draw() -> (draw: u32) {
    rand::random::<u32>()
}

/// A second handle on a shared value, from `Arc::clone`: it points to the
/// value that the first handle points to.
#[verifier::external_body]
fn share<T>(handle: &Arc<T>) -> (r: Arc<T>)
    ensures
        r == *handle,
{
    Arc::clone(handle)
}

/// The traffic switch: both backends, and the adapter of the event relay.
#[derive(Clone)]
pub struct CinemaProvider {
    monolith: Arc<Monolith>,
    distributed: Arc<Distributed>,
    events: Arc<Events>,
}

impl CinemaProvider {
    pub fn new(mono: Arc<Monolith>, distr: Arc<Distributed>, events: Arc<Events>) -> (p: Self)
        ensures
            *p.spec_monolith() == *mono,
            *p.spec_distributed() == *distr,
            *p.spec_events() == *events,
    {
        CinemaProvider { monolith: mono, distributed: distr, events: share(&events) }
    }

    /// The legacy backend's adapter.
    pub closed spec fn spec_monolith(&self) -> &Monolith {
        &*self.monolith
    }

    /// The distributed backend's adapter.
    pub closed spec fn spec_distributed(&self) -> &Distributed {
        &*self.distributed
    }

    /// The event relay's adapter.
    pub closed spec fn spec_events(&self) -> &Events {
        &*self.events
    }

    /// Selects the backend for one call, by a fresh draw. Nothing is kept from
    /// one call to the next: two calls on one resource may select different
    /// backends.
    pub fn choose_cinema_provider(&self, percent: u32) -> (b: Backend)
        ensures
            exists|draw: u32| b == selected(draw, percent),
            percent == 0 ==> b == Backend::Legacy,
    {
        let draw = random_draw();
        select_backend(draw, percent)
    }

    #[verifier::when_used_as_spec(spec_monolith)]
    pub fn get_monolith(&self) -> (m: &Monolith)
        ensures
            m == self.spec_monolith(),
    {
        &*self.monolith
    }

    #[verifier::when_used_as_spec(spec_distributed)]
    pub fn get_distributed(&self) -> (d: &Distributed)
        ensures
            d == self.spec_distributed(),
    {
        &*self.distributed
    }

    pub fn get_events(&self) -> (e: Arc<Events>)
        ensures
            *e == *self.spec_events(),
    {
        share(&self.events)
    }

    /// The base addresses of a backend, in the order movies, users, payments,
    /// subscriptions.
    pub open spec fn bases(&self, backend: Backend) -> (Seq<char>, Seq<char>, Seq<char>, Seq<char>) {
        match backend {
            Backend::Legacy => (
                self.spec_monolith()@,
                self.spec_monolith()@,
                self.spec_monolith()@,
                self.spec_monolith()@,
            ),
            Backend::Distributed => (
                self.spec_distributed()@.movie_url,
                self.spec_distributed()@.user_url,
                self.spec_distributed()@.payment_url,
                self.spec_distributed()@.subscription_url,
            ),
        }
    }

    /// The request that `op` is on the given backend.
    pub open spec fn spec_request(&self, backend: Backend, op: Operation) -> RequestView {
        let b = self.bases(backend);
        request_of(b.0, b.1, b.2, b.3, op)
    }

    /// The request that `op` is on the given backend.
    pub fn request(&self, backend: Backend, op: Operation) -> (r: Request)
        ensures
            r@ == self.spec_request(backend, op),
    {
        match backend {
            Backend::Legacy => request_for(self.get_monolith(), op),
            Backend::Distributed => request_for(self.get_distributed(), op),
        }
    }
}

} // verus!
