//! The gateway: for each call of the catalogue, the backend that serves it and
//! the request that it is there; and what the caller is answered.

use std::sync::Arc;
use vstd::prelude::*;
use crate::error::{ServerError, Success};
use crate::switcher::events::{relay_leaf, Events, EVENTS_URL};
use crate::switcher::monolith::Monolith;
use crate::switcher::{
    relayed, select_backend, selected, Backend, CinemaProvider, Method, Operation, Request,
    RequestView,
};

verus! {

/// The gateway's state: the traffic switch and the migration percentage. Both
/// are set when the process starts and stay as they are.
pub struct ServerApp {
    provider: Arc<CinemaProvider>,
    percent: u32,
}

/// An outbound call that the gateway has decided on.
#[derive(Clone, Debug)]
pub struct Routed {
    pub backend: Backend,
    pub request: Request,
}

/// What the gateway sends for a create request: the call to the backend that
/// the draw selected and, where the creation is mirrored as an event, the
/// request to the event relay. The two are independent of each other: both
/// are sent, whatever comes of the other.
#[derive(Clone, Debug)]
pub struct CreatePlan {
    pub backend: Backend,
    pub request: Request,
    pub relay: Option<Request>,
}

/// The request that an optional request says.
pub open spec fn request_view(request: Option<Request>) -> Option<RequestView> {
    match request {
        Some(r) => Some(r@),
        None => None,
    }
}

impl ServerApp {
    pub fn new(percent: u32, provider: Arc<CinemaProvider>) -> (app: ServerApp)
        ensures
            app.percent() == percent,
            *app.provider() == *provider,
    {
        ServerApp { provider, percent }
    }

    /// The migration percentage.
    pub closed spec fn percent(&self) -> u32 {
        self.percent
    }

    /// The traffic switch.
    pub closed spec fn provider(&self) -> &CinemaProvider {
        &*self.provider
    }

    pub fn get_events(&self) -> (e: Arc<Events>)
        ensures
            *e == *self.provider().spec_events(),
    {
        self.provider.get_events()
    }

    pub fn get_monolith(&self) -> (m: &Monolith)
        ensures
            m == self.provider().spec_monolith(),
    {
        self.provider.get_monolith()
    }

    /// The request to the event relay that mirrors `op`, if `op` is mirrored.
    pub open spec fn spec_relay(&self, op: Operation) -> Option<RequestView> {
        match relayed(op) {
            Some(t) => Some(
                RequestView {
                    method: Method::Post,
                    url: self.provider().spec_events()@ + EVENTS_URL@ + relay_leaf(t),
                },
            ),
            None => None,
        }
    }

    /// The request to the event relay that mirrors `op`: one for the creation
    /// of a movie, a user or a payment, none for any other operation.
    pub fn relay(&self, op: Operation) -> (r: Option<Request>)
        ensures
            match self.spec_relay(op) {
                Some(request) => r is Some && r->Some_0@ == request,
                None => r is None,
            },
    {
        match op.event_type() {
            Some(t) => Some(self.get_events().create(t)),
            None => None,
        }
    }

    /// What is sent for the create request `op`, the backend decided by a
    /// fresh draw.
    pub fn plan_create(&self, op: Operation) -> (r: CreatePlan)
        ensures
            exists|draw: u32| (r.backend, r.request@) == self.routed(draw, op),
            self.percent() == 0 ==> r.backend == Backend::Legacy,
            request_view(r.relay) == self.spec_relay(op),
    {
        let routed = self.route(op);
        CreatePlan { backend: routed.backend, request: routed.request, relay: self.relay(op) }
    }

    /// The call that `op` is when the draw is `draw`.
    pub open spec fn routed(&self, draw: u32, op: Operation) -> (Backend, RequestView) {
        let backend = selected(draw, self.percent());
        (backend, self.provider().spec_request(backend, op))
    }

    /// The outbound call for `op`, decided by the given draw.
    pub fn route_with(&self, draw: u32, op: Operation) -> (r: Routed)
        ensures
            (r.backend, r.request@) == self.routed(draw, op),
    {
        let backend = select_backend(draw, self.percent);
        Routed { backend, request: self.provider.request(backend, op) }
    }

    /// The outbound call for `op`, decided by a fresh draw. With a percentage
    /// of zero every call goes to the legacy backend.
    pub fn route(&self, op: Operation) -> (r: Routed)
        ensures
            exists|draw: u32| (r.backend, r.request@) == self.routed(draw, op),
            self.percent() == 0 ==> (r.backend, r.request@) == (
                Backend::Legacy,
                self.provider().spec_request(Backend::Legacy, op),
            ),
    {
        let backend = self.provider.choose_cinema_provider(self.percent);
        let r = Routed { backend, request: self.provider.request(backend, op) };
        proof {
            let draw = choose|draw: u32| backend == selected(draw, self.percent());
            assert((r.backend, r.request@) == self.routed(draw, op));
        }
        r
    }
}

/// With a migration percentage of zero the legacy backend serves every call,
/// whatever the draw.
pub proof fn lemma_percent_zero_routes_to_legacy(app: ServerApp, draw: u32, op: Operation)
    requires
        app.percent() == 0,
    ensures
        app.routed(draw, op) == (Backend::Legacy, app.provider().spec_request(Backend::Legacy, op)),
{
}

/// The backend that serves a call is the one that the draw selects, and the
/// request is that backend's own: no call is answered from both, and none
/// from neither.
pub proof fn lemma_routed_by_the_draw(app: ServerApp, draw: u32, op: Operation)
    ensures
        draw < app.percent() ==> app.routed(draw, op).0 == Backend::Distributed,
        draw >= app.percent() ==> app.routed(draw, op).0 == Backend::Legacy,
        app.routed(draw, op).1 == app.provider().spec_request(app.routed(draw, op).0, op),
{
}

/// The gateway's own health check: answered without asking a backend.
pub fn health() -> (r: Result<Success, ServerError>)
    ensures
        r is Ok,
        r->Ok_0.status == 200,
        r->Ok_0.message@ == "Ok"@,
{
    Ok(Success::success())
}

/// The health check of the movies.
pub fn health_movie(state: &ServerApp) -> (r: Routed)
    ensures
        exists|draw: u32| (r.backend, r.request@) == state.routed(draw, Operation::HealthMovie),
{
    state.route(Operation::HealthMovie)
}

/// Creates a movie.
pub fn create_movie(state: &ServerApp) -> (r: CreatePlan)
    ensures
        exists|draw: u32| (r.backend, r.request@) == state.routed(draw, Operation::CreateMovie),
        request_view(r.relay) == state.spec_relay(Operation::CreateMovie),
{
    state.plan_create(Operation::CreateMovie)
}

/// Lists the movies.
pub fn get_movies(state: &ServerApp) -> (r: Routed)
    ensures
        exists|draw: u32| (r.backend, r.request@) == state.routed(draw, Operation::GetMovies),
{
    state.route(Operation::GetMovies)
}

/// Reads one movie.
pub fn get_movie(state: &ServerApp, movie_id: i32) -> (r: Routed)
    ensures
        exists|draw: u32| (r.backend, r.request@) == state.routed(draw, Operation::GetMovie(movie_id)),
{
    state.route(Operation::GetMovie(movie_id))
}

/// Deletes one movie.
pub fn delete_movie(state: &ServerApp, movie_id: i32) -> (r: Routed)
    ensures
        exists|draw: u32| (r.backend, r.request@) == state.routed(draw, Operation::DeleteMovie(movie_id)),
{
    state.route(Operation::DeleteMovie(movie_id))
}

/// Creates a user.
pub fn create_user(state: &ServerApp) -> (r: CreatePlan)
    ensures
        exists|draw: u32| (r.backend, r.request@) == state.routed(draw, Operation::CreateUser),
        request_view(r.relay) == state.spec_relay(Operation::CreateUser),
{
    state.plan_create(Operation::CreateUser)
}

/// Lists the users.
pub fn get_users(state: &ServerApp) -> (r: Routed)
    ensures
        exists|draw: u32| (r.backend, r.request@) == state.routed(draw, Operation::GetUsers),
{
    state.route(Operation::GetUsers)
}

/// Reads one user.
pub fn get_user(state: &ServerApp, user_id: i32) -> (r: Routed)
    ensures
        exists|draw: u32| (r.backend, r.request@) == state.routed(draw, Operation::GetUser(user_id)),
{
    state.route(Operation::GetUser(user_id))
}

/// Deletes one user.
pub fn delete_user(state: &ServerApp, user_id: i32) -> (r: Routed)
    ensures
        exists|draw: u32| (r.backend, r.request@) == state.routed(draw, Operation::DeleteUser(user_id)),
{
    state.route(Operation::DeleteUser(user_id))
}

/// Creates a payment.
pub fn create_payment(state: &ServerApp) -> (r: CreatePlan)
    ensures
        exists|draw: u32| (r.backend, r.request@) == state.routed(draw, Operation::CreatePayment),
        request_view(r.relay) == state.spec_relay(Operation::CreatePayment),
{
    state.plan_create(Operation::CreatePayment)
}

/// Lists the payments.
pub fn get_payments(state: &ServerApp) -> (r: Routed)
    ensures
        exists|draw: u32| (r.backend, r.request@) == state.routed(draw, Operation::GetPayments),
{
    state.route(Operation::GetPayments)
}

/// Reads one payment.
pub fn get_payment(state: &ServerApp, payment_id: i32) -> (r: Routed)
    ensures
        exists|draw: u32| (r.backend, r.request@) == state.routed(draw, Operation::GetPayment(payment_id)),
{
    state.route(Operation::GetPayment(payment_id))
}

/// Deletes one payment.
pub fn delete_payment(state: &ServerApp, payment_id: i32) -> (r: Routed)
    ensures
        exists|draw: u32| (r.backend, r.request@) == state.routed(draw, Operation::DeletePayment(payment_id)),
{
    state.route(Operation::DeletePayment(payment_id))
}

/// Creates a subscription.
pub fn create_subscription(state: &ServerApp) -> (r: CreatePlan)
    ensures
        exists|draw: u32| (r.backend, r.request@) == state.routed(draw, Operation::CreateSubscription),
        request_view(r.relay) == state.spec_relay(Operation::CreateSubscription),
{
    state.plan_create(Operation::CreateSubscription)
}

/// Lists the subscriptions.
pub fn get_subscriptions(state: &ServerApp) -> (r: Routed)
    ensures
        exists|draw: u32| (r.backend, r.request@) == state.routed(draw, Operation::GetSubscriptions),
{
    state.route(Operation::GetSubscriptions)
}

/// Reads one subscription.
pub fn get_subscription(state: &ServerApp, subscription_id: i32) -> (r: Routed)
    ensures
        exists|draw: u32| (r.backend, r.request@) == state.routed(draw, Operation::GetSubscription(subscription_id)),
{
    state.route(Operation::GetSubscription(subscription_id))
}

/// Deletes one subscription.
pub fn delete_subscription(state: &ServerApp, subscription_id: i32) -> (r: Routed)
    ensures
        exists|draw: u32| (r.backend, r.request@) == state.routed(draw, Operation::DeleteSubscription(subscription_id)),
{
    state.route(Operation::DeleteSubscription(subscription_id))
}

/// What a create request is answered once everything that was sent for it has
/// come to an end. `published` is the outcome of the request to the event
/// relay, `None` where the plan held no such request. The entity is answered
/// only where the backend stored it and the event, if there was one to
/// publish, was published. The first failure on the way is the one that is
/// reported, the backend's before the publisher's. A failed publish fails the
/// request even where the backend has stored the entity; nothing is undone
/// then.
pub fn conclude_create<T, A>(
    stored: Result<T, String>,
    published: Option<Result<A, String>>,
) -> (r: Result<T, ServerError>)
    ensures
        r == (match (stored, published) {
            (Err(msg), _) => Err::<T, ServerError>(ServerError::InternalError(msg)),
            (Ok(_), Some(Err(msg))) => Err(ServerError::InternalError(msg)),
            (Ok(entity), _) => Ok(entity),
        }),
        published matches Some(Err(_)) ==> r is Err,
        r is Ok <==> stored is Ok && !(published matches Some(Err(_))),
{
    match stored {
        Err(msg) => Err(ServerError::InternalError(msg)),
        Ok(entity) => match published {
            Some(Err(msg)) => Err(ServerError::InternalError(msg)),
            _ => Ok(entity),
        },
    }
}

} // verus!
