use cinemaabyss::config::ServiceConfig;
use cinemaabyss::switcher::distributed::Distributed;
use cinemaabyss::switcher::events::Events;
use cinemaabyss::switcher::monolith::Monolith;
use cinemaabyss::switcher::{
    collection_request, item_request, request_for, HealthProvider, Method, MovieProvider,
    Operation, PaymentProvider, SubscriptionProvider, UserProvider,
};
use cinemaabyss::text::{digit_str, push_decimal, push_id};

fn distributed() -> Distributed {
    Distributed::new(&ServiceConfig::new(
        "debug".to_string(),
        "127.0.0.1".to_string(),
        8000,
        "http://mono".to_string(),
        "http://movies".to_string(),
        "http://events".to_string(),
        "localhost:9092".to_string(),
        false,
        50,
    ))
}

#[test]
fn decimal_text_of_identifiers() {
    assert_eq!(push_id(String::new(), 0), "0");
    assert_eq!(push_id(String::new(), 7), "7");
    assert_eq!(push_id(String::new(), 10), "10");
    assert_eq!(push_id(String::new(), 999), "999");
    assert_eq!(push_id(String::new(), -1), "-1");
    assert_eq!(push_id(String::new(), -120), "-120");
    assert_eq!(push_id(String::new(), i32::MAX), "2147483647");
    assert_eq!(push_id(String::new(), i32::MIN), "-2147483648");
    assert_eq!(push_id("id=".to_string(), 42), "id=42");
}

#[test]
fn decimal_digits_of_naturals() {
    assert_eq!(push_decimal(String::new(), 0), "0");
    assert_eq!(push_decimal(String::new(), 1000), "1000");
    assert_eq!(push_decimal(String::new(), u64::MAX), "18446744073709551615");
    assert_eq!(push_decimal("x".to_string(), 90), "x90");
    assert_eq!(digit_str(0), "0");
    assert_eq!(digit_str(9), "9");
}

#[test]
fn identifiers_are_written_as_format_writes_them() {
    for id in [0, 1, -1, 9, 10, 11, 99, 100, 101, 12345, -98765, i32::MAX, i32::MIN] {
        assert_eq!(push_id(String::new(), id), format!("{}", id));
    }
}

#[test]
fn requests_join_base_and_path() {
    let r = collection_request(Method::Get, "http://host", "/api/movies");
    assert_eq!(r.method, Method::Get);
    assert_eq!(r.url, "http://host/api/movies");
    let r = item_request(Method::Delete, "http://host", "/api/users", -5);
    assert_eq!(r.method, Method::Delete);
    assert_eq!(r.url, "http://host/api/users/-5");
    let r = collection_request(Method::Post, "", "");
    assert_eq!(r.url, "");
}

#[test]
fn monolith_requests() {
    let m = Monolith::new("http://mono");
    assert_eq!(m.url(), "http://mono");
    assert_eq!(m.health().url, "http://mono/health");
    assert_eq!(m.health().method, Method::Get);
    assert_eq!(m.health_movie().url, "http://mono/health");
    assert_eq!(m.create_movie().url, "http://mono/api/movies");
    assert_eq!(m.create_movie().method, Method::Post);
    assert_eq!(m.get_movies().url, "http://mono/api/movies");
    assert_eq!(m.get_movies().method, Method::Get);
    assert_eq!(m.get_movie(1).url, "http://mono/api/movies/1");
    assert_eq!(m.delete_movie(1).method, Method::Delete);
    assert_eq!(m.create_user().url, "http://mono/api/users");
    assert_eq!(m.get_users().url, "http://mono/api/users");
    assert_eq!(m.get_user(22).url, "http://mono/api/users/22");
    assert_eq!(m.delete_user(22).url, "http://mono/api/users/22");
    assert_eq!(m.create_payment().url, "http://mono/api/payments");
    assert_eq!(m.get_payments().url, "http://mono/api/payments");
    assert_eq!(m.get_payment(333).url, "http://mono/api/payments/333");
    assert_eq!(m.delete_payment(333).method, Method::Delete);
    assert_eq!(m.create_subscription().url, "http://mono/api/subscriptions");
    assert_eq!(m.get_subscriptions().url, "http://mono/api/subscriptions");
    assert_eq!(m.get_subscription(4444).url, "http://mono/api/subscriptions/4444");
    assert_eq!(m.delete_subscription(4444).url, "http://mono/api/subscriptions/4444");
}

#[test]
fn distributed_requests() {
    let d = distributed();
    assert_eq!(d.health().url, "http://movies/health");
    assert_eq!(d.health_movie().url, "http://movies/health");
    assert_eq!(d.health_movie().method, Method::Get);
    assert_eq!(d.create_movie().url, "http://movies/api/movies");
    assert_eq!(d.get_movies().url, "http://movies/api/movies");
    assert_eq!(d.get_movie(999).url, "http://movies/api/movies/999");
    assert_eq!(d.get_movie(999).method, Method::Get);
    assert_eq!(d.delete_movie(999).url, "http://movies/api/movies/999");
    assert_eq!(d.delete_movie(999).method, Method::Delete);
    assert_eq!(d.create_user().method, Method::Post);
    assert_eq!(d.create_user().url, "http://movies/api/users");
    assert_eq!(d.get_users().url, "http://movies/api/users");
    assert_eq!(d.get_user(2).url, "http://movies/api/users/2");
    assert_eq!(d.delete_user(2).url, "http://movies/api/users/2");
    assert_eq!(d.create_payment().url, "http://movies/api/payments");
    assert_eq!(d.get_payments().url, "http://movies/api/payments");
    assert_eq!(d.get_payment(3).url, "http://movies/api/payments/3");
    assert_eq!(d.delete_payment(3).url, "http://movies/api/payments/3");
    assert_eq!(d.create_subscription().url, "http://movies/api/subscriptions");
    assert_eq!(d.get_subscriptions().url, "http://movies/api/subscriptions");
    assert_eq!(d.get_subscription(4).url, "http://movies/api/subscriptions/4");
    assert_eq!(d.delete_subscription(4).url, "http://movies/api/subscriptions/4");
}

#[test]
fn request_for_dispatches_every_operation() {
    let m = Monolith::new("b");
    let cases = vec![
        (Operation::HealthMovie, Method::Get, "b/health"),
        (Operation::CreateMovie, Method::Post, "b/api/movies"),
        (Operation::GetMovies, Method::Get, "b/api/movies"),
        (Operation::GetMovie(1), Method::Get, "b/api/movies/1"),
        (Operation::DeleteMovie(2), Method::Delete, "b/api/movies/2"),
        (Operation::CreateUser, Method::Post, "b/api/users"),
        (Operation::GetUsers, Method::Get, "b/api/users"),
        (Operation::GetUser(3), Method::Get, "b/api/users/3"),
        (Operation::DeleteUser(4), Method::Delete, "b/api/users/4"),
        (Operation::CreatePayment, Method::Post, "b/api/payments"),
        (Operation::GetPayments, Method::Get, "b/api/payments"),
        (Operation::GetPayment(5), Method::Get, "b/api/payments/5"),
        (Operation::DeletePayment(6), Method::Delete, "b/api/payments/6"),
        (Operation::CreateSubscription, Method::Post, "b/api/subscriptions"),
        (Operation::GetSubscriptions, Method::Get, "b/api/subscriptions"),
        (Operation::GetSubscription(7), Method::Get, "b/api/subscriptions/7"),
        (Operation::DeleteSubscription(8), Method::Delete, "b/api/subscriptions/8"),
    ];
    for (op, method, url) in cases {
        let r = request_for(&m, op);
        assert_eq!(r.method, method);
        assert_eq!(r.url, url);
    }
}

#[test]
fn events_adapter_requests() {
    let e = Events::new("http://events");
    assert_eq!(e.health_events().method, Method::Get);
    assert_eq!(e.health_events().url, "http://events/api/events/health");
    assert_eq!(e.create_movie().method, Method::Post);
    assert_eq!(e.create_movie().url, "http://events/api/events/movie");
    assert_eq!(e.create_user().url, "http://events/api/events/user");
    assert_eq!(e.create_payment().url, "http://events/api/events/payment");
}

#[test]
fn config_keeps_what_it_was_given() {
    let c = ServiceConfig::new(
        "trace".to_string(),
        "0.0.0.0".to_string(),
        8080,
        "http://mono".to_string(),
        "http://movies".to_string(),
        "http://events".to_string(),
        "kafka:9092".to_string(),
        true,
        25,
    );
    assert_eq!(c.logger(), "trace");
    assert_eq!(c.address(), "0.0.0.0");
    assert_eq!(c.port(), 8080);
    assert_eq!(c.monolith_url(), "http://mono");
    assert_eq!(c.movies_service_url(), "http://movies");
    assert_eq!(c.events_service_url(), "http://events");
    assert_eq!(c.kafka_brokers(), "kafka:9092");
    assert!(c.gradual_migration());
    assert_eq!(c.movies_migration_percent(), 25);
}
