//! The settings of a service: read once when the process starts, never changed.

use vstd::prelude::*;

verus! {

/// The settings of the gateway and of the relay.
#[derive(Clone, Debug)]
pub struct ServiceConfig {
    logger: String,
    address: String,
    port: u16,
    monolith_url: String,
    movies_service_url: String,
    events_service_url: String,
    kafka_brokers: String,
    gradual_migration: bool,
    movies_migration_percent: u32,
}

/// What a [`ServiceConfig`] holds.
pub struct ServiceConfigView {
    pub logger: Seq<char>,
    pub address: Seq<char>,
    pub port: u16,
    pub monolith_url: Seq<char>,
    pub movies_service_url: Seq<char>,
    pub events_service_url: Seq<char>,
    pub kafka_brokers: Seq<char>,
    pub gradual_migration: bool,
    pub movies_migration_percent: u32,
}

impl View for ServiceConfig {
    type V = ServiceConfigView;

    closed spec fn view(&self) -> ServiceConfigView {
        ServiceConfigView {
            logger: self.logger@,
            address: self.address@,
            port: self.port,
            monolith_url: self.monolith_url@,
            movies_service_url: self.movies_service_url@,
            events_service_url: self.events_service_url@,
            kafka_brokers: self.kafka_brokers@,
            gradual_migration: self.gradual_migration,
            movies_migration_percent: self.movies_migration_percent,
        }
    }
}

impl ServiceConfig {
    /// The settings with the given values, as they were read from the
    /// process's sources.
    pub fn new(
        logger: String,
        address: String,
        port: u16,
        monolith_url: String,
        movies_service_url: String,
        events_service_url: String,
        kafka_brokers: String,
        gradual_migration: bool,
        movies_migration_percent: u32,
    ) -> (c: ServiceConfig)
        ensures
            c@ == (ServiceConfigView {
                logger: logger@,
                address: address@,
                port,
                monolith_url: monolith_url@,
                movies_service_url: movies_service_url@,
                events_service_url: events_service_url@,
                kafka_brokers: kafka_brokers@,
                gradual_migration,
                movies_migration_percent,
            }),
    {
        ServiceConfig {
            logger,
            address,
            port,
            monolith_url,
            movies_service_url,
            events_service_url,
            kafka_brokers,
            gradual_migration,
            movies_migration_percent,
        }
    }

    /// The log level.
    pub fn logger(&self) -> (r: &String)
        ensures
            r@ == self@.logger,
    {
        &self.logger
    }

    /// The address that the service binds to.
    pub fn address(&self) -> (r: &String)
        ensures
            r@ == self@.address,
    {
        &self.address
    }

    /// The port that the service binds to.
    pub fn port(&self) -> (r: u16)
        ensures
            r == self@.port,
    {
        self.port
    }

    /// The base address of the legacy backend.
    pub fn monolith_url(&self) -> (r: &String)
        ensures
            r@ == self@.monolith_url,
    {
        &self.monolith_url
    }

    /// The base address of the distributed backend.
    pub fn movies_service_url(&self) -> (r: &String)
        ensures
            r@ == self@.movies_service_url,
    {
        &self.movies_service_url
    }

    /// The base address of the event relay.
    pub fn events_service_url(&self) -> (r: &String)
        ensures
            r@ == self@.events_service_url,
    {
        &self.events_service_url
    }

    /// The connection string of the message log's brokers.
    pub fn kafka_brokers(&self) -> (r: &String)
        ensures
            r@ == self@.kafka_brokers,
    {
        &self.kafka_brokers
    }

    /// Whether traffic is split between the backends at all.
    pub fn gradual_migration(&self) -> (r: bool)
        ensures
            r == self@.gradual_migration,
    {
        self.gradual_migration
    }

    /// The migration percentage that the traffic switch compares a draw with.
    pub fn movies_migration_percent(&self) -> (r: u32)
        ensures
            r == self@.movies_migration_percent,
    {
        self.movies_migration_percent
    }
}

} // verus!
