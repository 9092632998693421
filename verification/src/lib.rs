//! Verified core of an e-commerce backend made of an API gateway, an order service,
//! a payment service, a notification service and a broker benchmark, which talk
//! through a topic exchange. This crate holds their decisions and data handling:
//! settings, request checks, authentication, order, payment and shipment rules,
//! notification texts and channels, the WebSocket client registry, and the benchmark's
//! statistics and report. Network, database and broker calls stay with the caller.

use vstd::prelude::*;

pub mod text;
pub mod number;
pub mod errors;
pub mod config;
pub mod slug;
pub mod hub;
pub mod events;
pub mod benchmark;
pub mod gateway;
pub mod broker;
pub mod orders;
pub mod payments;
pub mod notifications;

verus! {
}
