//! The messages that the services exchange through the broker, and the clock that
//! stamps them.

use vstd::prelude::*;

verus! {

/// The current time in milliseconds since the Unix epoch (`chrono::Utc::now`).
/// Nothing is promised of the value: it is the clock's.
#[verifier::external_body]
pub fn now_millis() -> (res: i64) {
    chrono::Utc::now().timestamp_millis()
}

/// A payment went through.
#[derive(Debug, Clone)]
pub struct PaymentSuccessEvent {
    pub order_id: i64,
    pub user_id: i64,
    pub provider: String,
    pub transaction_id: String,
    pub sent_at_ms: i64,
}

/// A payment was refused.
#[derive(Debug, Clone)]
pub struct PaymentFailedEvent {
    pub order_id: i64,
    pub user_id: i64,
    pub provider: String,
    pub reason: String,
    pub sent_at_ms: i64,
}

/// An order was confirmed and handed to a carrier.
#[derive(Debug, Clone)]
pub struct OrderConfirmedEvent {
    pub order_id: i64,
    pub user_id: i64,
    pub status: String,
    pub logistics_provider: Option<String>,
    pub tracking_number: Option<String>,
    pub tracking_url: Option<String>,
    pub sent_at_ms: i64,
}

/// One message of the serialization benchmark.
#[derive(Debug, Clone)]
pub struct BenchmarkEvent {
    pub event_id: String,
    pub sequence: i64,
    pub sent_at_ms: i64,
    pub payload: String,
}

impl BenchmarkEvent {
    /// A benchmark message stamped with the current time.
    pub fn new(event_id: String, sequence: i64, payload: String) -> (res: Self)
        ensures
            res.event_id == event_id,
            res.sequence == sequence,
            res.payload == payload,
    {
        BenchmarkEvent { event_id, sequence, payload, sent_at_ms: now_millis() }
    }
}

} // verus!
