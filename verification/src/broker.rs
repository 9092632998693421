//! Decisions around the message broker: connection retries, the errors that broker
//! steps report, and whether a delivery is acknowledged or put back on its queue.

use vstd::prelude::*;

use crate::errors::AppError;
use crate::text::{concat2, concat3};

verus! {

/// How many times a service tries to reach the broker before it gives up.
pub const MAX_CONNECT_ATTEMPTS: u32 = 15;

/// What becomes of a delivery once a consumer has looked at it.
#[derive(Debug, Clone, Copy, PartialEq, Eq)]
pub enum Disposition {
    /// Acknowledge it: it is done with, or can never be handled.
    Ack,
    /// Refuse it and put it back on the queue, to be tried again.
    Requeue,
}

/// Whether another connection attempt follows the failed attempt number `attempt`
/// (counted from 1).
pub fn should_retry_connect(attempt: u32) -> (res: bool)
    ensures
        res == (attempt < MAX_CONNECT_ATTEMPTS),
{
    attempt < MAX_CONNECT_ATTEMPTS
}

/// The error after the last connection attempt failed, with the last failure's text.
pub fn connect_failure(last_error: &Option<String>) -> (res: AppError)
    ensures
        res matches AppError::Broker(m) && m@ == "Failed to connect to RabbitMQ after retries: "@
            + match *last_error {
            Some(e) => e@,
            None => "unknown error"@,
        },
{
    match last_error {
        Some(e) => AppError::Broker(concat2("Failed to connect to RabbitMQ after retries: ", e.as_str())),
        None => AppError::Broker(concat2("Failed to connect to RabbitMQ after retries: ", "unknown error")),
    }
}

/// A broker step that failed: `<context>: <cause>`.
pub fn broker_error(context: &str, cause: &str) -> (res: AppError)
    ensures
        res matches AppError::Broker(m) && m@ == context@ + ": "@ + cause@,
{
    AppError::Broker(concat3(context, ": ", cause))
}

/// A delivery whose payload cannot be decoded is acknowledged: retrying cannot help.
pub fn undecodable_disposition() -> (res: Disposition)
    ensures
        res == Disposition::Ack,
{
    Disposition::Ack
}

/// A delivery is acknowledged once its handling succeeded, and put back on the queue
/// when it failed.
pub fn disposition_after<T>(result: &Result<T, AppError>) -> (res: Disposition)
    ensures
        result is Ok ==> res == Disposition::Ack,
        result is Err ==> res == Disposition::Requeue,
{
    match result {
        Ok(_) => Disposition::Ack,
        Err(_) => Disposition::Requeue,
    }
}

/// What a consumer does next with a delivery it is handling: run a step of its
/// handling, settle it, or stop consuming with the failed step's error.
#[derive(Debug, Clone, Copy, PartialEq, Eq)]
pub enum ConsumerAction<S> {
    Do(S),
    Settle(Disposition),
    Stop,
}

} // verus!
