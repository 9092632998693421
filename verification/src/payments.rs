//! The payment service's logic: which provider charges an order, how each provider's
//! answer becomes an outcome, and what the service records and announces for it.

use vstd::prelude::*;

use crate::broker::{ConsumerAction, Disposition};
use crate::errors::AppError;
use crate::events::{PaymentFailedEvent, PaymentSuccessEvent};
use crate::number::{decimal, format_i64};
use crate::text::{
    ascii_upper_spec, concat2, concat3, owned, same_text, to_ascii_uppercase, trim_end_char,
    trim_end_char_spec,
};

verus! {

/// What a payment provider answered for a charge.
#[derive(Debug, Clone)]
pub enum PaymentProviderChargeOutcome {
    Success { provider: String, transaction_id: String },
    Failed { provider: String, reason: String },
}

/// The payment service's result for an order, as it is announced.
#[derive(Debug, Clone)]
pub enum PaymentProcessingResult {
    Success(PaymentSuccessEvent),
    Failed(PaymentFailedEvent),
}

/// How an order is charged.
#[derive(Debug, Clone)]
pub enum ChargeRoute {
    /// The built-in mock provider.
    Mock,
    /// An external provider's adapter, by name.
    Adapter(String),
}

/// The payment row that a result is stored as.
#[derive(Debug, Clone)]
pub struct PaymentRecord {
    pub order_id: i64,
    pub status: String,
    pub transaction_id: Option<String>,
}

impl PaymentProviderChargeOutcome {
    /// The provider that answered.
    pub open spec fn provider_spec(&self) -> Seq<char> {
        match self {
            PaymentProviderChargeOutcome::Success { provider, .. } => provider@,
            PaymentProviderChargeOutcome::Failed { provider, .. } => provider@,
        }
    }
}

/// The transaction id that a provider without its own issues: the provider in
/// capitals, `-TXN-`, the order id.
pub open spec fn local_transaction_id(provider: Seq<char>, order_id: i64) -> Seq<char> {
    ascii_upper_spec(provider) + "-TXN-"@ + decimal(order_id as int)
}

/// The route for the configured provider: `stripe` and `paypal` go through their
/// adapters, anything else through the mock.
pub fn charge_route(provider: &str) -> (res: ChargeRoute)
    ensures
        (provider@ == "stripe"@ || provider@ == "paypal"@) ==> (res matches ChargeRoute::Adapter(p)
            && p@ == provider@),
        !(provider@ == "stripe"@ || provider@ == "paypal"@) ==> res matches ChargeRoute::Mock,
{
    if same_text(provider, "stripe") {
        ChargeRoute::Adapter(owned("stripe"))
    } else if same_text(provider, "paypal") {
        ChargeRoute::Adapter(owned("paypal"))
    } else {
        ChargeRoute::Mock
    }
}

/// The mock provider's answer: it accepts amounts within the payment limit.
pub fn charge_mock(order_id: i64, within_limit: bool) -> (res: PaymentProviderChargeOutcome)
    ensures
        within_limit ==> (res matches PaymentProviderChargeOutcome::Success {
            provider,
            transaction_id,
        } && provider@ == "mock"@ && transaction_id@ == "MOCK-TXN-"@ + decimal(order_id as int)),
        !within_limit ==> (res matches PaymentProviderChargeOutcome::Failed { provider, reason }
            && provider@ == "mock"@ && reason@ == "Amount exceeds configured payment limit"@),
{
    if within_limit {
        let id = format_i64(order_id);
        PaymentProviderChargeOutcome::Success {
            provider: owned("mock"),
            transaction_id: concat2("MOCK-TXN-", id.as_str()),
        }
    } else {
        PaymentProviderChargeOutcome::Failed {
            provider: owned("mock"),
            reason: owned("Amount exceeds configured payment limit"),
        }
    }
}

/// An adapter's answer when it has no address to call: it accepts amounts within the
/// payment limit.
pub fn charge_without_adapter(provider: &str, order_id: i64, within_limit: bool) -> (res:
    PaymentProviderChargeOutcome)
    ensures
        within_limit ==> (res matches PaymentProviderChargeOutcome::Success {
            provider: p,
            transaction_id,
        } && p@ == provider@ && transaction_id@ == local_transaction_id(provider@, order_id)),
        !within_limit ==> (res matches PaymentProviderChargeOutcome::Failed { provider: p, reason }
            && p@ == provider@ && reason@ == provider@ + " adapter rejected amount"@),
{
    if within_limit {
        let upper = to_ascii_uppercase(provider);
        let id = format_i64(order_id);
        PaymentProviderChargeOutcome::Success {
            provider: owned(provider),
            transaction_id: concat3(upper.as_str(), "-TXN-", id.as_str()),
        }
    } else {
        PaymentProviderChargeOutcome::Failed {
            provider: owned(provider),
            reason: concat2(provider, " adapter rejected amount"),
        }
    }
}

/// The adapter's charge address under its base address.
pub fn charge_url(api_base_url: &str) -> (res: String)
    ensures
        res@ == trim_end_char_spec(api_base_url@, '/') + "/charge"@,
{
    let b = trim_end_char(api_base_url, '/');
    concat2(b.as_str(), "/charge")
}

/// An adapter that answered with an HTTP error status refused the charge.
pub fn charge_refused_by_status(provider: &str, status: &str) -> (res: PaymentProviderChargeOutcome)
    ensures
        res matches PaymentProviderChargeOutcome::Failed { provider: p, reason } && p@ == provider@
            && reason@ == provider@ + " adapter returned HTTP "@ + status@,
{
    PaymentProviderChargeOutcome::Failed {
        provider: owned(provider),
        reason: concat3(provider, " adapter returned HTTP ", status),
    }
}

/// The outcome that an adapter's reply describes; without an id or a reason in the
/// reply, the local transaction id or a generic reason stands in.
pub fn charge_from_reply(
    provider: &str,
    order_id: i64,
    approved: bool,
    transaction_id: Option<String>,
    reason: Option<String>,
) -> (res: PaymentProviderChargeOutcome)
    ensures
        approved ==> (res matches PaymentProviderChargeOutcome::Success {
            provider: p,
            transaction_id: t,
        } && p@ == provider@ && t@ == match transaction_id {
            Some(x) => x@,
            None => local_transaction_id(provider@, order_id),
        }),
        !approved ==> (res matches PaymentProviderChargeOutcome::Failed { provider: p, reason: r }
            && p@ == provider@ && r@ == match reason {
            Some(x) => x@,
            None => "Payment rejected by external provider"@,
        }),
{
    if approved {
        let t = match transaction_id {
            Some(x) => x,
            None => {
                let upper = to_ascii_uppercase(provider);
                let id = format_i64(order_id);
                concat3(upper.as_str(), "-TXN-", id.as_str())
            },
        };
        PaymentProviderChargeOutcome::Success { provider: owned(provider), transaction_id: t }
    } else {
        let r = match reason {
            Some(x) => x,
            None => owned("Payment rejected by external provider"),
        };
        PaymentProviderChargeOutcome::Failed { provider: owned(provider), reason: r }
    }
}

/// The error of an adapter call that could not be made, or whose reply could not be
/// read.
pub fn adapter_error(provider: &str, call_failed: bool, detail: &str) -> (res: AppError)
    ensures
        res matches AppError::Internal(m) && m@ == provider@ + (if call_failed {
            " adapter call failed: "@
        } else {
            " adapter response parse failed: "@
        }) + detail@,
{
    let middle = if call_failed {
        " adapter call failed: "
    } else {
        " adapter response parse failed: "
    };
    AppError::Internal(concat3(provider, middle, detail))
}

/// The announcement of a charge's outcome for an order.
pub fn processing_result(
    order_id: i64,
    user_id: i64,
    outcome: PaymentProviderChargeOutcome,
    sent_at_ms: i64,
) -> (res: PaymentProcessingResult)
    ensures
        match outcome {
            PaymentProviderChargeOutcome::Success { provider, transaction_id } => res
                == PaymentProcessingResult::Success(
                PaymentSuccessEvent { order_id, user_id, provider, transaction_id, sent_at_ms },
            ),
            PaymentProviderChargeOutcome::Failed { provider, reason } => res
                == PaymentProcessingResult::Failed(
                PaymentFailedEvent { order_id, user_id, provider, reason, sent_at_ms },
            ),
        },
        match res {
            PaymentProcessingResult::Success(e) => e.order_id == order_id && e.user_id == user_id
                && e.provider@ == outcome.provider_spec(),
            PaymentProcessingResult::Failed(e) => e.order_id == order_id && e.user_id == user_id
                && e.provider@ == outcome.provider_spec(),
        },
{
    match outcome {
        PaymentProviderChargeOutcome::Success { provider, transaction_id } => {
            PaymentProcessingResult::Success(
                PaymentSuccessEvent { order_id, user_id, provider, transaction_id, sent_at_ms },
            )
        },
        PaymentProviderChargeOutcome::Failed { provider, reason } => {
            PaymentProcessingResult::Failed(
                PaymentFailedEvent { order_id, user_id, provider, reason, sent_at_ms },
            )
        },
    }
}

/// The payment row stored for a result: `SUCCESS` with the transaction id, or
/// `FAILED` without one.
pub fn payment_record(result: &PaymentProcessingResult) -> (res: PaymentRecord)
    ensures
        match *result {
            PaymentProcessingResult::Success(e) => res.order_id == e.order_id && res.status@
                == "SUCCESS"@ && res.transaction_id == Some(e.transaction_id),
            PaymentProcessingResult::Failed(e) => res.order_id == e.order_id && res.status@
                == "FAILED"@ && res.transaction_id == None::<String>,
        },
{
    match result {
        PaymentProcessingResult::Success(e) => PaymentRecord {
            order_id: e.order_id,
            status: owned("SUCCESS"),
            transaction_id: Some(e.transaction_id.clone()),
        },
        PaymentProcessingResult::Failed(e) => PaymentRecord {
            order_id: e.order_id,
            status: owned("FAILED"),
            transaction_id: None,
        },
    }
}

/// The routing key that a result is announced under.
pub fn result_routing_key(result: &PaymentProcessingResult) -> (res: String)
    ensures
        result is Success ==> res@ == "payment.success"@,
        result is Failed ==> res@ == "payment.failed"@,
{
    match result {
        PaymentProcessingResult::Success(_) => owned("payment.success"),
        PaymentProcessingResult::Failed(_) => owned("payment.failed"),
    }
}

/// The steps of handling an order-created delivery in the payment service, after the
/// event was decoded.
#[derive(Debug, Clone, Copy, PartialEq, Eq)]
pub enum PaymentStep {
    /// Charge the order through the payment provider.
    Charge,
    /// Store the payment record.
    Record,
    /// Publish the payment's result to the broker.
    Publish,
}

/// The first step of handling a decoded order-created event.
pub fn payment_start() -> (res: ConsumerAction<PaymentStep>)
    ensures
        res == ConsumerAction::Do(PaymentStep::Charge),
{
    ConsumerAction::Do(PaymentStep::Charge)
}

/// What follows a step of handling a payment: the charge is recorded, then its result
/// published, and the delivery is acknowledged once both are done; a failure at any
/// step puts the delivery back on the queue.
pub fn payment_next(step: PaymentStep, succeeded: bool) -> (res: ConsumerAction<PaymentStep>)
    ensures
        !succeeded ==> res == ConsumerAction::<PaymentStep>::Settle(Disposition::Requeue),
        succeeded ==> res == match step {
            PaymentStep::Charge => ConsumerAction::Do(PaymentStep::Record),
            PaymentStep::Record => ConsumerAction::Do(PaymentStep::Publish),
            PaymentStep::Publish => ConsumerAction::Settle(Disposition::Ack),
        },
{
    if !succeeded {
        return ConsumerAction::Settle(Disposition::Requeue);
    }
    match step {
        PaymentStep::Charge => ConsumerAction::Do(PaymentStep::Record),
        PaymentStep::Record => ConsumerAction::Do(PaymentStep::Publish),
        PaymentStep::Publish => ConsumerAction::Settle(Disposition::Ack),
    }
}

} // verus!
