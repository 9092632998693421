//! The order service's logic: who may see an order, when a status change happens,
//! how a shipment is arranged, and what the service announces when an order is paid.

use vstd::prelude::*;

use crate::errors::AppError;
use crate::events::OrderConfirmedEvent;
use crate::number::{decimal, format_i64};
use crate::text::{
    ascii_lower_spec, ascii_upper_spec, concat2, concat3, concat4, owned, same_text,
    to_ascii_lowercase, to_ascii_uppercase, trim_end_char, trim_end_char_spec,
};

verus! {

/// The number of orders, for administrators.
#[derive(Debug, Clone, Copy)]
pub struct AdminOrderSummaryResponse {
    pub total_orders: i64,
}

/// How a confirmed order ships.
#[derive(Debug, Clone)]
pub struct ShipmentInfo {
    pub provider: String,
    pub tracking_number: String,
    pub tracking_url: Option<String>,
}

/// What arranging a shipment takes.
#[derive(Debug, Clone)]
pub enum ShipmentPlan {
    /// No carrier call: the shipment is made up locally.
    Local(ShipmentInfo),
    /// A call to the carrier's API at this address.
    Carrier { url: String },
}

/// Why a carrier call failed.
#[derive(Debug, Clone, Copy, PartialEq, Eq)]
pub enum CarrierFailure {
    CallFailed,
    HttpStatus,
    BadReply,
}

/// The tracking number of a made-up shipment: the provider in capitals, `-TTN-`, the
/// order id.
pub open spec fn mock_tracking_number(provider: Seq<char>, order_id: i64) -> Seq<char> {
    ascii_upper_spec(provider) + "-TTN-"@ + decimal(order_id as int)
}

/// The tracking address of a made-up shipment.
pub open spec fn mock_tracking_url(provider: Seq<char>, order_id: i64) -> Seq<char> {
    "https://tracking.local/"@ + ascii_lower_spec(provider) + "/"@ + decimal(order_id as int)
}

/// A shipment made up locally for `provider`, tracked under the order's id.
pub fn mock_shipment(provider: &str, order_id: i64) -> (res: ShipmentInfo)
    ensures
        res.provider@ == provider@,
        res.tracking_number@ == mock_tracking_number(provider@, order_id),
        res.tracking_url matches Some(u) && u@ == mock_tracking_url(provider@, order_id),
{
    let id = format_i64(order_id);
    let upper = to_ascii_uppercase(provider);
    let lower = to_ascii_lowercase(provider);
    ShipmentInfo {
        provider: owned(provider),
        tracking_number: concat3(upper.as_str(), "-TTN-", id.as_str()),
        tracking_url: Some(concat4("https://tracking.local/", lower.as_str(), "/", id.as_str())),
    }
}

/// The carriers whose API the service can call.
pub open spec fn is_carrier(provider: Seq<char>) -> bool {
    provider == "novaposhta"@ || provider == "dhl"@
}

/// How to ship an order: through the carrier's API when the provider is a carrier
/// with a configured address; a made-up shipment under the carrier's name when it has
/// none; a made-up `mock` shipment for any other provider.
pub fn plan_shipment(provider: &str, api_base_url: &Option<String>, order_id: i64) -> (res:
    ShipmentPlan)
    ensures
        is_carrier(provider@) && api_base_url is Some ==> (res matches ShipmentPlan::Carrier { url }
            && url@ == trim_end_char_spec(api_base_url->0@, '/') + "/shipments"@),
        is_carrier(provider@) && api_base_url is None ==> (res matches ShipmentPlan::Local(s)
            && s.provider@ == provider@ && s.tracking_number@ == mock_tracking_number(
            provider@,
            order_id,
        ) && (s.tracking_url matches Some(u) && u@ == mock_tracking_url(provider@, order_id))),
        !is_carrier(provider@) ==> (res matches ShipmentPlan::Local(s) && s.provider@ == "mock"@
            && s.tracking_number@ == mock_tracking_number("mock"@, order_id) && (s.tracking_url matches Some(u)
            && u@ == mock_tracking_url("mock"@, order_id))),
        (res is Carrier) == ((provider@ == "novaposhta"@ || provider@ == "dhl"@)
            && api_base_url is Some),
        res matches ShipmentPlan::Local(s) ==> (s.provider@ == "mock"@ || s.provider@ == "novaposhta"@
            || s.provider@ == "dhl"@),
        res matches ShipmentPlan::Local(s) ==> (s.provider@ == "mock"@ <==> (provider@
            != "novaposhta"@ && provider@ != "dhl"@)),
{
    proof {
        reveal_strlit("mock");
        reveal_strlit("novaposhta");
        reveal_strlit("dhl");
    }
    if same_text(provider, "novaposhta") || same_text(provider, "dhl") {
        match api_base_url {
            Some(base) => {
                let b = trim_end_char(base.as_str(), '/');
                ShipmentPlan::Carrier { url: concat2(b.as_str(), "/shipments") }
            },
            None => ShipmentPlan::Local(mock_shipment(provider, order_id)),
        }
    } else {
        ShipmentPlan::Local(mock_shipment("mock", order_id))
    }
}

/// The shipment that a carrier's reply describes; without a tracking number from the
/// carrier, the number is the provider in capitals, `-`, the order id.
pub fn shipment_from_carrier(
    provider: &str,
    order_id: i64,
    tracking_number: Option<String>,
    tracking_url: Option<String>,
) -> (res: ShipmentInfo)
    ensures
        res.provider@ == provider@,
        res.tracking_number@ == match tracking_number {
            Some(t) => t@,
            None => ascii_upper_spec(provider@) + "-"@ + decimal(order_id as int),
        },
        res.tracking_url == tracking_url,
{
    let number = match tracking_number {
        Some(t) => t,
        None => {
            let upper = to_ascii_uppercase(provider);
            let id = format_i64(order_id);
            concat3(upper.as_str(), "-", id.as_str())
        },
    };
    ShipmentInfo { provider: owned(provider), tracking_number: number, tracking_url }
}

/// The error of a failed carrier call, naming the provider and the cause.
pub fn carrier_error(provider: &str, failure: CarrierFailure, detail: &str) -> (res: AppError)
    ensures
        res matches AppError::Internal(m) && m@ == provider@ + match failure {
            CarrierFailure::CallFailed => " logistics call failed: "@,
            CarrierFailure::HttpStatus => " logistics returned HTTP "@,
            CarrierFailure::BadReply => " logistics response parse failed: "@,
        } + detail@,
{
    let middle = match failure {
        CarrierFailure::CallFailed => " logistics call failed: ",
        CarrierFailure::HttpStatus => " logistics returned HTTP ",
        CarrierFailure::BadReply => " logistics response parse failed: ",
    };
    AppError::Internal(concat3(provider, middle, detail))
}

/// An order needs a positive amount.
pub fn check_order_amount(amount_is_positive: bool) -> (res: Result<(), AppError>)
    ensures
        amount_is_positive ==> res == Ok::<(), AppError>(()),
        !amount_is_positive ==> (res matches Err(AppError::BadRequest(m)) && m@
            == "Amount must be greater than 0"@),
{
    if amount_is_positive {
        Ok(())
    } else {
        Err(AppError::BadRequest(owned("Amount must be greater than 0")))
    }
}

/// Only the owner of an order may see it.
pub fn authorize_order_owner(order_user_id: i64, user_id: i64) -> (res: Result<(), AppError>)
    ensures
        order_user_id == user_id ==> res == Ok::<(), AppError>(()),
        order_user_id != user_id ==> res == Err::<(), AppError>(AppError::Unauthorized),
{
    if order_user_id != user_id {
        Err(AppError::Unauthorized)
    } else {
        Ok(())
    }
}

/// The error for an order id that no order has.
pub fn order_not_found(order_id: i64) -> (res: AppError)
    ensures
        res matches AppError::NotFound(m) && m@ == "Order "@ + decimal(order_id as int)
            + " not found"@,
{
    let id = format_i64(order_id);
    AppError::NotFound(concat3("Order ", id.as_str(), " not found"))
}

/// Setting an order's status to `new_status`: the status it then has, and whether it
/// changed (only a change is recorded in the status history and announced).
pub open spec fn status_update(current_status: Seq<char>, new_status: Seq<char>) -> (Seq<char>, bool) {
    (new_status, current_status != new_status)
}

/// Whether setting an order's status to `new_status` changes it.
pub fn status_change_needed(current_status: &str, new_status: &str) -> (res: bool)
    ensures
        res == status_update(current_status@, new_status@).1,
        res == (current_status@ != new_status@),
{
    !same_text(current_status, new_status)
}

/// Law: a status update changes the order exactly when the new status differs from the
/// current one, whatever the two statuses are (a failed payment moves a pending order
/// to `FAILED` as a success moves it to `CONFIRMED`), and the order then has the new
/// status.
pub proof fn status_update_changes_exactly_a_different_status(
    current_status: Seq<char>,
    new_status: Seq<char>,
)
    ensures
        status_update(current_status, new_status).1 <==> current_status != new_status,
        status_update(current_status, new_status).0 == new_status,
        status_update(current_status, current_status) == (current_status, false),
{
}

/// Law: the providers called through their API are exactly Nova Poshta and DHL; every
/// other provider ships as `mock`.
pub proof fn carriers_are_novaposhta_and_dhl(provider: Seq<char>)
    ensures
        is_carrier("novaposhta"@),
        is_carrier("dhl"@),
        is_carrier(provider) <==> (provider == "novaposhta"@ || provider == "dhl"@),
{
}

/// Law: a status update repeated with the same status changes nothing, so a second
/// payment success for a confirmed order announces no second confirmation.
pub proof fn repeated_status_update_is_skipped(current_status: Seq<char>, new_status: Seq<char>)
    ensures
        !status_update(status_update(current_status, new_status).0, new_status).1,
        status_update(status_update(current_status, new_status).0, new_status).0 == new_status,
{
}

/// The announcement that an order is confirmed, with its shipment.
pub fn order_confirmed_event(
    order_id: i64,
    user_id: i64,
    status: String,
    shipment: ShipmentInfo,
    sent_at_ms: i64,
) -> (res: OrderConfirmedEvent)
    ensures
        res.order_id == order_id,
        res.user_id == user_id,
        res.status == status,
        res.logistics_provider == Some(shipment.provider),
        res.tracking_number == Some(shipment.tracking_number),
        res.tracking_url == shipment.tracking_url,
        res.sent_at_ms == sent_at_ms,
{
    OrderConfirmedEvent {
        order_id,
        user_id,
        status,
        logistics_provider: Some(shipment.provider),
        tracking_number: Some(shipment.tracking_number),
        tracking_url: shipment.tracking_url,
        sent_at_ms,
    }
}

/// The kinds of payment messages that the order service listens to.
#[derive(Debug, Clone, Copy, PartialEq, Eq)]
pub enum PaymentEventKind {
    Succeeded,
    Failed,
    Other,
}

/// The kind of payment message that a routing key carries.
pub fn classify_payment_event(routing_key: &str) -> (res: PaymentEventKind)
    ensures
        routing_key@ == "payment.success"@ ==> res == PaymentEventKind::Succeeded,
        routing_key@ == "payment.failed"@ ==> res == PaymentEventKind::Failed,
        routing_key@ != "payment.success"@ && routing_key@ != "payment.failed"@ ==> res
            == PaymentEventKind::Other,
{
    proof {
        reveal_strlit("payment.success");
        reveal_strlit("payment.failed");
        assert("payment.success"@[8] != "payment.failed"@[8]);
    }
    if same_text(routing_key, "payment.success") {
        PaymentEventKind::Succeeded
    } else if same_text(routing_key, "payment.failed") {
        PaymentEventKind::Failed
    } else {
        PaymentEventKind::Other
    }
}

} // verus!
