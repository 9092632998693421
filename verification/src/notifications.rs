//! The notification service's logic: the messages that clients, inboxes and phones
//! receive about an order, and which channel each goes through.

use vstd::prelude::*;

use crate::broker::{ConsumerAction, Disposition};
use crate::errors::AppError;
use crate::events::{OrderConfirmedEvent, PaymentFailedEvent};
use crate::number::{decimal, format_i64};
use crate::text::{concat2, concat3, opt_chars, owned, same_text, trim_end_char, trim_end_char_spec};

verus! {

/// The user that a notification goes to.
#[derive(Debug, Clone)]
pub struct UserNotificationContext {
    pub user_id: i64,
    pub email: String,
    pub full_name: Option<String>,
}

/// A status message pushed to WebSocket clients.
#[derive(Debug, Clone)]
pub struct WsOrderStatusMessage {
    pub event_type: String,
    pub order_id: i64,
    pub status: String,
    pub message: String,
}

/// The query of a WebSocket subscription.
#[derive(Debug, Clone, Copy)]
pub struct WsQuery {
    pub order_id: Option<i64>,
}

/// The subject and text of an e-mail.
#[derive(Debug, Clone)]
pub struct EmailContent {
    pub subject: String,
    pub body: String,
}

/// How an e-mail is sent.
#[derive(Debug, Clone)]
pub enum EmailRoute {
    /// Through the mail adapter at this address.
    Adapter { url: String },
    /// The adapter is chosen but has no address: the e-mail is only logged.
    LogOnly,
    /// The mock provider: the e-mail is only logged.
    Mock,
}

/// How a text message is sent.
#[derive(Debug, Clone)]
pub enum SmsRoute {
    /// Text messages are switched off.
    Disabled,
    /// The SMS adapter is chosen but there is no number to send to.
    MissingRecipient,
    /// The SMS adapter is chosen but there is no number to send from.
    MissingSender,
    /// The SMS adapter has no address: the message is only logged for this number.
    LogOnly { to: String },
    /// Through the SMS adapter at this address, between these numbers.
    Adapter { url: String, to: String, from: String },
    /// The mock provider: the message is only logged.
    Mock,
}

/// The kinds of messages that the notification service listens to.
#[derive(Debug, Clone, Copy, PartialEq, Eq)]
pub enum NotificationKind {
    OrderConfirmed,
    PaymentFailed,
    Other,
}

/// The order that a subscription watches: the one asked for, or `0` (every order).
pub fn subscription_order(query: WsQuery) -> (res: i64)
    ensures
        res == match query.order_id {
            Some(o) => o,
            None => 0,
        },
{
    match query.order_id {
        Some(o) => o,
        None => 0,
    }
}

/// The user to notify, from the stored email and name (absent for an unknown user).
pub fn user_context(user_id: i64, found: Option<(String, Option<String>)>) -> (res: Result<
    UserNotificationContext,
    AppError,
>)
    ensures
        match found {
            Some(row) => res == Ok::<UserNotificationContext, AppError>(
                UserNotificationContext { user_id, email: row.0, full_name: row.1 },
            ),
            None => (res matches Err(AppError::NotFound(m)) && m@ == "User "@ + decimal(
                user_id as int,
            ) + " not found"@),
        },
{
    match found {
        Some(row) => Ok(UserNotificationContext { user_id, email: row.0, full_name: row.1 }),
        None => {
            let id = format_i64(user_id);
            Err(AppError::NotFound(concat3("User ", id.as_str(), " not found")))
        },
    }
}

/// The kind of message that a routing key carries.
pub fn classify_notification(routing_key: &str) -> (res: NotificationKind)
    ensures
        routing_key@ == "order.confirmed"@ ==> res == NotificationKind::OrderConfirmed,
        routing_key@ == "payment.failed"@ ==> res == NotificationKind::PaymentFailed,
        routing_key@ != "order.confirmed"@ && routing_key@ != "payment.failed"@ ==> res
            == NotificationKind::Other,
{
    proof {
        reveal_strlit("order.confirmed");
        reveal_strlit("payment.failed");
        assert("order.confirmed"@[0] != "payment.failed"@[0]);
    }
    if same_text(routing_key, "order.confirmed") {
        NotificationKind::OrderConfirmed
    } else if same_text(routing_key, "payment.failed") {
        NotificationKind::PaymentFailed
    } else {
        NotificationKind::Other
    }
}

/// The client message for a confirmed order, with the tracking number when there is one.
pub open spec fn confirmed_ws_text(e: OrderConfirmedEvent) -> Seq<char> {
    match e.tracking_number {
        Some(t) => "Замовлення #"@ + decimal(e.order_id as int) + " підтверджено. Трекінг: "@
            + t@,
        None => "Замовлення #"@ + decimal(e.order_id as int) + " підтверджено"@,
    }
}

/// The text about a failed payment, for clients, inboxes and phones alike.
pub open spec fn payment_failed_text(e: PaymentFailedEvent) -> Seq<char> {
    "Оплата замовлення #"@ + decimal(e.order_id as int) + " неуспішна через "@ + e.provider@
        + ": "@ + e.reason@
}

/// The e-mail and SMS text for a confirmed order.
pub open spec fn confirmed_mail_text(e: OrderConfirmedEvent) -> Seq<char> {
    match e.tracking_number {
        Some(t) => "Ваше замовлення #"@ + decimal(e.order_id as int) + " підтверджено. Трекінг: "@
            + t@ + ". Посилання: "@ + match e.tracking_url {
            Some(u) => u@,
            None => "n/a"@,
        },
        None => "Ваше замовлення #"@ + decimal(e.order_id as int) + " підтверджено."@,
    }
}

/// The message pushed to clients when an order is confirmed.
pub fn order_confirmed_ws_message(event: &OrderConfirmedEvent) -> (res: WsOrderStatusMessage)
    ensures
        res.event_type@ == "order.confirmed"@,
        res.order_id == event.order_id,
        res.status == event.status,
        res.message@ == confirmed_ws_text(*event),
{
    let id = format_i64(event.order_id);
    let message = match &event.tracking_number {
        Some(t) => {
            let mut m = concat3("Замовлення #", id.as_str(), " підтверджено. Трекінг: ");
            m.append(t.as_str());
            m
        },
        None => concat3("Замовлення #", id.as_str(), " підтверджено"),
    };
    WsOrderStatusMessage {
        event_type: owned("order.confirmed"),
        order_id: event.order_id,
        status: event.status.clone(),
        message,
    }
}

/// The text about a failed payment.
fn payment_failed_message(event: &PaymentFailedEvent) -> (res: String)
    ensures
        res@ == payment_failed_text(*event),
{
    let id = format_i64(event.order_id);
    let mut m = concat3("Оплата замовлення #", id.as_str(), " неуспішна через ");
    m.append(event.provider.as_str());
    m.append(": ");
    m.append(event.reason.as_str());
    m
}

/// The message pushed to clients when a payment fails.
pub fn payment_failed_ws_message(event: &PaymentFailedEvent) -> (res: WsOrderStatusMessage)
    ensures
        res.event_type@ == "payment.failed"@,
        res.order_id == event.order_id,
        res.status@ == "FAILED"@,
        res.message@ == payment_failed_text(*event),
{
    WsOrderStatusMessage {
        event_type: owned("payment.failed"),
        order_id: event.order_id,
        status: owned("FAILED"),
        message: payment_failed_message(event),
    }
}

/// The e-mail sent when an order is confirmed; its text is also the SMS text.
pub fn order_confirmed_email(event: &OrderConfirmedEvent) -> (res: EmailContent)
    ensures
        res.subject@ == "Order #"@ + decimal(event.order_id as int) + " confirmed"@,
        res.body@ == confirmed_mail_text(*event),
{
    let id = format_i64(event.order_id);
    let subject = concat3("Order #", id.as_str(), " confirmed");
    let body = match &event.tracking_number {
        Some(t) => {
            let mut b = concat3("Ваше замовлення #", id.as_str(), " підтверджено. Трекінг: ");
            b.append(t.as_str());
            b.append(". Посилання: ");
            match &event.tracking_url {
                Some(u) => b.append(u.as_str()),
                None => b.append("n/a"),
            }
            b
        },
        None => concat3("Ваше замовлення #", id.as_str(), " підтверджено."),
    };
    EmailContent { subject, body }
}

/// The e-mail sent when a payment fails; its text is also the SMS text.
pub fn payment_failed_email(event: &PaymentFailedEvent) -> (res: EmailContent)
    ensures
        res.subject@ == "Order #"@ + decimal(event.order_id as int) + " payment failed"@,
        res.body@ == payment_failed_text(*event),
{
    let id = format_i64(event.order_id);
    EmailContent {
        subject: concat3("Order #", id.as_str(), " payment failed"),
        body: payment_failed_message(event),
    }
}

/// The channel for e-mails: the `sendgrid` adapter at `<base>/send-email` when it has
/// an address, a log line when it has none, the mock for any other provider.
pub fn email_route(provider: &str, api_base_url: &Option<String>) -> (res: EmailRoute)
    ensures
        provider@ == "sendgrid"@ && api_base_url is Some ==> (res matches EmailRoute::Adapter { url }
            && url@ == trim_end_char_spec(api_base_url->0@, '/') + "/send-email"@),
        provider@ == "sendgrid"@ && api_base_url is None ==> res matches EmailRoute::LogOnly,
        provider@ != "sendgrid"@ ==> res matches EmailRoute::Mock,
{
    if same_text(provider, "sendgrid") {
        match api_base_url {
            Some(base) => {
                let b = trim_end_char(base.as_str(), '/');
                EmailRoute::Adapter { url: concat2(b.as_str(), "/send-email") }
            },
            None => EmailRoute::LogOnly,
        }
    } else {
        EmailRoute::Mock
    }
}

/// The channel for text messages: none when `disabled`; for `twilio`, the adapter at
/// `<base>/send-sms` from the sender number to the fallback number, as far as those are
/// configured; the mock for any other provider.
pub fn sms_route(
    provider: &str,
    fallback_phone: &Option<String>,
    from_phone: &Option<String>,
    api_base_url: &Option<String>,
) -> (res: SmsRoute)
    ensures
        provider@ == "disabled"@ ==> res matches SmsRoute::Disabled,
        provider@ != "disabled"@ && provider@ != "twilio"@ ==> res matches SmsRoute::Mock,
        provider@ == "twilio"@ && fallback_phone is None ==> res matches SmsRoute::MissingRecipient,
        provider@ == "twilio"@ && fallback_phone is Some && from_phone is None ==> res matches SmsRoute::MissingSender,
        provider@ == "twilio"@ && fallback_phone is Some && from_phone is Some && api_base_url is None
            ==> (res matches SmsRoute::LogOnly { to } && to@ == fallback_phone->0@),
        provider@ == "twilio"@ && fallback_phone is Some && from_phone is Some && api_base_url is Some
            ==> (res matches SmsRoute::Adapter { url, to, from } && url@ == trim_end_char_spec(
            api_base_url->0@,
            '/',
        ) + "/send-sms"@ && to@ == fallback_phone->0@ && from@ == from_phone->0@),
{
    proof {
        reveal_strlit("disabled");
        reveal_strlit("twilio");
        assert("disabled"@[0] != "twilio"@[0]);
    }
    if same_text(provider, "disabled") {
        return SmsRoute::Disabled;
    }
    if !same_text(provider, "twilio") {
        return SmsRoute::Mock;
    }
    let to = match fallback_phone {
        Some(p) => p.clone(),
        None => return SmsRoute::MissingRecipient,
    };
    let from = match from_phone {
        Some(p) => p.clone(),
        None => return SmsRoute::MissingSender,
    };
    match api_base_url {
        Some(base) => {
            let b = trim_end_char(base.as_str(), '/');
            SmsRoute::Adapter { url: concat2(b.as_str(), "/send-sms"), to, from }
        },
        None => SmsRoute::LogOnly { to },
    }
}

/// The error of a notification adapter (`sendgrid`, `twilio`) whose call failed or
/// which answered with an error status.
pub fn adapter_failure(adapter: &str, call_failed: bool, detail: &str) -> (res: AppError)
    ensures
        res matches AppError::Internal(m) && m@ == adapter@ + (if call_failed {
            " adapter call failed: "@
        } else {
            " adapter returned HTTP "@
        }) + detail@,
{
    let middle = if call_failed {
        " adapter call failed: "
    } else {
        " adapter returned HTTP "
    };
    AppError::Internal(concat3(adapter, middle, detail))
}

/// The steps of handling a delivery to the notification service.
#[derive(Debug, Clone, Copy, PartialEq, Eq)]
pub enum NotificationStep {
    /// Read the event from the payload.
    Decode,
    /// Load the user that the event is about.
    LookupUser,
    /// Send the notification and push the status to the order's WebSocket clients.
    Deliver,
}

/// How handling a delivery of a kind begins: an event it listens to is decoded; any
/// other message is acknowledged and dropped.
pub fn notification_start(kind: NotificationKind) -> (res: ConsumerAction<NotificationStep>)
    ensures
        res == match kind {
            NotificationKind::Other => ConsumerAction::Settle(Disposition::Ack),
            _ => ConsumerAction::Do(NotificationStep::Decode),
        },
{
    match kind {
        NotificationKind::Other => ConsumerAction::Settle(Disposition::Ack),
        _ => ConsumerAction::Do(NotificationStep::Decode),
    }
}

/// What follows a step of handling a notification: an undecodable payload is
/// acknowledged, since retrying cannot help; a failed user lookup is put back on the
/// queue; a failed delivery stops the consumer with its error; a delivered
/// notification is acknowledged.
pub fn notification_next(step: NotificationStep, succeeded: bool) -> (res: ConsumerAction<
    NotificationStep,
>)
    ensures
        res == match (step, succeeded) {
            (NotificationStep::Decode, true) => ConsumerAction::Do(NotificationStep::LookupUser),
            (NotificationStep::Decode, false) => ConsumerAction::Settle(Disposition::Ack),
            (NotificationStep::LookupUser, true) => ConsumerAction::Do(NotificationStep::Deliver),
            (NotificationStep::LookupUser, false) => ConsumerAction::Settle(Disposition::Requeue),
            (NotificationStep::Deliver, true) => ConsumerAction::Settle(Disposition::Ack),
            (NotificationStep::Deliver, false) => ConsumerAction::Stop,
        },
{
    match step {
        NotificationStep::Decode => if succeeded {
            ConsumerAction::Do(NotificationStep::LookupUser)
        } else {
            ConsumerAction::Settle(Disposition::Ack)
        },
        NotificationStep::LookupUser => if succeeded {
            ConsumerAction::Do(NotificationStep::Deliver)
        } else {
            ConsumerAction::Settle(Disposition::Requeue)
        },
        NotificationStep::Deliver => if succeeded {
            ConsumerAction::Settle(Disposition::Ack)
        } else {
            ConsumerAction::Stop
        },
    }
}

} // verus!
