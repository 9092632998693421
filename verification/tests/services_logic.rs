use pulse_commerce::broker::{
    broker_error, connect_failure, disposition_after, should_retry_connect,
    undecodable_disposition, Disposition, MAX_CONNECT_ATTEMPTS,
};
use pulse_commerce::errors::AppError;
use pulse_commerce::events::{OrderConfirmedEvent, PaymentFailedEvent};
use pulse_commerce::notifications::{
    adapter_failure, classify_notification, email_route, order_confirmed_email,
    order_confirmed_ws_message, payment_failed_email, payment_failed_ws_message, sms_route,
    subscription_order, user_context, EmailRoute, NotificationKind, SmsRoute, WsQuery,
};
use pulse_commerce::orders::{
    authorize_order_owner, carrier_error, check_order_amount, classify_payment_event,
    mock_shipment, order_confirmed_event, order_not_found, plan_shipment, shipment_from_carrier,
    status_change_needed, CarrierFailure, PaymentEventKind, ShipmentPlan,
};
use pulse_commerce::payments::{
    adapter_error, charge_from_reply, charge_mock, charge_refused_by_status, charge_route,
    charge_url, charge_without_adapter, payment_record, processing_result, result_routing_key,
    ChargeRoute, PaymentProcessingResult, PaymentProviderChargeOutcome,
};

#[test]
fn error_messages_and_answers() {
    assert_eq!(AppError::Unauthorized.message(), "Unauthorized");
    assert_eq!(AppError::BadRequest("x".into()).message(), "Bad request: x");
    assert_eq!(AppError::NotFound("y".into()).response_parts(), (404, "Not found: y".to_string()));
    assert_eq!(AppError::Unauthorized.response_parts(), (401, "Unauthorized".to_string()));
    assert_eq!(
        AppError::Database("pool down".into()).response_parts(),
        (500, "An internal server error occurred. Please try again later.".to_string())
    );
    assert_eq!(AppError::Broker("b".into()).message(), "Broker error: b");
    assert!(AppError::Internal("i".into()).is_internal());
    assert!(!AppError::BadRequest("i".into()).is_internal());
}

#[test]
fn broker_decisions() {
    assert_eq!(MAX_CONNECT_ATTEMPTS, 15);
    assert!(should_retry_connect(14));
    assert!(!should_retry_connect(15));
    assert_eq!(
        connect_failure(&None),
        AppError::Broker("Failed to connect to RabbitMQ after retries: unknown error".into())
    );
    assert_eq!(
        connect_failure(&Some("refused".into())),
        AppError::Broker("Failed to connect to RabbitMQ after retries: refused".into())
    );
    assert_eq!(broker_error("Failed to create channel", "closed"), AppError::Broker("Failed to create channel: closed".into()));
    assert_eq!(undecodable_disposition(), Disposition::Ack);
    assert_eq!(disposition_after::<()>(&Ok(())), Disposition::Ack);
    assert_eq!(disposition_after::<()>(&Err(AppError::Unauthorized)), Disposition::Requeue);
}

#[test]
fn mock_shipments() {
    let s = mock_shipment("NovaPoshta", 42);
    assert_eq!(s.provider, "NovaPoshta");
    assert_eq!(s.tracking_number, "NOVAPOSHTA-TTN-42");
    assert_eq!(s.tracking_url.as_deref(), Some("https://tracking.local/novaposhta/42"));
}

#[test]
fn shipment_plans() {
    match plan_shipment("dhl", &Some("http://dhl.api//".into()), 7) {
        ShipmentPlan::Carrier { url } => assert_eq!(url, "http://dhl.api/shipments"),
        other => panic!("unexpected {other:?}"),
    }
    match plan_shipment("dhl", &None, 7) {
        ShipmentPlan::Local(s) => {
            assert_eq!(s.provider, "dhl");
            assert_eq!(s.tracking_number, "DHL-TTN-7");
            assert_eq!(s.tracking_url.as_deref(), Some("https://tracking.local/dhl/7"));
        }
        other => panic!("unexpected {other:?}"),
    }
    match plan_shipment("ups", &Some("http://x".into()), 7) {
        ShipmentPlan::Local(s) => {
            assert_eq!(s.provider, "mock");
            assert_eq!(s.tracking_number, "MOCK-TTN-7");
            assert_eq!(s.tracking_url.as_deref(), Some("https://tracking.local/mock/7"));
        }
        other => panic!("unexpected {other:?}"),
    }
    let s = shipment_from_carrier("dhl", 8, None, Some("u".into()));
    assert_eq!((s.tracking_number.as_str(), s.tracking_url.as_deref()), ("DHL-8", Some("u")));
    assert_eq!(shipment_from_carrier("dhl", 8, Some("T1".into()), None).tracking_number, "T1");
    assert_eq!(
        carrier_error("dhl", CarrierFailure::HttpStatus, "502 Bad Gateway"),
        AppError::Internal("dhl logistics returned HTTP 502 Bad Gateway".into())
    );
}

#[test]
fn order_rules() {
    assert_eq!(check_order_amount(true), Ok(()));
    assert_eq!(check_order_amount(false), Err(AppError::BadRequest("Amount must be greater than 0".into())));
    assert_eq!(authorize_order_owner(1, 1), Ok(()));
    assert_eq!(authorize_order_owner(1, 2), Err(AppError::Unauthorized));
    assert_eq!(order_not_found(9), AppError::NotFound("Order 9 not found".into()));
    assert!(status_change_needed("PENDING", "CONFIRMED"));
    assert!(!status_change_needed("CONFIRMED", "CONFIRMED"));
    assert_eq!(classify_payment_event("payment.success"), PaymentEventKind::Succeeded);
    assert_eq!(classify_payment_event("payment.failed"), PaymentEventKind::Failed);
    assert_eq!(classify_payment_event("order.created"), PaymentEventKind::Other);
    let e = order_confirmed_event(1, 2, "CONFIRMED".into(), mock_shipment("mock", 1), 5);
    assert_eq!(e.tracking_number.as_deref(), Some("MOCK-TTN-1"));
    assert_eq!(e.logistics_provider.as_deref(), Some("mock"));
    assert_eq!(e.sent_at_ms, 5);
}

#[test]
fn payment_rules() {
    assert!(matches!(charge_route("stripe"), ChargeRoute::Adapter(p) if p == "stripe"));
    assert!(matches!(charge_route("paypal"), ChargeRoute::Adapter(p) if p == "paypal"));
    assert!(matches!(charge_route("mock"), ChargeRoute::Mock));
    match charge_mock(12, true) {
        PaymentProviderChargeOutcome::Success { provider, transaction_id } => {
            assert_eq!((provider.as_str(), transaction_id.as_str()), ("mock", "MOCK-TXN-12"))
        }
        other => panic!("unexpected {other:?}"),
    }
    match charge_mock(12, false) {
        PaymentProviderChargeOutcome::Failed { reason, .. } => {
            assert_eq!(reason, "Amount exceeds configured payment limit")
        }
        other => panic!("unexpected {other:?}"),
    }
    match charge_without_adapter("stripe", 3, true) {
        PaymentProviderChargeOutcome::Success { transaction_id, .. } => assert_eq!(transaction_id, "STRIPE-TXN-3"),
        other => panic!("unexpected {other:?}"),
    }
    match charge_without_adapter("paypal", 3, false) {
        PaymentProviderChargeOutcome::Failed { reason, .. } => assert_eq!(reason, "paypal adapter rejected amount"),
        other => panic!("unexpected {other:?}"),
    }
    assert_eq!(charge_url("http://pay/"), "http://pay/charge");
    match charge_refused_by_status("stripe", "402 Payment Required") {
        PaymentProviderChargeOutcome::Failed { reason, .. } => {
            assert_eq!(reason, "stripe adapter returned HTTP 402 Payment Required")
        }
        other => panic!("unexpected {other:?}"),
    }
    match charge_from_reply("stripe", 4, true, None, None) {
        PaymentProviderChargeOutcome::Success { transaction_id, .. } => assert_eq!(transaction_id, "STRIPE-TXN-4"),
        other => panic!("unexpected {other:?}"),
    }
    match charge_from_reply("stripe", 4, false, None, None) {
        PaymentProviderChargeOutcome::Failed { reason, .. } => {
            assert_eq!(reason, "Payment rejected by external provider")
        }
        other => panic!("unexpected {other:?}"),
    }
    assert_eq!(adapter_error("stripe", true, "timeout"), AppError::Internal("stripe adapter call failed: timeout".into()));
    let r = processing_result(7, 8, charge_mock(7, true), 100);
    match &r {
        PaymentProcessingResult::Success(e) => {
            assert_eq!((e.order_id, e.user_id, e.transaction_id.as_str(), e.sent_at_ms), (7, 8, "MOCK-TXN-7", 100))
        }
        _ => panic!("expected success"),
    }
    let rec = payment_record(&r);
    assert_eq!((rec.order_id, rec.status.as_str(), rec.transaction_id.as_deref()), (7, "SUCCESS", Some("MOCK-TXN-7")));
    assert_eq!(result_routing_key(&r), "payment.success");
    let f = processing_result(7, 8, charge_mock(7, false), 100);
    let rec = payment_record(&f);
    assert_eq!((rec.status.as_str(), rec.transaction_id), ("FAILED", None));
    assert_eq!(result_routing_key(&f), "payment.failed");
}

fn confirmed(tracking: Option<&str>, url: Option<&str>) -> OrderConfirmedEvent {
    OrderConfirmedEvent {
        order_id: 5,
        user_id: 6,
        status: "CONFIRMED".into(),
        logistics_provider: Some("mock".into()),
        tracking_number: tracking.map(|s| s.to_string()),
        tracking_url: url.map(|s| s.to_string()),
        sent_at_ms: 1,
    }
}

#[test]
fn notification_texts() {
    let m = order_confirmed_ws_message(&confirmed(Some("MOCK-TTN-5"), None));
    assert_eq!(m.event_type, "order.confirmed");
    assert_eq!(m.status, "CONFIRMED");
    assert_eq!(m.message, "Замовлення #5 підтверджено. Трекінг: MOCK-TTN-5");
    assert_eq!(order_confirmed_ws_message(&confirmed(None, None)).message, "Замовлення #5 підтверджено");
    let e = order_confirmed_email(&confirmed(Some("T"), None));
    assert_eq!(e.subject, "Order #5 confirmed");
    assert_eq!(e.body, "Ваше замовлення #5 підтверджено. Трекінг: T. Посилання: n/a");
    assert_eq!(order_confirmed_email(&confirmed(Some("T"), Some("u"))).body, "Ваше замовлення #5 підтверджено. Трекінг: T. Посилання: u");
    assert_eq!(order_confirmed_email(&confirmed(None, None)).body, "Ваше замовлення #5 підтверджено.");
    let failed = PaymentFailedEvent { order_id: 5, user_id: 6, provider: "mock".into(), reason: "limit".into(), sent_at_ms: 1 };
    let w = payment_failed_ws_message(&failed);
    assert_eq!((w.event_type.as_str(), w.status.as_str()), ("payment.failed", "FAILED"));
    assert_eq!(w.message, "Оплата замовлення #5 неуспішна через mock: limit");
    let pe = payment_failed_email(&failed);
    assert_eq!(pe.subject, "Order #5 payment failed");
    assert_eq!(pe.body, w.message);
}

#[test]
fn notification_channels() {
    assert!(matches!(email_route("sendgrid", &Some("http://mail/".into())), EmailRoute::Adapter { url } if url == "http://mail/send-email"));
    assert!(matches!(email_route("sendgrid", &None), EmailRoute::LogOnly));
    assert!(matches!(email_route("mock", &Some("http://mail".into())), EmailRoute::Mock));
    let some = |s: &str| Some(s.to_string());
    assert!(matches!(sms_route("disabled", &some("1"), &some("2"), &some("u")), SmsRoute::Disabled));
    assert!(matches!(sms_route("other", &None, &None, &None), SmsRoute::Mock));
    assert!(matches!(sms_route("twilio", &None, &some("2"), &some("u")), SmsRoute::MissingRecipient));
    assert!(matches!(sms_route("twilio", &some("1"), &None, &some("u")), SmsRoute::MissingSender));
    assert!(matches!(sms_route("twilio", &some("1"), &some("2"), &None), SmsRoute::LogOnly { to } if to == "1"));
    match sms_route("twilio", &some("1"), &some("2"), &some("http://sms/")) {
        SmsRoute::Adapter { url, to, from } => assert_eq!((url.as_str(), to.as_str(), from.as_str()), ("http://sms/send-sms", "1", "2")),
        other => panic!("unexpected {other:?}"),
    }
    assert_eq!(adapter_failure("twilio", false, "500"), AppError::Internal("twilio adapter returned HTTP 500".into()));
    assert_eq!(classify_notification("order.confirmed"), NotificationKind::OrderConfirmed);
    assert_eq!(classify_notification("payment.failed"), NotificationKind::PaymentFailed);
    assert_eq!(classify_notification("x"), NotificationKind::Other);
    assert_eq!(subscription_order(WsQuery { order_id: None }), 0);
    assert_eq!(subscription_order(WsQuery { order_id: Some(4) }), 4);
    let c = user_context(4, Some(("a@b".into(), None))).unwrap();
    assert_eq!((c.user_id, c.email.as_str()), (4, "a@b"));
    assert_eq!(user_context(4, None).map(|c| c.user_id), Err(AppError::NotFound("User 4 not found".into())));
}
