use pulse_commerce::benchmark::stream_ended_error;
use pulse_commerce::broker::{ConsumerAction, Disposition};
use pulse_commerce::errors::AppError;
use pulse_commerce::gateway::{google_failure, registration_hash_outcome, GoogleFailure};
use pulse_commerce::notifications::{
    notification_next, notification_start, NotificationKind, NotificationStep,
};
use pulse_commerce::payments::{payment_next, payment_start, PaymentStep};

#[test]
fn notification_handling_steps() {
    assert_eq!(notification_start(NotificationKind::Other), ConsumerAction::Settle(Disposition::Ack));
    assert_eq!(
        notification_start(NotificationKind::OrderConfirmed),
        ConsumerAction::Do(NotificationStep::Decode)
    );
    assert_eq!(
        notification_start(NotificationKind::PaymentFailed),
        ConsumerAction::Do(NotificationStep::Decode)
    );
    assert_eq!(notification_next(NotificationStep::Decode, false), ConsumerAction::Settle(Disposition::Ack));
    assert_eq!(notification_next(NotificationStep::Decode, true), ConsumerAction::Do(NotificationStep::LookupUser));
    assert_eq!(
        notification_next(NotificationStep::LookupUser, false),
        ConsumerAction::Settle(Disposition::Requeue)
    );
    assert_eq!(notification_next(NotificationStep::LookupUser, true), ConsumerAction::Do(NotificationStep::Deliver));
    assert_eq!(notification_next(NotificationStep::Deliver, true), ConsumerAction::Settle(Disposition::Ack));
    assert_eq!(notification_next(NotificationStep::Deliver, false), ConsumerAction::Stop);
}

#[test]
fn payment_handling_steps() {
    assert_eq!(payment_start(), ConsumerAction::Do(PaymentStep::Charge));
    assert_eq!(payment_next(PaymentStep::Charge, true), ConsumerAction::Do(PaymentStep::Record));
    assert_eq!(payment_next(PaymentStep::Record, true), ConsumerAction::Do(PaymentStep::Publish));
    assert_eq!(payment_next(PaymentStep::Publish, true), ConsumerAction::Settle(Disposition::Ack));
    for step in [PaymentStep::Charge, PaymentStep::Record, PaymentStep::Publish] {
        assert_eq!(payment_next(step, false), ConsumerAction::Settle(Disposition::Requeue));
    }
}

#[test]
fn benchmark_stream_end() {
    assert_eq!(
        stream_ended_error(),
        AppError::Broker("Benchmark consumer stream ended unexpectedly".to_string())
    );
}

#[test]
fn google_failures() {
    assert_eq!(
        google_failure(GoogleFailure::TokenRequest, &Some("timeout".into())),
        AppError::Internal("Google token exchange failed: timeout".into())
    );
    assert_eq!(
        google_failure(GoogleFailure::TokenRefused, &None),
        AppError::Internal("Google token exchange failed: unknown google token error".into())
    );
    assert_eq!(
        google_failure(GoogleFailure::TokenUnreadable, &Some("bad json".into())),
        AppError::Internal("Failed to parse Google token: bad json".into())
    );
    assert_eq!(
        google_failure(GoogleFailure::UserInfoRequest, &Some("reset".into())),
        AppError::Internal("Failed to get user info: reset".into())
    );
    assert_eq!(
        google_failure(GoogleFailure::UserInfoRefused, &None),
        AppError::Internal("Failed to get Google user info: unknown google user info error".into())
    );
    assert_eq!(
        google_failure(GoogleFailure::UserInfoRefused, &Some("{\"error\":1}".into())),
        AppError::Internal("Failed to get Google user info: {\"error\":1}".into())
    );
    assert_eq!(
        google_failure(GoogleFailure::UserInfoUnreadable, &Some("eof".into())),
        AppError::Internal("Failed to parse user info: eof".into())
    );
}

#[test]
fn registration_hash_outcomes() {
    assert_eq!(registration_hash_outcome(Ok("h".into())), Ok("h".to_string()));
    assert_eq!(
        registration_hash_outcome(Err("no entropy".into())),
        Err(AppError::Internal("Hash error: no entropy".into()))
    );
}
