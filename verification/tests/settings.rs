use pulse_commerce::config::{
    get_csv_env, get_env_or, get_u16_env, split_csv, GatewayConfig, NotificationServiceConfig,
    OrderServiceConfig, PaymentServiceConfig,
};

fn vars(pairs: &[(&str, &str)]) -> Vec<(String, String)> {
    pairs.iter().map(|(k, v)| (k.to_string(), v.to_string())).collect()
}

#[test]
fn csv_items_are_trimmed_and_blank_ones_dropped() {
    assert_eq!(split_csv(" a , b,,c ,"), vec!["a", "b", "c"]);
    assert_eq!(split_csv(""), Vec::<String>::new());
    assert_eq!(split_csv("*"), vec!["*"]);
}

#[test]
fn defaults_apply_when_unset_or_unreadable() {
    let v = vars(&[("PORT", "abc"), ("NAME", "x")]);
    assert_eq!(get_u16_env(&v, "PORT", 8080), 8080);
    assert_eq!(get_u16_env(&v, "MISSING", 9), 9);
    assert_eq!(get_u16_env(&vars(&[("PORT", "8443")]), "PORT", 1), 8443);
    assert_eq!(get_env_or(&v, "NAME", "d"), "x");
    assert_eq!(get_env_or(&v, "OTHER", "d"), "d");
    assert_eq!(
        get_csv_env(&v, "CORS", "http://localhost:5173,http://127.0.0.1:5173"),
        vec!["http://localhost:5173", "http://127.0.0.1:5173"]
    );
}

#[test]
fn gateway_settings() {
    let v = vars(&[
        ("ORDER_SERVICE_URL", "http://orders:8081"),
        ("JWT_SECRET", "SECRET-REDACTED"),
        ("API_GATEWAY_PORT", "9000"),
    ]);
    let c = GatewayConfig::from_env(&v);
    assert_eq!(c.port, 9000);
    assert_eq!(c.order_service_url, "http://orders:8081");
    assert_eq!(c.jwt_secret, "SECRET-REDACTED");
    assert_eq!(c.cors_allowed_origins, vec!["http://localhost:5173", "http://127.0.0.1:5173"]);
}

#[test]
fn order_service_settings() {
    let v = vars(&[
        ("ORDER_DATABASE_URL", "postgres://o"),
        ("RABBITMQ_URL", "amqp://r"),
        ("AMQP_EXCHANGE", "shop"),
        ("JWT_SECRET", "s"),
        ("LOGISTICS_PROVIDER", "DHL"),
        ("LOGISTICS_API_BASE_URL", ""),
        ("LOGISTICS_API_KEY", "k"),
        ("CORS_ALLOWED_ORIGINS", "*"),
    ]);
    let c = OrderServiceConfig::from_env(&v);
    assert_eq!(c.port, 8081);
    assert_eq!(c.database_url, "postgres://o");
    assert_eq!(c.logistics_provider, "dhl");
    assert_eq!(c.logistics_api_base_url, None);
    assert_eq!(c.logistics_api_key, Some("k".to_string()));
    assert_eq!(c.cors_allowed_origins, vec!["*"]);
}

#[test]
fn payment_service_settings() {
    let v = vars(&[
        ("PAYMENT_DATABASE_URL", "postgres://p"),
        ("RABBITMQ_URL", "amqp://r"),
        ("AMQP_EXCHANGE", "shop"),
    ]);
    let c = PaymentServiceConfig::from_env(&v);
    assert_eq!(c.port, 8082);
    assert_eq!(c.payment_provider, "mock");
    assert_eq!(c.payment_api_base_url, None);
    assert_eq!(c.payment_api_key, None);
}

#[test]
fn notification_service_settings() {
    let v = vars(&[
        ("RABBITMQ_URL", "amqp://r"),
        ("AMQP_EXCHANGE", "shop"),
        ("GATEWAY_DATABASE_URL", "postgres://g"),
        ("EMAIL_PROVIDER", "SendGrid"),
        ("SMS_API_BASE_URL", "http://sms"),
        ("NOTIFICATION_SERVICE_PORT", "70000"),
    ]);
    let c = NotificationServiceConfig::from_env(&v);
    assert_eq!(c.port, 8083);
    assert_eq!(c.email_provider, "sendgrid");
    assert_eq!(c.sms_provider, "disabled");
    assert_eq!(c.sms_api_base_url, Some("http://sms".to_string()));
    assert_eq!(c.notification_from_email, "noreply@pulsecommerce.local");
    assert_eq!(c.notification_fallback_phone, None);
}
