//! Service settings read from a snapshot of the process environment: plain values,
//! values with defaults, ports, comma-separated lists and optional values.

use vstd::prelude::*;

use crate::number::{parse_u16, parse_u16_spec};
use crate::text::{
    ascii_lower_spec, chars_of, opt_chars, owned, same_text, string_from_chars, strings_chars,
    to_ascii_lowercase, trim, trim_spec,
};

verus! {

/// The value of the first variable named `key` in `vars`.
pub open spec fn env_lookup(vars: Seq<(String, String)>, key: Seq<char>) -> Option<Seq<char>>
    decreases vars.len(),
{
    if vars.len() == 0 {
        None
    } else if vars[0].0@ == key {
        Some(vars[0].1@)
    } else {
        env_lookup(vars.drop_first(), key)
    }
}

/// The value of `key`, or `default` when it is not set.
pub open spec fn env_or(vars: Seq<(String, String)>, key: Seq<char>, default: Seq<char>) -> Seq<
    char,
> {
    match env_lookup(vars, key) {
        Some(v) => v,
        None => default,
    }
}

/// The port in `key`, or `default` when it is not set or is no `u16`.
pub open spec fn env_u16(vars: Seq<(String, String)>, key: Seq<char>, default: u16) -> u16 {
    match env_lookup(vars, key) {
        Some(v) => match parse_u16_spec(v) {
            Some(p) => p,
            None => default,
        },
        None => default,
    }
}

/// The pieces of `s` between occurrences of `sep` (`str::split` with a character).
pub open spec fn split_on(s: Seq<char>, sep: char) -> Seq<Seq<char>>
    decreases s.len(),
{
    if s.len() == 0 {
        seq![Seq::<char>::empty()]
    } else {
        let rest = split_on(s.drop_last(), sep);
        if s.last() == sep {
            rest.push(Seq::<char>::empty())
        } else {
            rest.update(rest.len() - 1, rest.last().push(s.last()))
        }
    }
}

/// The comma-separated items of `s`, each trimmed, without the empty ones.
pub open spec fn csv_items(s: Seq<char>) -> Seq<Seq<char>> {
    trimmed_fields(split_on(s, ','))
}

/// The fields, each trimmed, without the empty ones.
pub open spec fn trimmed_fields(fields: Seq<Seq<char>>) -> Seq<Seq<char>> {
    fields.map_values(|f: Seq<char>| trim_spec(f)).filter(|t: Seq<char>| t.len() > 0)
}

proof fn lemma_trimmed_fields_push(fields: Seq<Seq<char>>)
    requires
        fields.len() > 0,
    ensures
        trimmed_fields(fields) == if trim_spec(fields.last()).len() > 0 {
            trimmed_fields(fields.drop_last()).push(trim_spec(fields.last()))
        } else {
            trimmed_fields(fields.drop_last())
        },
{
    let f = |x: Seq<char>| trim_spec(x);
    let pred = |t: Seq<char>| t.len() > 0;
    let xs = fields.drop_last().map_values(f);
    let t = trim_spec(fields.last());
    assert(fields.map_values(f) == xs.push(t));
    xs.lemma_filter_push(t, pred);
}

/// The list in `key` (or in `default` when it is not set), split at commas.
pub open spec fn env_csv(vars: Seq<(String, String)>, key: Seq<char>, default: Seq<char>) -> Seq<
    Seq<char>,
> {
    csv_items(env_or(vars, key, default))
}

/// The value of `key` when it is set to a non-empty text.
pub open spec fn env_optional(vars: Seq<(String, String)>, key: Seq<char>) -> Option<Seq<char>> {
    let v = env_or(vars, key, Seq::<char>::empty());
    if v.len() == 0 {
        None
    } else {
        Some(v)
    }
}

/// The value of the first variable named `key`, if any.
pub fn lookup_env(vars: &Vec<(String, String)>, key: &str) -> (res: Option<String>)
    ensures
        opt_chars(res) == env_lookup(vars@, key@),
{
    let mut i: usize = 0;
    assert(vars@.skip(0) == vars@);
    while i < vars.len()
        invariant
            i <= vars.len(),
            env_lookup(vars@, key@) == env_lookup(vars@.skip(i as int), key@),
        decreases vars.len() - i,
    {
        assert(vars@.skip(i as int).drop_first() == vars@.skip(i + 1));
        if same_text(vars[i].0.as_str(), key) {
            return Some(vars[i].1.clone());
        }
        i = i + 1;
    }
    None
}

/// Whether a variable named `key` is set.
pub fn has_env(vars: &Vec<(String, String)>, key: &str) -> (res: bool)
    ensures
        res == env_lookup(vars@, key@) is Some,
{
    lookup_env(vars, key).is_some()
}

/// The value of `key`, which must be set.
pub fn get_env(vars: &Vec<(String, String)>, key: &str) -> (res: String)
    requires
        env_lookup(vars@, key@) is Some,
    ensures
        res@ == env_lookup(vars@, key@)->0,
{
    match lookup_env(vars, key) {
        Some(v) => v,
        None => {
            assert(false);
            String::new()
        },
    }
}

/// The value of `key`, or `default` when it is not set.
pub fn get_env_or(vars: &Vec<(String, String)>, key: &str, default: &str) -> (res: String)
    ensures
        res@ == env_or(vars@, key@, default@),
{
    match lookup_env(vars, key) {
        Some(v) => v,
        None => owned(default),
    }
}

/// The port in `key`, or `default` when it is not set or is no valid `u16`.
pub fn get_u16_env(vars: &Vec<(String, String)>, key: &str, default: u16) -> (res: u16)
    ensures
        res == env_u16(vars@, key@, default),
{
    match lookup_env(vars, key) {
        Some(v) => match parse_u16(v.as_str()) {
            Some(p) => p,
            None => default,
        },
        None => default,
    }
}

/// The comma-separated items of `s`, each trimmed, without the empty ones.
pub fn split_csv(s: &str) -> (res: Vec<String>)
    ensures
        strings_chars(res@) == csv_items(s@),
{
    let cs = chars_of(s);
    let mut done: Vec<String> = Vec::new();
    let mut cur: Vec<char> = Vec::new();
    let mut i: usize = 0;
    assert(cs@.take(0) =~= Seq::<char>::empty());
    assert(split_on(Seq::<char>::empty(), ',').drop_last() =~= Seq::<Seq<char>>::empty());
    proof {
        reveal(Seq::filter);
        assert(trimmed_fields(Seq::<Seq<char>>::empty()) =~= Seq::<Seq<char>>::empty());
    }
    while i < cs.len()
        invariant
            i <= cs.len(),
            cs@ == s@,
            split_on(cs@.take(i as int), ',').len() > 0,
            split_on(cs@.take(i as int), ',').last() == cur@,
            strings_chars(done@) == trimmed_fields(split_on(cs@.take(i as int), ',').drop_last()),
        decreases cs.len() - i,
    {
        let ghost sp = split_on(cs@.take(i as int), ',');
        let c = cs[i];
        assert(cs@.take(i + 1).drop_last() == cs@.take(i as int));
        assert(cs@.take(i + 1).last() == c);
        if c == ',' {
            let piece = string_from_chars(&cur);
            let t = trim(piece.as_str());
            if !t.as_str().is_empty() {
                done.push(t);
            }
            cur = Vec::new();
            proof {
                let sp2 = split_on(cs@.take(i + 1), ',');
                assert(sp2 == sp.push(Seq::<char>::empty()));
                assert(sp2.drop_last() == sp);
                lemma_trimmed_fields_push(sp);
            }
        } else {
            cur.push(c);
            proof {
                let sp2 = split_on(cs@.take(i + 1), ',');
                assert(sp2.drop_last() == sp.drop_last());
            }
        }
        i = i + 1;
    }
    let piece = string_from_chars(&cur);
    let t = trim(piece.as_str());
    if !t.as_str().is_empty() {
        done.push(t);
    }
    proof {
        assert(cs@.take(i as int) == cs@);
        lemma_trimmed_fields_push(split_on(cs@, ','));
    }
    done
}

/// Law: every item of a comma-separated list is non-empty and already trimmed.
pub proof fn csv_items_are_trimmed(s: Seq<char>)
    ensures
        forall|i: int| 0 <= i < csv_items(s).len() ==> (#[trigger] csv_items(s)[i]).len() > 0
            && trim_spec(csv_items(s)[i]) == csv_items(s)[i],
{
    let f = |x: Seq<char>| trim_spec(x);
    let pred = |t: Seq<char>| t.len() > 0;
    let mapped = split_on(s, ',').map_values(f);
    assert forall|i: int| 0 <= i < csv_items(s).len() implies (#[trigger] csv_items(s)[i]).len() > 0
        && trim_spec(csv_items(s)[i]) == csv_items(s)[i] by {
        assert(csv_items(s) == mapped.filter(pred));
        mapped.lemma_filter_pred(pred, i);
        assert(mapped.filter(pred).contains(csv_items(s)[i]));
        mapped.lemma_filter_contains_rev(pred, csv_items(s)[i]);
        let j = choose|j: int| 0 <= j < mapped.len() && mapped[j] == csv_items(s)[i];
        crate::text::trim_is_idempotent(split_on(s, ',')[j]);
    }
}

/// The comma-separated list in `key` (or in `default` when it is not set).
pub fn get_csv_env(vars: &Vec<(String, String)>, key: &str, default: &str) -> (res: Vec<String>)
    ensures
        strings_chars(res@) == env_csv(vars@, key@, default@),
{
    let v = get_env_or(vars, key, default);
    split_csv(v.as_str())
}

/// The value of `key` when it is set to a non-empty text.
pub fn get_optional_env(vars: &Vec<(String, String)>, key: &str) -> (res: Option<String>)
    ensures
        opt_chars(res) == env_optional(vars@, key@),
{
    let v = get_env_or(vars, key, "");
    proof {
        assert(""@.len() == 0) by {
            reveal_strlit("");
        }
        assert(""@ =~= Seq::<char>::empty());
    }
    if v.as_str().is_empty() {
        assert(v@.len() == 0);
        None
    } else {
        assert(v@.len() != 0);
        Some(v)
    }
}

/// Settings of the API gateway.
#[derive(Clone)]
pub struct GatewayConfig {
    pub port: u16,
    pub order_service_url: String,
    pub jwt_secret: String,
    pub cors_allowed_origins: Vec<String>,
}

/// The origins that the services allow by default.
pub open spec fn default_origins() -> Seq<char> {
    "http://localhost:5173,http://127.0.0.1:5173"@
}

impl GatewayConfig {
    /// Reads the gateway's settings; `ORDER_SERVICE_URL` and `JWT_SECRET` must be set.
    pub fn from_env(vars: &Vec<(String, String)>) -> (res: Self)
        requires
            env_lookup(vars@, "ORDER_SERVICE_URL"@) is Some,
            env_lookup(vars@, "JWT_SECRET"@) is Some,
        ensures
            res.port == env_u16(vars@, "API_GATEWAY_PORT"@, 8080),
            res.order_service_url@ == env_lookup(vars@, "ORDER_SERVICE_URL"@)->0,
            res.jwt_secret@ == env_lookup(vars@, "JWT_SECRET"@)->0,
            strings_chars(res.cors_allowed_origins@) == env_csv(
                vars@,
                "CORS_ALLOWED_ORIGINS"@,
                default_origins(),
            ),
    {
        GatewayConfig {
            port: get_u16_env(vars, "API_GATEWAY_PORT", 8080),
            order_service_url: get_env(vars, "ORDER_SERVICE_URL"),
            jwt_secret: get_env(vars, "JWT_SECRET"),
            cors_allowed_origins: get_csv_env(
                vars,
                "CORS_ALLOWED_ORIGINS",
                "http://localhost:5173,http://127.0.0.1:5173",
            ),
        }
    }
}

/// Settings of the order service.
#[derive(Clone)]
pub struct OrderServiceConfig {
    pub port: u16,
    pub database_url: String,
    pub rabbitmq_url: String,
    pub exchange: String,
    pub jwt_secret: String,
    pub cors_allowed_origins: Vec<String>,
    pub logistics_provider: String,
    pub logistics_api_base_url: Option<String>,
    pub logistics_api_key: Option<String>,
}

impl OrderServiceConfig {
    /// Reads the order service's settings; the database, broker, exchange and JWT secret
    /// variables must be set.
    pub fn from_env(vars: &Vec<(String, String)>) -> (res: Self)
        requires
            env_lookup(vars@, "ORDER_DATABASE_URL"@) is Some,
            env_lookup(vars@, "RABBITMQ_URL"@) is Some,
            env_lookup(vars@, "AMQP_EXCHANGE"@) is Some,
            env_lookup(vars@, "JWT_SECRET"@) is Some,
        ensures
            res.port == env_u16(vars@, "ORDER_SERVICE_PORT"@, 8081),
            res.database_url@ == env_lookup(vars@, "ORDER_DATABASE_URL"@)->0,
            res.rabbitmq_url@ == env_lookup(vars@, "RABBITMQ_URL"@)->0,
            res.exchange@ == env_lookup(vars@, "AMQP_EXCHANGE"@)->0,
            res.jwt_secret@ == env_lookup(vars@, "JWT_SECRET"@)->0,
            strings_chars(res.cors_allowed_origins@) == env_csv(
                vars@,
                "CORS_ALLOWED_ORIGINS"@,
                default_origins(),
            ),
            res.logistics_provider@ == ascii_lower_spec(
                env_or(vars@, "LOGISTICS_PROVIDER"@, "mock"@),
            ),
            opt_chars(res.logistics_api_base_url) == env_optional(
                vars@,
                "LOGISTICS_API_BASE_URL"@,
            ),
            opt_chars(res.logistics_api_key) == env_optional(vars@, "LOGISTICS_API_KEY"@),
    {
        let provider = get_env_or(vars, "LOGISTICS_PROVIDER", "mock");
        OrderServiceConfig {
            port: get_u16_env(vars, "ORDER_SERVICE_PORT", 8081),
            database_url: get_env(vars, "ORDER_DATABASE_URL"),
            rabbitmq_url: get_env(vars, "RABBITMQ_URL"),
            exchange: get_env(vars, "AMQP_EXCHANGE"),
            jwt_secret: get_env(vars, "JWT_SECRET"),
            cors_allowed_origins: get_csv_env(
                vars,
                "CORS_ALLOWED_ORIGINS",
                "http://localhost:5173,http://127.0.0.1:5173",
            ),
            logistics_provider: to_ascii_lowercase(provider.as_str()),
            logistics_api_base_url: get_optional_env(vars, "LOGISTICS_API_BASE_URL"),
            logistics_api_key: get_optional_env(vars, "LOGISTICS_API_KEY"),
        }
    }
}

/// Settings of the payment service.
#[derive(Clone)]
pub struct PaymentServiceConfig {
    pub port: u16,
    pub database_url: String,
    pub rabbitmq_url: String,
    pub exchange: String,
    pub payment_provider: String,
    pub payment_api_base_url: Option<String>,
    pub payment_api_key: Option<String>,
}

impl PaymentServiceConfig {
    /// Reads the payment service's settings; the database, broker and exchange variables
    /// must be set.
    pub fn from_env(vars: &Vec<(String, String)>) -> (res: Self)
        requires
            env_lookup(vars@, "PAYMENT_DATABASE_URL"@) is Some,
            env_lookup(vars@, "RABBITMQ_URL"@) is Some,
            env_lookup(vars@, "AMQP_EXCHANGE"@) is Some,
        ensures
            res.port == env_u16(vars@, "PAYMENT_SERVICE_PORT"@, 8082),
            res.database_url@ == env_lookup(vars@, "PAYMENT_DATABASE_URL"@)->0,
            res.rabbitmq_url@ == env_lookup(vars@, "RABBITMQ_URL"@)->0,
            res.exchange@ == env_lookup(vars@, "AMQP_EXCHANGE"@)->0,
            res.payment_provider@ == ascii_lower_spec(
                env_or(vars@, "PAYMENT_PROVIDER"@, "mock"@),
            ),
            opt_chars(res.payment_api_base_url) == env_optional(vars@, "PAYMENT_API_BASE_URL"@),
            opt_chars(res.payment_api_key) == env_optional(vars@, "PAYMENT_API_KEY"@),
    {
        let provider = get_env_or(vars, "PAYMENT_PROVIDER", "mock");
        PaymentServiceConfig {
            port: get_u16_env(vars, "PAYMENT_SERVICE_PORT", 8082),
            database_url: get_env(vars, "PAYMENT_DATABASE_URL"),
            rabbitmq_url: get_env(vars, "RABBITMQ_URL"),
            exchange: get_env(vars, "AMQP_EXCHANGE"),
            payment_provider: to_ascii_lowercase(provider.as_str()),
            payment_api_base_url: get_optional_env(vars, "PAYMENT_API_BASE_URL"),
            payment_api_key: get_optional_env(vars, "PAYMENT_API_KEY"),
        }
    }
}

/// Settings of the notification service.
#[derive(Clone)]
pub struct NotificationServiceConfig {
    pub port: u16,
    pub rabbitmq_url: String,
    pub exchange: String,
    pub cors_allowed_origins: Vec<String>,
    pub gateway_database_url: String,
    pub email_provider: String,
    pub email_api_base_url: Option<String>,
    pub email_api_key: Option<String>,
    pub sms_provider: String,
    pub sms_api_base_url: Option<String>,
    pub sms_api_key: Option<String>,
    pub notification_from_email: String,
    pub notification_from_phone: Option<String>,
    pub notification_fallback_phone: Option<String>,
}

impl NotificationServiceConfig {
    /// Reads the notification service's settings; the broker, exchange and gateway
    /// database variables must be set.
    pub fn from_env(vars: &Vec<(String, String)>) -> (res: Self)
        requires
            env_lookup(vars@, "RABBITMQ_URL"@) is Some,
            env_lookup(vars@, "AMQP_EXCHANGE"@) is Some,
            env_lookup(vars@, "GATEWAY_DATABASE_URL"@) is Some,
        ensures
            res.port == env_u16(vars@, "NOTIFICATION_SERVICE_PORT"@, 8083),
            res.rabbitmq_url@ == env_lookup(vars@, "RABBITMQ_URL"@)->0,
            res.exchange@ == env_lookup(vars@, "AMQP_EXCHANGE"@)->0,
            strings_chars(res.cors_allowed_origins@) == env_csv(
                vars@,
                "CORS_ALLOWED_ORIGINS"@,
                default_origins(),
            ),
            res.gateway_database_url@ == env_lookup(vars@, "GATEWAY_DATABASE_URL"@)->0,
            res.email_provider@ == ascii_lower_spec(env_or(vars@, "EMAIL_PROVIDER"@, "mock"@)),
            opt_chars(res.email_api_base_url) == env_optional(vars@, "EMAIL_API_BASE_URL"@),
            opt_chars(res.email_api_key) == env_optional(vars@, "EMAIL_API_KEY"@),
            res.sms_provider@ == ascii_lower_spec(env_or(vars@, "SMS_PROVIDER"@, "disabled"@)),
            opt_chars(res.sms_api_base_url) == env_optional(vars@, "SMS_API_BASE_URL"@),
            opt_chars(res.sms_api_key) == env_optional(vars@, "SMS_API_KEY"@),
            res.notification_from_email@ == env_or(
                vars@,
                "NOTIFICATION_FROM_EMAIL"@,
                "noreply@pulsecommerce.local"@,
            ),
            opt_chars(res.notification_from_phone) == env_optional(
                vars@,
                "NOTIFICATION_FROM_PHONE"@,
            ),
            opt_chars(res.notification_fallback_phone) == env_optional(
                vars@,
                "NOTIFICATION_FALLBACK_PHONE"@,
            ),
    {
        let email_provider = get_env_or(vars, "EMAIL_PROVIDER", "mock");
        let sms_provider = get_env_or(vars, "SMS_PROVIDER", "disabled");
        NotificationServiceConfig {
            port: get_u16_env(vars, "NOTIFICATION_SERVICE_PORT", 8083),
            rabbitmq_url: get_env(vars, "RABBITMQ_URL"),
            exchange: get_env(vars, "AMQP_EXCHANGE"),
            cors_allowed_origins: get_csv_env(
                vars,
                "CORS_ALLOWED_ORIGINS",
                "http://localhost:5173,http://127.0.0.1:5173",
            ),
            gateway_database_url: get_env(vars, "GATEWAY_DATABASE_URL"),
            email_provider: to_ascii_lowercase(email_provider.as_str()),
            email_api_base_url: get_optional_env(vars, "EMAIL_API_BASE_URL"),
            email_api_key: get_optional_env(vars, "EMAIL_API_KEY"),
            sms_provider: to_ascii_lowercase(sms_provider.as_str()),
            sms_api_base_url: get_optional_env(vars, "SMS_API_BASE_URL"),
            sms_api_key: get_optional_env(vars, "SMS_API_KEY"),
            notification_from_email: get_env_or(
                vars,
                "NOTIFICATION_FROM_EMAIL",
                "noreply@pulsecommerce.local",
            ),
            notification_from_phone: get_optional_env(vars, "NOTIFICATION_FROM_PHONE"),
            notification_fallback_phone: get_optional_env(vars, "NOTIFICATION_FALLBACK_PHONE"),
        }
    }
}

} // verus!
