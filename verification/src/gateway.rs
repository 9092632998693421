//! The API gateway's request logic: authentication decisions, input checks for the
//! profile, visit and product endpoints, and the URLs it redirects and proxies to.

use vstd::prelude::*;

use crate::errors::AppError;
use crate::number::{decimal, format_i64, parse_i64, parse_i64_spec};
use crate::slug::{is_slug, slug_is_well_formed, slug_spec, slugify};
use crate::text::{
    concat2, concat3, has_prefix, opt_chars, owned, same_text, strip_prefix, to_lowercase, trim,
    trim_spec, unicode_lowercase,
};

verus! {

/// A sign-up request.
#[derive(Debug, Clone)]
pub struct RegisterRequest {
    pub email: String,
    pub password: String,
}

/// A sign-in request.
#[derive(Debug, Clone)]
pub struct LoginRequest {
    pub email: String,
    pub password: String,
}

/// A request to change one's profile.
#[derive(Debug, Clone)]
pub struct UpdateMeRequest {
    pub full_name: String,
    pub avatar_url: Option<String>,
}

/// A page visit reported by the storefront.
#[derive(Debug, Clone)]
pub struct RecordVisitRequest {
    pub page_key: String,
    pub session_id: Option<String>,
}

/// The answer to a successful sign-up or sign-in.
#[derive(Debug, Clone)]
pub struct LoginResponse {
    pub token: String,
    pub user_id: i64,
    pub email: String,
    pub role: String,
}

/// The signed-in user's profile.
#[derive(Debug, Clone)]
pub struct MeResponse {
    pub id: i64,
    pub email: String,
    pub role: String,
    pub full_name: Option<String>,
    pub avatar_url: Option<String>,
    pub auth_provider: String,
}

/// A user as the admin list shows it.
#[derive(Debug, Clone)]
pub struct AdminUserDto {
    pub id: i64,
    pub email: String,
    pub role: String,
    pub full_name: Option<String>,
    pub avatar_url: Option<String>,
    pub auth_provider: String,
    pub created_at: Option<String>,
    pub last_seen_at: Option<String>,
}

/// The admin dashboard's counters.
#[derive(Debug, Clone, Copy)]
pub struct AdminStatsResponse {
    pub total_users: i64,
    pub total_products: i64,
    pub total_orders: i64,
    pub total_visits: i64,
    pub online_users: i64,
}

/// A stored user account.
#[derive(Debug, Clone)]
pub struct UserRecord {
    pub id: i64,
    pub email: String,
    pub password_hash: String,
    pub role: String,
    pub full_name: Option<String>,
    pub avatar_url: Option<String>,
    pub auth_provider: String,
}

/// A checked profile change, ready to be stored.
#[derive(Debug, Clone)]
pub struct ProfileUpdate {
    pub full_name: String,
    pub avatar_url: Option<String>,
}

/// A checked page visit, ready to be stored.
#[derive(Debug, Clone)]
pub struct VisitRecord {
    pub page_key: String,
    pub user_id: Option<i64>,
    pub session_id: Option<String>,
}

/// Checked product fields, ready to be stored (the price is checked by the caller).
#[derive(Debug, Clone)]
pub struct ProductInput {
    pub slug: String,
    pub name: String,
    pub description: String,
    pub image_url: Option<String>,
    pub category: Option<String>,
}

/// The password hash stored for accounts created through Google sign-in.
pub open spec fn google_marker() -> Seq<char> {
    "google_authenticated"@
}

/// An optional text, trimmed, with blank texts counted as absent.
pub open spec fn sanitize_spec(o: Option<Seq<char>>) -> Option<Seq<char>> {
    match o {
        Some(v) => if trim_spec(v).len() > 0 {
            Some(trim_spec(v))
        } else {
            None
        },
        None => None,
    }
}

/// An optional text, trimmed, with blank texts counted as absent.
pub fn sanitize_optional_text(value: &Option<String>) -> (res: Option<String>)
    ensures
        opt_chars(res) == sanitize_spec(opt_chars(*value)),
{
    match value {
        Some(v) => {
            let t = trim(v.as_str());
            if t.as_str().is_empty() {
                None
            } else {
                Some(t)
            }
        },
        None => None,
    }
}

/// Law: sanitizing an already sanitized text changes nothing.
pub proof fn sanitize_is_idempotent(o: Option<Seq<char>>)
    ensures
        sanitize_spec(sanitize_spec(o)) == sanitize_spec(o),
{
    if let Some(v) = o {
        crate::text::trim_is_idempotent(v);
    }
}

/// Where the storefront receives a freshly issued token after Google sign-in.
pub fn build_frontend_redirect(token: &str) -> (res: String)
    ensures
        res@ == "http://localhost:5173/login?token="@ + token@,
{
    concat2("http://localhost:5173/login?token=", token)
}

/// The caller's user id, from the text of the `x-user-id` header (absent when the
/// header is missing or is no visible ASCII): it must be a valid `i64`.
pub fn current_user_id_from_headers(header_value: &Option<String>) -> (res: Result<i64, AppError>)
    ensures
        match opt_chars(*header_value) {
            Some(v) => match parse_i64_spec(v) {
                Some(id) => res == Ok::<i64, AppError>(id),
                None => res == Err::<i64, AppError>(AppError::Unauthorized),
            },
            None => res == Err::<i64, AppError>(AppError::Unauthorized),
        },
{
    match header_value {
        Some(v) => match parse_i64(v.as_str()) {
            Some(id) => Ok(id),
            None => Err(AppError::Unauthorized),
        },
        None => Err(AppError::Unauthorized),
    }
}

/// The caller's `authorization` header, which must be present.
pub fn current_auth_header(header_value: &Option<String>) -> (res: Result<String, AppError>)
    ensures
        match opt_chars(*header_value) {
            Some(v) => res matches Ok(h) && h@ == v,
            None => res == Err::<String, AppError>(AppError::Unauthorized),
        },
{
    match header_value {
        Some(v) => Ok(v.clone()),
        None => Err(AppError::Unauthorized),
    }
}

/// The token of an `authorization` header of the form `Bearer <token>`.
pub fn bearer_token(auth_header: &str) -> (res: Result<String, AppError>)
    ensures
        has_prefix(auth_header@, "Bearer "@) ==> (res matches Ok(t) && t@ == auth_header@.skip(
            "Bearer "@.len() as int,
        )),
        !has_prefix(auth_header@, "Bearer "@) ==> res == Err::<String, AppError>(
            AppError::Unauthorized,
        ),
{
    match strip_prefix(auth_header, "Bearer ") {
        Some(t) => Ok(t),
        None => Err(AppError::Unauthorized),
    }
}

/// The claims that `jsonwebtoken::decode` reads from `token` under the HMAC key
/// `secret` with the default validation, leaving out its one check that reads the
/// clock (that `exp` has not passed): `None` when the token is malformed, is not signed
/// with HS256 under `secret`, has no numeric `exp` claim or names an audience;
/// otherwise the `sub` claim as an `i64` and the `exp` claim as a `u64`, each `None`
/// when absent or of another type.
pub uninterp spec fn jwt_signed_claims(token: Seq<char>, secret: Seq<char>) -> Option<
    (Option<i64>, Option<u64>),
>;

/// The token that `jsonwebtoken::encode` makes with the default header (HS256) for the
/// claims object `{"exp": exp, "sub": sub}`, signed with the HMAC key `secret`.
pub uninterp spec fn jwt_encoded(sub: i64, exp: u64, secret: Seq<char>) -> Seq<char>;

/// Calls `jsonwebtoken::decode` on `token` with `secret` as the HMAC key and the default
/// validation (HS256 signature, an `exp` claim that must not have passed), reading the
/// claims as JSON. A success gives the claims named by `jwt_signed_claims`, and a token
/// that those refuse is refused. Whether a token they accept has expired depends on
/// the clock, so which of the two comes back for it is not stated.
#[verifier::external_body]
fn decode_token_claims(token: &str, secret: &str) -> (res: Option<(Option<i64>, Option<u64>)>)
    ensures
        res is Some ==> res == jwt_signed_claims(token@, secret@),
        jwt_signed_claims(token@, secret@) is None ==> res is None,
{
    jsonwebtoken::decode::<serde_json::Value>(
        token,
        &jsonwebtoken::DecodingKey::from_secret(secret.as_bytes()),
        &jsonwebtoken::Validation::default(),
    ).ok().map(
        |data| (data.claims.get("sub").and_then(|v| v.as_i64()), data.claims.get("exp").and_then(|v| v.as_u64())),
    )
}

/// Calls `jsonwebtoken::encode` with the default header (HS256) on the claims object
/// `{"exp": exp, "sub": sub}`, signed with `secret` as the HMAC key. For an HMAC key
/// and JSON claims `encode` cannot fail; the token is named by `jwt_encoded`, and
/// decoding it under the same key gives back its two claims.
#[verifier::external_body]
fn encode_token(sub: i64, exp: u64, secret: &str) -> (res: Result<String, String>)
    ensures
        res is Ok,
        res matches Ok(t) ==> t@ == jwt_encoded(sub, exp, secret@),
        res matches Ok(t) ==> jwt_signed_claims(t@, secret@) == Some((Some(sub), Some(exp))),
{
    let mut claims = serde_json::Map::new();
    claims.insert("sub".to_string(), serde_json::Value::from(sub));
    claims.insert("exp".to_string(), serde_json::Value::from(exp));
    jsonwebtoken::encode(
        &jsonwebtoken::Header::default(),
        &serde_json::Value::Object(claims),
        &jsonwebtoken::EncodingKey::from_secret(secret.as_bytes()),
    ).map_err(|e| e.to_string())
}

/// How long a signed-in session lasts: a day, in seconds.
pub const TOKEN_LIFETIME_SECS: i64 = 86400;

/// The user id that decoded claims carry: an integer subject and an expiry that fits
/// a `usize`.
pub open spec fn subject_of_claims(claims: Option<(Option<i64>, Option<u64>)>) -> Option<i64> {
    match claims {
        Some((Some(sub), Some(exp))) => if exp <= usize::MAX {
            Some(sub)
        } else {
            None
        },
        _ => None,
    }
}

/// The user id that decoded claims carry: they need an integer subject and an
/// expiry that fits a `usize`.
pub fn token_subject(claims: Option<(Option<i64>, Option<u64>)>) -> (res: Option<i64>)
    ensures
        res == subject_of_claims(claims),
{
    match claims {
        Some((Some(sub), Some(exp))) => {
            if exp <= usize::MAX as u64 {
                Some(sub)
            } else {
                None
            }
        },
        _ => None,
    }
}

/// The user id of a signed token: decoded under `secret` with the default validation;
/// `None` for a token that is forged, malformed, expired, or lacks an integer subject.
/// A user id that comes back is the one the token's signed claims carry.
pub fn decode_token_subject(token: &str, secret: &str) -> (res: Option<i64>)
    ensures
        res is Some ==> res == subject_of_claims(jwt_signed_claims(token@, secret@)),
        subject_of_claims(jwt_signed_claims(token@, secret@)) is None ==> res is None,
{
    token_subject(decode_token_claims(token, secret))
}

/// The expiry of a token issued at `now_secs` (seconds since the Unix epoch).
pub fn token_expiry(now_secs: i64) -> (res: u64)
    requires
        now_secs <= i64::MAX - TOKEN_LIFETIME_SECS,
    ensures
        res == (now_secs + TOKEN_LIFETIME_SECS) as u64,
{
    (now_secs + TOKEN_LIFETIME_SECS) as u64
}

/// A token for `user_id` that expires at `expires_at`, signed with `secret`; decoding
/// it under `secret` gives back both claims.
pub fn issue_token(user_id: i64, expires_at: u64, secret: &str) -> (res: String)
    ensures
        res@ == jwt_encoded(user_id, expires_at, secret@),
        jwt_signed_claims(res@, secret@) == Some((Some(user_id), Some(expires_at))),
{
    match encode_token(user_id, expires_at, secret) {
        Ok(t) => t,
        Err(_) => {
            proof {
                assert(false);
            }
            String::new()
        },
    }
}

/// A token for `user_id`, signed with `secret`, that expires a day from now.
pub fn generate_jwt(user_id: i64, secret: &str) -> (res: String)
    ensures
        exists|exp: u64| res@ == jwt_encoded(user_id, exp, secret@) && jwt_signed_claims(
            res@,
            secret@,
        ) == Some((Some(user_id), Some(exp))),
{
    let now_secs = crate::events::now_millis() / 1000;
    let expires_at = token_expiry(now_secs);
    let token = issue_token(user_id, expires_at, secret);
    assert(token@ == jwt_encoded(user_id, expires_at, secret@));
    token
}

/// Authenticates a request from its `authorization` header: it must be present, of
/// the form `Bearer <token>`, and the token must decode under `secret` to a subject,
/// which is the user id. Every refusal is `Unauthorized`.
pub fn authenticate(auth_header: &Option<String>, secret: &str) -> (res: Result<i64, AppError>)
    ensures
        opt_chars(*auth_header) is None ==> res == Err::<i64, AppError>(AppError::Unauthorized),
        (auth_header matches Some(h) && !has_prefix(h@, "Bearer "@)) ==> res == Err::<
            i64,
            AppError,
        >(AppError::Unauthorized),
        (auth_header matches Some(h) && has_prefix(h@, "Bearer "@) && subject_of_claims(
            jwt_signed_claims(h@.skip(7), secret@),
        ) is None) ==> res == Err::<i64, AppError>(AppError::Unauthorized),
        res is Err ==> res == Err::<i64, AppError>(AppError::Unauthorized),
        res matches Ok(id) ==> (auth_header matches Some(h) && has_prefix(h@, "Bearer "@)
            && Some(id) == subject_of_claims(jwt_signed_claims(h@.skip(7), secret@))),
{
    let header = current_auth_header(auth_header)?;
    let token = bearer_token(header.as_str())?;
    proof {
        reveal_strlit("Bearer ");
    }
    match decode_token_subject(token.as_str(), secret) {
        Some(id) => Ok(id),
        None => Err(AppError::Unauthorized),
    }
}

/// Whether a role, already lowercased, is the administrator's.
pub fn role_is_admin(lowercased_role: &str) -> (res: bool)
    ensures
        res == (lowercased_role@ == "admin"@),
{
    same_text(lowercased_role, "admin")
}

/// Admits only administrators: the stored role of the caller (absent for an unknown
/// user), lowercased, must be `admin`.
pub fn ensure_admin(role: &Option<String>) -> (res: Result<(), AppError>)
    ensures
        match opt_chars(*role) {
            Some(r) => if unicode_lowercase(r) == "admin"@ {
                res == Ok::<(), AppError>(())
            } else {
                res == Err::<(), AppError>(AppError::Unauthorized)
            },
            None => res == Err::<(), AppError>(AppError::Unauthorized),
        },
{
    match role {
        Some(r) => {
            let lowered = to_lowercase(r.as_str());
            if role_is_admin(lowered.as_str()) {
                Ok(())
            } else {
                Err(AppError::Unauthorized)
            }
        },
        None => Err(AppError::Unauthorized),
    }
}

/// What `bcrypt::verify` answers for a password and a stored hash: whether they
/// match, or `None` when the hash cannot be read.
pub uninterp spec fn bcrypt_verdict(password: Seq<char>, hash: Seq<char>) -> Option<bool>;

/// The shape of the hashes that `bcrypt::hash` gives at the default cost: `$2b$12$`
/// followed by 22 characters of salt and 31 of hash.
pub open spec fn default_cost_hash(h: Seq<char>) -> bool {
    h.len() == 60 && has_prefix(h, "$2b$12$"@)
}

/// Calls `bcrypt::verify`, with an error read as `None`. The answer depends on the
/// password and the hash alone, and is named by `bcrypt_verdict`.
#[verifier::external_body]
fn bcrypt_verify(password: &str, hash: &str) -> (res: Option<bool>)
    ensures
        res == bcrypt_verdict(password@, hash@),
{
    bcrypt::verify(password, hash).ok()
}

/// Calls `bcrypt::hash` at `bcrypt::DEFAULT_COST` (12), with the error's text in place
/// of the error. The salt is random, so the hash itself is not stated; what holds of
/// every hash is: its shape, and that `bcrypt::verify` accepts the password against it.
#[verifier::external_body]
fn bcrypt_hash(password: &str) -> (res: Result<String, String>)
    ensures
        res matches Ok(h) ==> default_cost_hash(h@) && bcrypt_verdict(password@, h@) == Some(
            true,
        ),
{
    bcrypt::hash(password, bcrypt::DEFAULT_COST).map_err(|e| e.to_string())
}

/// The hash stored for a new account's password; a failure of the hashing becomes an
/// internal error `Hash error: <cause>`.
pub fn hash_registration_password(password: &str) -> (res: Result<String, AppError>)
    ensures
        res matches Ok(h) ==> default_cost_hash(h@) && bcrypt_verdict(password@, h@) == Some(
            true,
        ),
        res matches Err(e) ==> (e matches AppError::Internal(m) && has_prefix(
            m@,
            "Hash error: "@,
        )),
{
    let hashed = bcrypt_hash(password);
    let res = registration_hash_outcome(hashed);
    proof {
        if hashed is Err {
            let m = res->Err_0->Internal_0;
            assert(m@.subrange(0, "Hash error: "@.len() as int) =~= "Hash error: "@);
        }
    }
    res
}

/// What hashing a new account's password comes to: the hash, or the internal error
/// `Hash error: <cause>` with the hashing's own error text.
pub fn registration_hash_outcome(hashed: Result<String, String>) -> (res: Result<String, AppError>)
    ensures
        match hashed {
            Ok(h) => res matches Ok(r) && r@ == h@,
            Err(c) => res matches Err(AppError::Internal(m)) && m@ == "Hash error: "@ + c@,
        },
{
    match hashed {
        Ok(h) => Ok(h),
        Err(e) => Err(AppError::Internal(concat2("Hash error: ", e.as_str()))),
    }
}

/// Whether a stored account accepts a password: it must exist, must not be a Google
/// account, and bcrypt must confirm the password against its hash.
pub open spec fn login_accepted(user: Option<UserRecord>, password: Seq<char>) -> bool {
    match user {
        Some(u) => u.password_hash@ != google_marker() && bcrypt_verdict(
            password,
            u.password_hash@,
        ) == Some(true),
        None => false,
    }
}

/// Signs a user in: the account found for the email (if any) and the password given.
pub fn check_login(user: Option<UserRecord>, password: &str) -> (res: Result<UserRecord, AppError>)
    ensures
        login_accepted(user, password@) ==> res == Ok::<UserRecord, AppError>(user->0),
        !login_accepted(user, password@) ==> res == Err::<UserRecord, AppError>(
            AppError::Unauthorized,
        ),
{
    match user {
        Some(u) => {
            if same_text(u.password_hash.as_str(), "google_authenticated") {
                return Err(AppError::Unauthorized);
            }
            let verdict = bcrypt_verify(password, u.password_hash.as_str());
            match verdict {
                Some(true) => Ok(u),
                _ => Err(AppError::Unauthorized),
            }
        },
        None => Err(AppError::Unauthorized),
    }
}

/// Law: an account whose password hash was made at sign-up from a password accepts
/// that password at sign-in.
pub proof fn registered_password_signs_in(user: UserRecord, password: Seq<char>)
    requires
        default_cost_hash(user.password_hash@),
        bcrypt_verdict(password, user.password_hash@) == Some(true),
    ensures
        login_accepted(Some(user), password),
{
    reveal_strlit("$2b$12$");
    reveal_strlit("google_authenticated");
    let h = user.password_hash@;
    assert("$2b$12$"@.len() == 7);
    assert(h.subrange(0, 7) == "$2b$12$"@);
    assert(h.subrange(0, 7)[1] == h[1]);
    assert(h[1] == '2');
    assert(google_marker()[1] == 'o');
}

/// The answer to a successful sign-in or sign-up.
pub fn login_response(token: String, user: UserRecord) -> (res: LoginResponse)
    ensures
        res.token == token,
        res.user_id == user.id,
        res.email == user.email,
        res.role == user.role,
{
    LoginResponse { token, user_id: user.id, email: user.email, role: user.role }
}

/// The profile shown for a stored user.
pub fn me_response(user: UserRecord) -> (res: MeResponse)
    ensures
        res.id == user.id,
        res.email == user.email,
        res.role == user.role,
        res.full_name == user.full_name,
        res.avatar_url == user.avatar_url,
        res.auth_provider == user.auth_provider,
{
    MeResponse {
        id: user.id,
        email: user.email,
        role: user.role,
        full_name: user.full_name,
        avatar_url: user.avatar_url,
        auth_provider: user.auth_provider,
    }
}

/// Checks a profile change: the name, trimmed, must not be empty; the avatar URL is
/// sanitized.
pub fn validate_profile_update(req: &UpdateMeRequest) -> (res: Result<ProfileUpdate, AppError>)
    ensures
        trim_spec(req.full_name@).len() == 0 ==> (res matches Err(AppError::BadRequest(m)) && m@
            == "Full name is required"@),
        trim_spec(req.full_name@).len() > 0 ==> (res matches Ok(p) && p.full_name@ == trim_spec(
            req.full_name@,
        ) && opt_chars(p.avatar_url) == sanitize_spec(opt_chars(req.avatar_url))),
{
    let full_name = trim(req.full_name.as_str());
    if full_name.as_str().is_empty() {
        return Err(AppError::BadRequest(owned("Full name is required")));
    }
    Ok(ProfileUpdate { full_name, avatar_url: sanitize_optional_text(&req.avatar_url) })
}

/// Checks a page visit: the page key, trimmed, must not be empty; the user id comes
/// from the `x-user-id` header when it holds a valid `i64`; the session id is sanitized.
pub fn validate_visit(req: &RecordVisitRequest, user_header: &Option<String>) -> (res: Result<
    VisitRecord,
    AppError,
>)
    ensures
        trim_spec(req.page_key@).len() == 0 ==> (res matches Err(AppError::BadRequest(m)) && m@
            == "page_key is required"@),
        trim_spec(req.page_key@).len() > 0 ==> (res matches Ok(v) && v.page_key@ == trim_spec(
            req.page_key@,
        ) && v.user_id == (match opt_chars(*user_header) {
            Some(h) => parse_i64_spec(h),
            None => None,
        }) && opt_chars(v.session_id) == sanitize_spec(opt_chars(req.session_id))),
{
    let page_key = trim(req.page_key.as_str());
    if page_key.as_str().is_empty() {
        return Err(AppError::BadRequest(owned("page_key is required")));
    }
    let user_id = match user_header {
        Some(h) => parse_i64(h.as_str()),
        None => None,
    };
    Ok(VisitRecord { page_key, user_id, session_id: sanitize_optional_text(&req.session_id) })
}

/// The slug of a product: the one given, sanitized, or else the slug of its name.
pub open spec fn product_slug(slug: Option<Seq<char>>, name: Seq<char>) -> Seq<char> {
    match sanitize_spec(slug) {
        Some(s) => s,
        None => slug_spec(unicode_lowercase(trim_spec(name))),
    }
}

/// Law: a blank given slug (empty or only whitespace) counts as absent, so the product
/// takes the slug of its name; a slug with visible text is kept, trimmed; and the
/// slug taken from a name is a well-formed slug.
pub proof fn blank_slug_falls_back_to_name(slug: Seq<char>, name: Seq<char>)
    ensures
        trim_spec(slug).len() == 0 ==> product_slug(Some(slug), name) == product_slug(None, name),
        trim_spec(slug).len() > 0 ==> product_slug(Some(slug), name) == trim_spec(slug),
        product_slug(None, name) == slug_spec(unicode_lowercase(trim_spec(name))),
        is_slug(product_slug(None, name)),
{
    slug_is_well_formed(unicode_lowercase(trim_spec(name)));
}

/// The product fields as they are stored, before the slug is checked.
pub open spec fn product_fields_match(
    p: ProductInput,
    slug: Option<String>,
    name: String,
    description: String,
    image_url: Option<String>,
    category: Option<String>,
) -> bool {
    &&& p.name@ == trim_spec(name@)
    &&& p.description@ == trim_spec(description@)
    &&& p.slug@ == product_slug(opt_chars(slug), trim_spec(name@))
    &&& opt_chars(p.image_url) == sanitize_spec(opt_chars(image_url))
    &&& opt_chars(p.category) == sanitize_spec(opt_chars(category))
}

/// Checks the fields of a product being created or changed: name and description,
/// trimmed, must not be empty, then the price must be positive; the slug is the given
/// one or the name's; with `require_slug`, an empty slug is refused.
pub fn validate_product(
    slug: &Option<String>,
    name: &String,
    description: &String,
    image_url: &Option<String>,
    category: &Option<String>,
    price_is_positive: bool,
    require_slug: bool,
) -> (res: Result<ProductInput, AppError>)
    ensures
        (trim_spec(name@).len() == 0 || trim_spec(description@).len() == 0) ==> (res matches Err(
            AppError::BadRequest(m),
        ) && m@ == "Name and description are required"@),
        (trim_spec(name@).len() > 0 && trim_spec(description@).len() > 0 && !price_is_positive)
            ==> (res matches Err(AppError::BadRequest(m)) && m@ == "Price must be greater than 0"@),
        (trim_spec(name@).len() > 0 && trim_spec(description@).len() > 0 && price_is_positive
            && require_slug && product_slug(opt_chars(*slug), trim_spec(name@)).len() == 0)
            ==> (res matches Err(AppError::BadRequest(m)) && m@ == "Slug is required"@),
        (trim_spec(name@).len() > 0 && trim_spec(description@).len() > 0 && price_is_positive
            && !(require_slug && product_slug(opt_chars(*slug), trim_spec(name@)).len() == 0))
            ==> (res matches Ok(p) && product_fields_match(
            p,
            *slug,
            *name,
            *description,
            *image_url,
            *category,
        )),
{
    let n = trim(name.as_str());
    let d = trim(description.as_str());
    if n.as_str().is_empty() || d.as_str().is_empty() {
        return Err(AppError::BadRequest(owned("Name and description are required")));
    }
    if !price_is_positive {
        return Err(AppError::BadRequest(owned("Price must be greater than 0")));
    }
    let s = match sanitize_optional_text(slug) {
        Some(s) => s,
        None => slugify(n.as_str()),
    };
    if require_slug && s.as_str().is_empty() {
        return Err(AppError::BadRequest(owned("Slug is required")));
    }
    Ok(
        ProductInput {
            slug: s,
            name: n,
            description: d,
            image_url: sanitize_optional_text(image_url),
            category: sanitize_optional_text(category),
        },
    )
}

/// A product that a lookup found, or `Product not found`.
pub fn require_product<T>(found: Option<T>) -> (res: Result<T, AppError>)
    ensures
        match found {
            Some(p) => res == Ok::<T, AppError>(p),
            None => res matches Err(AppError::NotFound(m)) && m@ == "Product not found"@,
        },
{
    match found {
        Some(p) => Ok(p),
        None => Err(AppError::NotFound(owned("Product not found"))),
    }
}

/// The outcome of deactivating a product, from the number of rows the update touched.
pub fn product_deletion_outcome(rows_affected: u64) -> (res: Result<(), AppError>)
    ensures
        rows_affected == 0 ==> (res matches Err(AppError::NotFound(m)) && m@ == "Product not found"@),
        rows_affected > 0 ==> res == Ok::<(), AppError>(()),
{
    if rows_affected == 0 {
        Err(AppError::NotFound(owned("Product not found")))
    } else {
        Ok(())
    }
}

/// The dashboard counters; the order count is the order service's, or `0` when it
/// could not be had.
pub fn admin_stats_response(
    total_users: i64,
    total_products: i64,
    total_visits: i64,
    online_users: i64,
    order_service_total: Option<i64>,
) -> (res: AdminStatsResponse)
    ensures
        res.total_users == total_users,
        res.total_products == total_products,
        res.total_visits == total_visits,
        res.online_users == online_users,
        res.total_orders == match order_service_total {
            Some(t) => t,
            None => 0,
        },
{
    AdminStatsResponse {
        total_users,
        total_products,
        total_orders: match order_service_total {
            Some(t) => t,
            None => 0,
        },
        total_visits,
        online_users,
    }
}

/// The code that Google's callback carries, which must be present.
pub fn google_callback_code(code: &Option<String>) -> (res: Result<String, AppError>)
    ensures
        match opt_chars(*code) {
            Some(c) => res matches Ok(r) && r@ == c,
            None => res == Err::<String, AppError>(AppError::Unauthorized),
        },
{
    match code {
        Some(c) => Ok(c.clone()),
        None => Err(AppError::Unauthorized),
    }
}

/// A step of signing in with Google that failed.
#[derive(Debug, Clone, Copy, PartialEq, Eq)]
pub enum GoogleFailure {
    /// The code could not be sent to Google's token endpoint.
    TokenRequest,
    /// Google refused to exchange the code; the cause is its reply's body.
    TokenRefused,
    /// Google's token reply could not be read.
    TokenUnreadable,
    /// The user-info request could not be sent.
    UserInfoRequest,
    /// Google refused the user-info request; the cause is its reply's body.
    UserInfoRefused,
    /// Google's user-info reply could not be read.
    UserInfoUnreadable,
}

/// The text that an error of a failed Google step starts with.
pub open spec fn google_failure_prefix(f: GoogleFailure) -> Seq<char> {
    match f {
        GoogleFailure::TokenRequest => "Google token exchange failed: "@,
        GoogleFailure::TokenRefused => "Google token exchange failed: "@,
        GoogleFailure::TokenUnreadable => "Failed to parse Google token: "@,
        GoogleFailure::UserInfoRequest => "Failed to get user info: "@,
        GoogleFailure::UserInfoRefused => "Failed to get Google user info: "@,
        GoogleFailure::UserInfoUnreadable => "Failed to parse user info: "@,
    }
}

/// The cause given for a failed Google step when none could be read.
pub open spec fn google_unknown_cause(f: GoogleFailure) -> Seq<char> {
    match f {
        GoogleFailure::TokenRequest | GoogleFailure::TokenRefused
        | GoogleFailure::TokenUnreadable => "unknown google token error"@,
        _ => "unknown google user info error"@,
    }
}

/// The internal error of a failed Google step: its text, then the cause, or a stand-in
/// when the cause (a refusal's body) could not be read.
pub fn google_failure(f: GoogleFailure, cause: &Option<String>) -> (res: AppError)
    ensures
        res matches AppError::Internal(m) && m@ == google_failure_prefix(f) + match *cause {
            Some(c) => c@,
            None => google_unknown_cause(f),
        },
{
    let prefix = match f {
        GoogleFailure::TokenRequest => "Google token exchange failed: ",
        GoogleFailure::TokenRefused => "Google token exchange failed: ",
        GoogleFailure::TokenUnreadable => "Failed to parse Google token: ",
        GoogleFailure::UserInfoRequest => "Failed to get user info: ",
        GoogleFailure::UserInfoRefused => "Failed to get Google user info: ",
        GoogleFailure::UserInfoUnreadable => "Failed to parse user info: ",
    };
    let unknown = match f {
        GoogleFailure::TokenRequest | GoogleFailure::TokenRefused
        | GoogleFailure::TokenUnreadable => "unknown google token error",
        _ => "unknown google user info error",
    };
    match cause {
        Some(c) => AppError::Internal(concat2(prefix, c.as_str())),
        None => AppError::Internal(concat2(prefix, unknown)),
    }
}

/// The UTF-8 encoding of a character.
pub open spec fn utf8_bytes(c: char) -> Seq<u8> {
    let n = c as int;
    if n < 0x80 {
        seq![n as u8]
    } else if n < 0x800 {
        seq![(0xC0 + n / 64) as u8, (0x80 + n % 64) as u8]
    } else if n < 0x10000 {
        seq![(0xE0 + n / 4096) as u8, (0x80 + (n / 64) % 64) as u8, (0x80 + n % 64) as u8]
    } else {
        seq![
            (0xF0 + n / 262144) as u8,
            (0x80 + (n / 4096) % 64) as u8,
            (0x80 + (n / 64) % 64) as u8,
            (0x80 + n % 64) as u8,
        ]
    }
}

/// The characters that URL encoding leaves as they are.
pub open spec fn url_unreserved(c: char) -> bool {
    ||| ('0' <= c && c <= '9')
    ||| ('a' <= c && c <= 'z')
    ||| ('A' <= c && c <= 'Z')
    ||| c == '-' || c == '_' || c == '.' || c == '~'
}

/// An uppercase hexadecimal digit, for `0 <= d < 16`.
pub open spec fn hex_digit_upper(d: int) -> char {
    if d < 10 {
        (48 + d) as char
    } else {
        (55 + d) as char
    }
}

/// How URL encoding writes one byte: an unreserved ASCII byte as itself, any other as
/// `%` and its two uppercase hexadecimal digits.
pub open spec fn url_encoded_byte(b: u8) -> Seq<char> {
    if url_unreserved(b as char) {
        seq![b as char]
    } else {
        seq!['%', hex_digit_upper(b as int / 16), hex_digit_upper(b as int % 16)]
    }
}

/// URL encoding of a byte sequence, byte by byte.
pub open spec fn url_encoded_bytes(bs: Seq<u8>) -> Seq<char>
    decreases bs.len(),
{
    if bs.len() == 0 {
        Seq::empty()
    } else {
        url_encoded_byte(bs[0]) + url_encoded_bytes(bs.drop_first())
    }
}

/// URL encoding of a text: the encoding of its UTF-8 bytes.
pub open spec fn url_encoded(s: Seq<char>) -> Seq<char>
    decreases s.len(),
{
    if s.len() == 0 {
        Seq::empty()
    } else {
        url_encoded_bytes(utf8_bytes(s[0])) + url_encoded(s.drop_first())
    }
}

/// A text of unreserved characters only is its own URL encoding.
pub proof fn unreserved_text_is_unchanged(s: Seq<char>)
    requires
        forall|i: int| 0 <= i < s.len() ==> url_unreserved(#[trigger] s[i]),
    ensures
        url_encoded(s) == s,
    decreases s.len(),
{
    if s.len() > 0 {
        let c = s[0];
        let b: u8 = (c as int) as u8;
        assert(url_unreserved(c));
        assert(b as char == c);
        assert(utf8_bytes(c) == seq![b]);
        assert(url_encoded_byte(b) == seq![c]);
        assert(url_encoded_bytes(seq![b]) == seq![c]) by {
            assert(seq![b].drop_first() =~= Seq::<u8>::empty());
            assert(url_encoded_bytes(Seq::<u8>::empty()) =~= Seq::<char>::empty());
            assert(seq![c] + Seq::<char>::empty() =~= seq![c]);
        }
        unreserved_text_is_unchanged(s.drop_first());
        assert(s =~= seq![c] + s.drop_first());
    }
}

/// Calls `urlencoding::encode`, which percent-encodes each UTF-8 byte of the text but
/// ASCII letters, digits, `-`, `_`, `.` and `~`, with uppercase hexadecimal digits.
#[verifier::external_body]
fn url_encode(s: &str) -> (res: String)
    ensures
        res@ == url_encoded(s@),
{
    urlencoding::encode(s).into_owned()
}

/// The start of Google's consent page address, before the client id.
pub open spec fn google_auth_prefix() -> Seq<char> {
    "https://accounts.google.com/o/oauth2/v2/auth?response_type=code&client_id="@
}

/// The end of Google's consent page address, after the redirect URI.
pub open spec fn google_auth_suffix() -> Seq<char> {
    "&scope=openid%20email%20profile&access_type=offline&prompt=consent"@
}

/// Google's consent page address for a client id and an already encoded redirect URI.
pub fn google_auth_url_from_encoded(client_id: &str, encoded_redirect: &str) -> (res: String)
    ensures
        res@ == google_auth_prefix() + client_id@ + "&redirect_uri="@ + encoded_redirect@
            + google_auth_suffix(),
{
    let mut out = concat3(
        "https://accounts.google.com/o/oauth2/v2/auth?response_type=code&client_id=",
        client_id,
        "&redirect_uri=",
    );
    out.append(encoded_redirect);
    out.append("&scope=openid%20email%20profile&access_type=offline&prompt=consent");
    out
}

/// Google's consent page address for the gateway's client id and redirect URI.
pub fn google_auth_url(client_id: &str, redirect_url: &str) -> (res: String)
    ensures
        res@ == google_auth_prefix() + client_id@ + "&redirect_uri="@ + url_encoded(redirect_url@)
            + google_auth_suffix(),
{
    let encoded = url_encode(redirect_url);
    google_auth_url_from_encoded(client_id, encoded.as_str())
}

/// The order service's collection of orders.
pub fn orders_url(base: &str) -> (res: String)
    ensures
        res@ == base@ + "/orders"@,
{
    concat2(base, "/orders")
}

/// The order service's address of one order.
pub fn order_url(base: &str, order_id: i64) -> (res: String)
    ensures
        res@ == base@ + "/orders/"@ + decimal(order_id as int),
{
    let id = format_i64(order_id);
    concat3(base, "/orders/", id.as_str())
}

/// The order service's summary for administrators.
pub fn admin_summary_url(base: &str) -> (res: String)
    ensures
        res@ == base@ + "/orders/admin/summary"@,
{
    concat2(base, "/orders/admin/summary")
}

/// Whether the allowed origins admit every origin (one of them is `*`).
pub fn allows_any_origin(origins: &Vec<String>) -> (res: bool)
    ensures
        res == exists|i: int| 0 <= i < origins@.len() && (#[trigger] origins@[i])@ == "*"@,
{
    let mut i: usize = 0;
    while i < origins.len()
        invariant
            i <= origins.len(),
            forall|j: int| 0 <= j < i ==> (#[trigger] origins@[j])@ != "*"@,
        decreases origins.len() - i,
    {
        if same_text(origins[i].as_str(), "*") {
            return true;
        }
        i = i + 1;
    }
    false
}

} // verus!
