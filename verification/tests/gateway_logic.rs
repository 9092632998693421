use pulse_commerce::errors::AppError;
use pulse_commerce::gateway::{
    admin_stats_response, admin_summary_url, allows_any_origin, bearer_token,
    build_frontend_redirect, check_login, current_auth_header, current_user_id_from_headers,
    ensure_admin, google_auth_url, google_auth_url_from_encoded, google_callback_code,
    hash_registration_password, login_response, me_response, order_url, orders_url,
    product_deletion_outcome, require_product, role_is_admin, sanitize_optional_text,
    validate_product, validate_profile_update, validate_visit, RecordVisitRequest,
    UpdateMeRequest, UserRecord,
};

fn user(hash: &str) -> UserRecord {
    UserRecord {
        id: 3,
        email: "a@b.c".to_string(),
        password_hash: hash.to_string(),
        role: "user".to_string(),
        full_name: None,
        avatar_url: None,
        auth_provider: "email".to_string(),
    }
}

#[test]
fn sanitize_trims_and_drops_blank_text() {
    assert_eq!(sanitize_optional_text(&Some("  x ".to_string())), Some("x".to_string()));
    assert_eq!(sanitize_optional_text(&Some("   ".to_string())), None);
    assert_eq!(sanitize_optional_text(&None), None);
}

#[test]
fn frontend_redirect_carries_the_token() {
    assert_eq!(build_frontend_redirect("t0k"), "http://localhost:5173/login?token=t0k");
}

#[test]
fn user_id_header_must_be_an_integer() {
    assert_eq!(current_user_id_from_headers(&Some("42".to_string())), Ok(42));
    assert_eq!(current_user_id_from_headers(&Some("4x".to_string())), Err(AppError::Unauthorized));
    assert_eq!(current_user_id_from_headers(&None), Err(AppError::Unauthorized));
    assert_eq!(current_auth_header(&None), Err(AppError::Unauthorized));
    assert_eq!(current_auth_header(&Some("Bearer x".to_string())), Ok("Bearer x".to_string()));
}

#[test]
fn bearer_tokens() {
    assert_eq!(bearer_token("Bearer abc.def"), Ok("abc.def".to_string()));
    assert_eq!(bearer_token("Basic abc"), Err(AppError::Unauthorized));
}

#[test]
fn only_admins_pass() {
    assert!(role_is_admin("admin"));
    assert_eq!(ensure_admin(&Some("ADMIN".to_string())), Ok(()));
    assert_eq!(ensure_admin(&Some("user".to_string())), Err(AppError::Unauthorized));
    assert_eq!(ensure_admin(&None), Err(AppError::Unauthorized));
}

#[test]
fn registered_password_signs_in_and_others_do_not() {
    let hash = hash_registration_password("hunter2").unwrap();
    assert!(hash.starts_with("$2b$12$"));
    assert_eq!(hash.len(), 60);
    let u = user(&hash);
    assert_eq!(check_login(Some(u.clone()), "hunter2").map(|r| r.id), Ok(3));
    assert_eq!(check_login(Some(u), "wrong").map(|r| r.id), Err(AppError::Unauthorized));
    assert_eq!(
        check_login(Some(user("google_authenticated")), "x").map(|r| r.id),
        Err(AppError::Unauthorized)
    );
    assert_eq!(check_login(Some(user("not-a-hash")), "x").map(|r| r.id), Err(AppError::Unauthorized));
    assert_eq!(check_login(None, "x").map(|r| r.id), Err(AppError::Unauthorized));
}

#[test]
fn responses_copy_the_account() {
    let u = user("h");
    let l = login_response("tok".to_string(), u.clone());
    assert_eq!((l.token.as_str(), l.user_id, l.email.as_str(), l.role.as_str()), ("tok", 3, "a@b.c", "user"));
    let m = me_response(u);
    assert_eq!((m.id, m.auth_provider.as_str()), (3, "email"));
}

#[test]
fn profile_updates_need_a_name() {
    let ok = validate_profile_update(&UpdateMeRequest {
        full_name: "  Ann Lee ".to_string(),
        avatar_url: Some("  ".to_string()),
    })
    .unwrap();
    assert_eq!(ok.full_name, "Ann Lee");
    assert_eq!(ok.avatar_url, None);
    let err = validate_profile_update(&UpdateMeRequest { full_name: " ".to_string(), avatar_url: None });
    assert_eq!(err.map(|p| p.full_name), Err(AppError::BadRequest("Full name is required".to_string())));
}

#[test]
fn visits_need_a_page_key() {
    let req = RecordVisitRequest { page_key: " /home ".to_string(), session_id: Some(" s1 ".to_string()) };
    let v = validate_visit(&req, &Some("17".to_string())).unwrap();
    assert_eq!((v.page_key.as_str(), v.user_id, v.session_id.as_deref()), ("/home", Some(17), Some("s1")));
    let v2 = validate_visit(&req, &Some("x".to_string())).unwrap();
    assert_eq!(v2.user_id, None);
    let bad = RecordVisitRequest { page_key: "".to_string(), session_id: None };
    assert_eq!(
        validate_visit(&bad, &None).map(|v| v.page_key),
        Err(AppError::BadRequest("page_key is required".to_string()))
    );
}

#[test]
fn product_fields_are_checked_in_order() {
    let name = "  Smart Phone X ".to_string();
    let desc = " Nice ".to_string();
    let p = validate_product(&None, &name, &desc, &Some(" img ".to_string()), &None, true, true).unwrap();
    assert_eq!(
        (p.slug.as_str(), p.name.as_str(), p.description.as_str(), p.image_url.as_deref(), p.category),
        ("smart-phone-x", "Smart Phone X", "Nice", Some("img"), None)
    );
    let given = validate_product(&Some(" my-slug ".to_string()), &name, &desc, &None, &None, true, true).unwrap();
    assert_eq!(given.slug, "my-slug");
    assert_eq!(
        validate_product(&None, &" ".to_string(), &desc, &None, &None, false, true).map(|p| p.slug),
        Err(AppError::BadRequest("Name and description are required".to_string()))
    );
    assert_eq!(
        validate_product(&None, &name, &desc, &None, &None, false, true).map(|p| p.slug),
        Err(AppError::BadRequest("Price must be greater than 0".to_string()))
    );
    assert_eq!(
        validate_product(&None, &"!!!".to_string(), &desc, &None, &None, true, true).map(|p| p.slug),
        Err(AppError::BadRequest("Slug is required".to_string()))
    );
    assert_eq!(
        validate_product(&None, &"!!!".to_string(), &desc, &None, &None, true, false).map(|p| p.slug),
        Ok(String::new())
    );
}

#[test]
fn product_lookups_and_deletions() {
    assert_eq!(require_product(Some(5)), Ok(5));
    assert_eq!(require_product::<i32>(None), Err(AppError::NotFound("Product not found".to_string())));
    assert_eq!(product_deletion_outcome(0), Err(AppError::NotFound("Product not found".to_string())));
    assert_eq!(product_deletion_outcome(2), Ok(()));
}

#[test]
fn admin_stats_default_orders_to_zero() {
    let s = admin_stats_response(1, 2, 3, 4, None);
    assert_eq!((s.total_users, s.total_products, s.total_orders, s.total_visits, s.online_users), (1, 2, 0, 3, 4));
    assert_eq!(admin_stats_response(1, 2, 3, 4, Some(9)).total_orders, 9);
}

#[test]
fn google_addresses() {
    assert_eq!(google_callback_code(&None), Err(AppError::Unauthorized));
    assert_eq!(google_callback_code(&Some("c".to_string())), Ok("c".to_string()));
    let url = google_auth_url("cid", "http://localhost:8080/api/auth/google/callback");
    assert_eq!(
        url,
        "https://accounts.google.com/o/oauth2/v2/auth?response_type=code&client_id=cid&redirect_uri=http%3A%2F%2Flocalhost%3A8080%2Fapi%2Fauth%2Fgoogle%2Fcallback&scope=openid%20email%20profile&access_type=offline&prompt=consent"
    );
    assert_eq!(
        google_auth_url("c", "https://ex.com/é €?a=b~c"),
        "https://accounts.google.com/o/oauth2/v2/auth?response_type=code&client_id=c&redirect_uri=https%3A%2F%2Fex.com%2F%C3%A9%20%E2%82%AC%3Fa%3Db~c&scope=openid%20email%20profile&access_type=offline&prompt=consent"
    );
    assert_eq!(
        google_auth_url_from_encoded("c", "x"),
        "https://accounts.google.com/o/oauth2/v2/auth?response_type=code&client_id=c&redirect_uri=x&scope=openid%20email%20profile&access_type=offline&prompt=consent"
    );
}

#[test]
fn order_service_addresses() {
    assert_eq!(orders_url("http://o:8081"), "http://o:8081/orders");
    assert_eq!(order_url("http://o:8081", 12), "http://o:8081/orders/12");
    assert_eq!(admin_summary_url("http://o"), "http://o/orders/admin/summary");
}

#[test]
fn wildcard_origin() {
    assert!(allows_any_origin(&vec!["http://a".to_string(), "*".to_string()]));
    assert!(!allows_any_origin(&vec!["http://a".to_string()]));
}

#[test]
fn sanitizing_twice_is_sanitizing_once() {
    for s in ["  x ", "   ", "a b", "\u{a0}y\u{a0}"] {
        let once = sanitize_optional_text(&Some(s.to_string()));
        assert_eq!(sanitize_optional_text(&once), once);
    }
}
