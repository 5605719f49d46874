use rylus::web::{
    apply_access_code_update, auth_location, authenticate, conclude_auth, extract_session_token, form_access_code,
    hash_access_code, rate_limited_location, request_authed, route, session_cookie, verify_access_code,
    ws_origin_matches_host, apply_settings_update, random_token, ServerSettings, SettingsUpdate, token_char, token_from_draws, AuthOutcome, HttpMethod, IpKey, RateLimiter, Route, SessionStore, MAX_FAILED_ATTEMPTS,
    NANOS_PER_SEC, SESSION_TTL_NS,
};

const T0: u64 = 1_000 * NANOS_PER_SEC;

#[test]
fn hash_and_verify_correct_code() {
    let code = "my_secret_code";
    let hash = hash_access_code(code).unwrap();
    assert!(verify_access_code(code, &hash));
}

#[test]
fn verify_wrong_code_fails() {
    let hash = hash_access_code("correct").unwrap();
    assert!(!verify_access_code("wrong", &hash));
}

#[test]
fn verify_empty_code() {
    let hash = hash_access_code("").unwrap();
    assert!(verify_access_code("", &hash));
    assert!(!verify_access_code("notempty", &hash));
}

#[test]
fn hash_produces_unique_salts() {
    let h1 = hash_access_code("same").unwrap();
    let h2 = hash_access_code("same").unwrap();
    assert_ne!(h1, h2);
    assert!(verify_access_code("same", &h1));
    assert!(verify_access_code("same", &h2));
}

#[test]
fn verify_invalid_hash_returns_false() {
    assert!(!verify_access_code("anything", "not_a_valid_hash"));
}

#[test]
fn verify_with_unicode_code() {
    let code = "\u{1F680}rocket\u{2603}";
    let hash = hash_access_code(code).unwrap();
    assert!(verify_access_code(code, &hash));
    assert!(!verify_access_code("rocket", &hash));
}

#[test]
fn rate_limiter_new_ip_not_locked() {
    let mut rl = RateLimiter::new();
    let ip = IpKey::V4(0x0A00_0001);
    assert!(!rl.is_locked_out(ip, T0));
}

#[test]
fn rate_limiter_below_threshold_not_locked() {
    let mut rl = RateLimiter::new();
    let ip = IpKey::V4(0x0A00_0001);
    for _ in 0..(MAX_FAILED_ATTEMPTS - 1) {
        rl.record_failure(ip, T0);
    }
    assert!(!rl.is_locked_out(ip, T0));
}

#[test]
fn rate_limiter_at_threshold_locked() {
    let mut rl = RateLimiter::new();
    let ip = IpKey::V4(0x0A00_0002);
    for _ in 0..MAX_FAILED_ATTEMPTS {
        rl.record_failure(ip, T0);
    }
    assert!(rl.is_locked_out(ip, T0));
    assert_eq!(rl.lockout_remaining(ip, T0), Some(30));
}

#[test]
fn rate_limiter_different_ips_independent() {
    let mut rl = RateLimiter::new();
    let ip1 = IpKey::V4(0x0A00_0001);
    let ip2 = IpKey::V4(0x0A00_0002);
    for _ in 0..MAX_FAILED_ATTEMPTS {
        rl.record_failure(ip1, T0);
    }
    assert!(rl.is_locked_out(ip1, T0));
    assert!(!rl.is_locked_out(ip2, T0));
}

#[test]
fn rate_limiter_ipv6() {
    let mut rl = RateLimiter::new();
    let ip = IpKey::V6(1);
    for _ in 0..MAX_FAILED_ATTEMPTS {
        rl.record_failure(ip, T0);
    }
    assert!(rl.is_locked_out(ip, T0));
}

#[test]
fn rate_limiter_lockout_counts_down_and_expires() {
    let mut rl = RateLimiter::new();
    let ip = IpKey::V4(7);
    for _ in 0..MAX_FAILED_ATTEMPTS {
        rl.record_failure(ip, T0);
    }
    assert_eq!(rl.lockout_remaining(ip, T0 + 10 * NANOS_PER_SEC), Some(20));
    assert_eq!(rl.lockout_remaining(ip, T0 + 29 * NANOS_PER_SEC + NANOS_PER_SEC / 2), Some(1));
    assert_eq!(rl.lockout_remaining(ip, T0 + 30 * NANOS_PER_SEC), None);
    // Attempts older than the window are forgotten.
    rl.record_failure(ip, T0 + 61 * NANOS_PER_SEC);
    assert!(!rl.is_locked_out(ip, T0 + 61 * NANOS_PER_SEC));
}

#[test]
fn session_store_create_and_validate() {
    let mut store = SessionStore::new();
    let token = store.create_session(T0);
    assert!(!token.is_empty());
    assert!(store.is_valid(&token, T0));
}

#[test]
fn session_store_invalid_token() {
    let mut store = SessionStore::new();
    assert!(!store.is_valid("nonexistent_token", T0));
}

#[test]
fn session_store_empty_token() {
    let mut store = SessionStore::new();
    assert!(!store.is_valid("", T0));
}

#[test]
fn session_store_tokens_are_unique() {
    let mut store = SessionStore::new();
    let t1 = store.create_session(T0);
    let t2 = store.create_session(T0);
    assert_ne!(t1, t2);
    assert!(store.is_valid(&t1, T0));
    assert!(store.is_valid(&t2, T0));
}

#[test]
fn session_store_token_length() {
    let mut store = SessionStore::new();
    let token = store.create_session(T0);
    assert_eq!(token.len(), 32);
}

#[test]
fn session_store_token_is_alphanumeric() {
    let mut store = SessionStore::new();
    let token = store.create_session(T0);
    assert!(token.chars().all(|c| c.is_ascii_lowercase() || c.is_ascii_digit()));
}

#[test]
fn session_expires_after_a_day() {
    let mut store = SessionStore::new();
    let token = store.create_session(T0);
    assert!(store.is_valid(&token, T0 + SESSION_TTL_NS - 1));
    assert!(!store.is_valid(&token, T0 + SESSION_TTL_NS));
    // The expired session was removed.
    assert!(!store.is_valid(&token, T0));
}

#[test]
fn origin_check() {
    assert!(ws_origin_matches_host(None, Some("host:1701")));
    assert!(ws_origin_matches_host(Some(""), None));
    assert!(ws_origin_matches_host(Some("https://host:1701"), Some("host:1701")));
    assert!(ws_origin_matches_host(Some("https://host:1701/path"), Some("host:1701")));
    assert!(!ws_origin_matches_host(Some("https://evil:1701"), Some("host:1701")));
    assert!(!ws_origin_matches_host(Some("https://host:1701"), None));
    assert!(ws_origin_matches_host(Some("host:1701"), Some("host:1701")));
    assert!(!ws_origin_matches_host(Some("https://"), Some("")));
}

#[test]
fn session_token_from_cookie() {
    assert_eq!(extract_session_token(None), None);
    assert_eq!(extract_session_token(Some("rylus_session=abc")).as_deref(), Some("abc"));
    assert_eq!(extract_session_token(Some("a=1;  rylus_session=tok ; b=2")).as_deref(), Some("tok"));
    assert_eq!(extract_session_token(Some("a=1; b=2")), None);
    assert_eq!(extract_session_token(Some("x=rylus_session=no")), None);
    assert_eq!(extract_session_token(Some("rylus_session=")).as_deref(), Some(""));
    assert_eq!(
        extract_session_token(Some("rylus_session=first; rylus_session=second")).as_deref(),
        Some("first")
    );
}

#[test]
fn routing_decisions() {
    assert_eq!(route(HttpMethod::Get, "/settings", true, false, true), Route::Unauthorized);
    assert_eq!(route(HttpMethod::Get, "/settings", true, true, true), Route::Settings);
    assert_eq!(route(HttpMethod::Get, "/api/config", false, true, true), Route::GetConfig);
    assert_eq!(route(HttpMethod::Post, "/api/config", true, false, true), Route::Unauthorized);
    assert_eq!(route(HttpMethod::Post, "/auth", true, false, true), Route::Auth);
    assert_eq!(route(HttpMethod::Post, "/auth", false, true, true), Route::NotFound);
    assert_eq!(route(HttpMethod::Other, "/", false, true, true), Route::NotFound);
    assert_eq!(route(HttpMethod::Get, "/", true, false, true), Route::AccessPage);
    assert_eq!(route(HttpMethod::Get, "/", true, true, true), Route::Index);
    assert_eq!(route(HttpMethod::Get, "/ws", true, false, true), Route::WsUnauthorized);
    assert_eq!(route(HttpMethod::Get, "/ws", true, true, false), Route::WsForbidden);
    assert_eq!(route(HttpMethod::Get, "/ws", true, true, true), Route::WsUpgrade);
    assert_eq!(route(HttpMethod::Get, "/style.css", true, false, true), Route::StyleCss);
    assert_eq!(route(HttpMethod::Get, "/lib.js", true, false, true), Route::LibJs);
    assert_eq!(route(HttpMethod::Get, "/sw.js", true, false, true), Route::ServiceWorker);
    assert_eq!(route(HttpMethod::Get, "/manifest.webmanifest", true, false, true), Route::Manifest);
    assert_eq!(route(HttpMethod::Get, "/missing", true, true, true), Route::NotFound);
}

#[test]
fn authed_without_access_code_always() {
    let mut store = SessionStore::new();
    assert!(request_authed(&mut store, false, None, T0));
    assert!(!request_authed(&mut store, true, None, T0));
    let token = store.create_session(T0);
    let cookie = format!("rylus_session={token}");
    assert!(request_authed(&mut store, true, Some(&cookie), T0));
}

#[test]
fn form_access_code_last_value_wins() {
    assert_eq!(form_access_code(b"access_code=1234").as_deref(), Some("1234"));
    assert_eq!(form_access_code(b"access_code=a%20b+c").as_deref(), Some("a b c"));
    assert_eq!(form_access_code(b"access_code=1&access_code=2").as_deref(), Some("2"));
    assert_eq!(form_access_code(b"other=1"), None);
}

#[test]
fn authentication_flow() {
    let hash = hash_access_code("1234").unwrap();
    let mut limiter = RateLimiter::new();
    let mut sessions = SessionStore::new();
    let ip = IpKey::V4(1);
    let outcome = authenticate(&mut limiter, &mut sessions, ip, T0, b"access_code=1234", &hash);
    match &outcome {
        AuthOutcome::Authenticated(token) => {
            assert_eq!(token.len(), 32);
            assert!(sessions.is_valid(token, T0));
        }
        AuthOutcome::Rejected(_) => panic!("correct code refused"),
    }
    assert_eq!(auth_location(&outcome), "/");
    for _ in 0..(MAX_FAILED_ATTEMPTS - 1) {
        let outcome = authenticate(&mut limiter, &mut sessions, ip, T0, b"access_code=0000", &hash);
        assert!(matches!(outcome, AuthOutcome::Rejected(None)));
        assert_eq!(auth_location(&outcome), "/?auth_error=invalid");
    }
    let outcome = authenticate(&mut limiter, &mut sessions, ip, T0, b"access_code=", &hash);
    assert!(matches!(outcome, AuthOutcome::Rejected(Some(30))));
    assert_eq!(auth_location(&outcome), "/?auth_error=rate_limited&retry=30");
    assert_eq!(limiter.lockout_remaining(ip, T0), Some(30));
}

#[test]
fn conclude_auth_records_only_failures() {
    let mut limiter = RateLimiter::new();
    let mut sessions = SessionStore::new();
    let ip = IpKey::V6(9);
    let outcome = conclude_auth(&mut limiter, &mut sessions, ip, T0, false);
    assert!(matches!(outcome, AuthOutcome::Rejected(None)));
    assert!(matches!(conclude_auth(&mut limiter, &mut sessions, ip, T0, true), AuthOutcome::Authenticated(_)));
}

#[test]
fn response_strings() {
    assert_eq!(rate_limited_location(12), "/?auth_error=rate_limited&retry=12");
    assert_eq!(
        session_cookie("abc"),
        "rylus_session=abc; HttpOnly; SameSite=Strict; Path=/; Max-Age=86400"
    );
}

#[test]
fn rotating_access_code_clears_sessions() {
    let mut sessions = SessionStore::new();
    let token = sessions.create_session(T0);
    let mut code = Some("old".to_string());
    assert!(!apply_access_code_update(&mut code, None, &mut sessions));
    assert!(!apply_access_code_update(&mut code, Some(Some("old".to_string())), &mut sessions));
    assert!(sessions.is_valid(&token, T0));
    assert!(apply_access_code_update(&mut code, Some(Some("new".to_string())), &mut sessions));
    assert_eq!(code.as_deref(), Some("new"));
    assert!(!sessions.is_valid(&token, T0));
    let token = sessions.create_session(T0);
    assert!(apply_access_code_update(&mut code, Some(None), &mut sessions));
    assert_eq!(code, None);
    assert!(!sessions.is_valid(&token, T0));
}

#[test]
fn token_digits_map_to_digits_then_letters() {
    assert_eq!(token_char(0), '0');
    assert_eq!(token_char(9), '9');
    assert_eq!(token_char(10), 'a');
    assert_eq!(token_char(35), 'z');
    assert_eq!(token_from_draws(&[0, 9, 10, 35, 17]), "09azh");
    assert_eq!(token_from_draws(&[]), "");
}

#[test]
fn random_tokens_are_32_digits_or_letters() {
    let t = random_token();
    assert_eq!(t.len(), 32);
    assert!(t.chars().all(|c| c.is_ascii_digit() || c.is_ascii_lowercase()));
    assert_ne!(random_token(), t);
}

#[test]
fn hash_that_is_no_phc_string_verifies_nothing() {
    assert!(!verify_access_code("", "not_a_valid_hash"));
    assert!(!verify_access_code("code", ""));
}

fn settings() -> ServerSettings {
    ServerSettings { web_port: 1701, access_code: Some("1234".to_string()), try_vaapi: true, try_nvenc: false, wayland_support: false }
}

#[test]
fn settings_update_replaces_only_submitted_fields() {
    let mut s = settings();
    let mut sessions = SessionStore::new();
    let token = sessions.create_session(T0);
    let change = SettingsUpdate { web_port: Some(8080), access_code: None, try_vaapi: None, try_nvenc: Some(true), wayland_support: None };
    assert!(!apply_settings_update(&mut s, change, &mut sessions));
    assert_eq!(s.web_port, 8080);
    assert_eq!(s.access_code.as_deref(), Some("1234"));
    assert!(s.try_vaapi && s.try_nvenc && !s.wayland_support);
    assert!(sessions.is_valid(&token, T0));
}

#[test]
fn settings_update_rotating_code_clears_sessions() {
    let mut s = settings();
    let mut sessions = SessionStore::new();
    let token = sessions.create_session(T0);
    let change = SettingsUpdate { web_port: None, access_code: Some(Some("5678".to_string())), try_vaapi: None, try_nvenc: None, wayland_support: Some(true) };
    assert!(apply_settings_update(&mut s, change, &mut sessions));
    assert_eq!(s.access_code.as_deref(), Some("5678"));
    assert_eq!(s.web_port, 1701);
    assert!(s.wayland_support);
    assert!(!sessions.is_valid(&token, T0));
    let clear = SettingsUpdate { web_port: None, access_code: Some(None), try_vaapi: None, try_nvenc: None, wayland_support: None };
    assert!(apply_settings_update(&mut s, clear, &mut sessions));
    assert_eq!(s.access_code, None);
}
