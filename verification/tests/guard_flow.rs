use tower_surf::CookieJar;
use tower_surf::Error;
use tower_surf::Expiry;
use tower_surf::GuardState;
use tower_surf::HttpMethod;
use tower_surf::SameSite;
use tower_surf::Surf;
use tower_surf::Token;
use tower_surf::Verdict;
use tower_surf::bootstrap;
use tower_surf::guard_precheck;
use tower_surf::guard_verdict;
use tower_surf::validate_token;

fn fresh_token(secret: &[u8]) -> Token {
    Token { config: Surf::new(secret).config, jar: CookieJar::new() }
}

#[test]
fn creates_initial_cookie() {
    let mut token = fresh_token(b"secret-key");
    bootstrap(&mut token).unwrap();
    let cookie = token.jar.get(b"__HOST-csrf_token");
    assert!(cookie.is_some());
}

#[test]
fn initial_cookie_validates_and_is_well_attributed() {
    let mut token = fresh_token(b"secret-key");
    bootstrap(&mut token).unwrap();
    let entry = token.jar.get(b"__HOST-csrf_token").unwrap();
    assert!(entry.path_root);
    assert!(entry.http_only);
    assert!(entry.secure);
    assert_eq!(entry.same_site, SameSite::Strict);
    assert_eq!(entry.expires, Expiry::Session);
    assert!(validate_token(b"secret-key", &entry.value, &entry.value));
}

#[test]
fn bootstrap_is_idempotent() {
    let mut token = fresh_token(b"secret-key");
    bootstrap(&mut token).unwrap();
    let first = token.get().expect("cookie not found.");
    bootstrap(&mut token).unwrap();
    let second = token.get().expect("cookie not found.");
    assert_eq!(first, second);
}

#[test]
fn updates_cookie() {
    let mut token = fresh_token(b"secret-key");
    bootstrap(&mut token).unwrap();
    token.set(b"unique-session-id").unwrap();
    let value = token.get().expect("cookie not found.");
    let value = String::from_utf8(value).unwrap();
    assert!(value.contains("unique-session-id"));
}

#[test]
fn set_binds_identifier_into_message() {
    let mut token = fresh_token(b"secret-key");
    token.set(b"session-42").unwrap();
    let value = token.get().expect("cookie not found.");
    let value = String::from_utf8(value).unwrap();
    let message = value.splitn(2, '.').nth(1).unwrap();
    assert!(message.contains("session-42!"));
}

#[test]
fn resets_cookie() {
    let mut token = fresh_token(b"secret-key");
    bootstrap(&mut token).unwrap();
    token.set(b"unique-session-id").unwrap();
    token.reset();
    match token.get() {
        Ok(_) => panic!("cookie should be gone after a reset"),
        Err(err) => assert_eq!(err, Error::NoCookie),
    }
}

#[test]
fn guards_mutation() {
    let mut token = fresh_token(b"secret-key");
    bootstrap(&mut token).unwrap();
    let cookie_value = token.get().expect("cookie not found.");
    let Token { config, jar } = token;

    // Correct token sent.
    let state = guard_precheck(&config, &jar, HttpMethod::Post, Some(cookie_value.clone()));
    assert_eq!(guard_verdict(&config.secret, &state), Verdict::Deliver);

    // Incorrect token sent.
    let state = guard_precheck(&config, &jar, HttpMethod::Post, Some(b"oh howdy doody".to_vec()));
    assert_eq!(guard_verdict(&config.secret, &state), Verdict::Forbidden);

    // No token sent.
    let state = guard_precheck(&config, &jar, HttpMethod::Post, None);
    assert_eq!(guard_verdict(&config.secret, &state), Verdict::Forbidden);
}

#[test]
fn safe_methods_pass_through() {
    let config = Surf::new(b"secret-key").config;
    let jar = CookieJar::new();
    for method in [
        HttpMethod::Get,
        HttpMethod::Head,
        HttpMethod::Options,
        HttpMethod::Trace,
        HttpMethod::Connect,
        HttpMethod::Other,
    ] {
        let state = guard_precheck(&config, &jar, method, None);
        assert!(matches!(state, GuardState::PassThrough));
        assert_eq!(guard_verdict(&config.secret, &state), Verdict::Deliver);
    }
}

#[test]
fn mutating_methods_are_checked() {
    let config = Surf::new(b"secret-key").config;
    let jar = CookieJar::new();
    for method in [HttpMethod::Post, HttpMethod::Put, HttpMethod::Patch, HttpMethod::Delete] {
        let state = guard_precheck(&config, &jar, method, None);
        assert!(matches!(state, GuardState::Checked { .. }));
    }
}

#[test]
fn missing_cookie_is_forbidden() {
    let config = Surf::new(b"secret-key").config;
    let jar = CookieJar::new();
    let state = guard_precheck(&config, &jar, HttpMethod::Post, Some(b"anything".to_vec()));
    assert_eq!(guard_verdict(&config.secret, &state), Verdict::Forbidden);
}

#[test]
fn builder_overrides_take_effect() {
    let surf = Surf::new(b"secret-key")
        .cookie_name(b"my_cookie".to_vec())
        .expires(Expiry::At(1700000000))
        .field_name(b"my_field".to_vec())
        .header_name(b"X-My-Token".to_vec())
        .http_only(false)
        .prefix(false)
        .same_site(SameSite::Lax)
        .secure(false);
    let config = surf.config;
    assert_eq!(config.cookie_name, b"my_cookie".to_vec());
    assert_eq!(config.expires, Expiry::At(1700000000));
    assert_eq!(config.field_name, b"my_field".to_vec());
    assert_eq!(config.header_name, b"X-My-Token".to_vec());
    assert!(!config.http_only);
    assert!(!config.prefix);
    assert_eq!(config.same_site, SameSite::Lax);
    assert!(!config.secure);
    assert_eq!(config.cookie_name(), b"my_cookie".to_vec());
}

#[test]
fn host_prefix_applies_to_effective_name() {
    let config = Surf::new(b"secret-key").config;
    assert_eq!(config.cookie_name, b"csrf_token".to_vec());
    assert_eq!(config.header_name, b"X-CSRF-Token".to_vec());
    assert_eq!(config.cookie_name(), b"__HOST-csrf_token".to_vec());
}

#[test]
fn guard_layer_wraps_inner_service() {
    let service = tower_surf::GuardService::new(7usize);
    assert_eq!(service.inner, 7usize);
    let layered = tower_surf::Guard.layer(41usize);
    assert_eq!(layered.inner, 41usize);
}

#[test]
fn jar_keeps_other_cookies_apart() {
    let mut token = fresh_token(b"secret-key");
    token.jar.add(tower_surf::CookieEntry {
        name: b"other".to_vec(),
        value: b"keep-me".to_vec(),
        path_root: false,
        expires: Expiry::Session,
        http_only: false,
        same_site: SameSite::Lax,
        secure: false,
    });
    token.set(b"alice").unwrap();
    token.reset();
    let other = token.jar.get(b"other").expect("unrelated cookie must survive");
    assert_eq!(other.value, b"keep-me".to_vec());
    assert!(token.jar.get(b"__HOST-csrf_token").is_none());
}
