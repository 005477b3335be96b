use axum::http::{HeaderMap, HeaderValue};
use base64::{engine::general_purpose, Engine};
use groupify::apple_auth::{
    apple_login, browser_redirect, decode_identity_token, is_development, is_mobile_browser,
    redirect_after_sign_in, AppleClaims, AuthQueryParams,
};
use groupify::oauth::{
    apple_client_with_secret, build_discord_oauth_client, build_google_oauth_client,
    state_with_origin, OAuthClients,
};
use oauth2::url::Url;

fn with_agent(agent: &str) -> HeaderMap<HeaderValue> {
    let mut headers = HeaderMap::new();
    headers.insert("User-Agent", HeaderValue::from_str(agent).unwrap());
    headers
}

fn some(text: &str) -> Option<String> {
    Some(text.to_string())
}

fn identity_token(algorithm: &str, claims: &str) -> String {
    let header = format!("{{\"alg\":\"{}\",\"typ\":\"JWT\"}}", algorithm);
    format!(
        "{}.{}.{}",
        general_purpose::URL_SAFE_NO_PAD.encode(header),
        general_purpose::URL_SAFE_NO_PAD.encode(claims),
        general_purpose::URL_SAFE_NO_PAD.encode("signature")
    )
}

fn clients() -> OAuthClients {
    OAuthClients {
        google: build_google_oauth_client("g".to_string(), "gs".to_string(), None),
        discord: build_discord_oauth_client("d".to_string(), "ds".to_string(), None),
        apple: apple_client_with_secret("a".to_string(), "as".to_string(), None),
    }
}

#[test]
fn mobile_browsers_are_known_by_their_names() {
    for agent in [
        "Mozilla/5.0 (iPhone; CPU iPhone OS 17_0 like Mac OS X)",
        "Mozilla/5.0 (iPad; CPU OS 17_0)",
        "an IPOD",
        "Mozilla/5.0 (Linux; Android 14)",
        "Something MoBiLe",
    ] {
        assert!(is_mobile_browser(&with_agent(agent)), "{}", agent);
    }
    for agent in ["Mozilla/5.0 (X11; Linux x86_64)", "", "i phone", "andro id"] {
        assert!(!is_mobile_browser(&with_agent(agent)), "{}", agent);
    }
}

#[test]
fn a_browser_without_a_plain_name_is_not_mobile() {
    assert!(!is_mobile_browser(&HeaderMap::new()));
    let mut headers = HeaderMap::new();
    headers.insert("user-agent", HeaderValue::from_bytes(b"mobile \xff").unwrap());
    assert!(!is_mobile_browser(&headers));
}

#[test]
fn the_first_name_counts() {
    let mut headers = with_agent("desktop");
    headers.append("user-agent", HeaderValue::from_static("mobile"));
    assert!(!is_mobile_browser(&headers));
    let mut headers = with_agent("mobile\tbrowser");
    headers.append("user-agent", HeaderValue::from_static("desktop"));
    assert!(is_mobile_browser(&headers));
}

#[test]
fn development_is_named_in_any_case() {
    assert!(is_development(&some("development")));
    assert!(is_development(&some("DeVelopMENT")));
    assert!(!is_development(&some("production")));
    assert!(!is_development(&some(" development")));
    assert!(!is_development(&some("développement")));
    assert!(!is_development(&None));
}

#[test]
fn a_mobile_browser_hands_the_token_over() {
    assert_eq!(
        redirect_after_sign_in(false, "groupify.app", true, "jwt", &some("x-web")),
        "https://groupify.app/oauth?token=jwt"
    );
    assert_eq!(
        redirect_after_sign_in(true, "localhost:3000", true, "jwt", &None),
        "http://localhost:3000/oauth?token=jwt"
    );
}

#[test]
fn any_other_browser_goes_to_the_dashboard() {
    assert_eq!(
        redirect_after_sign_in(false, "groupify.app", false, "jwt", &None),
        "https://groupify.app/dashboard?auth=success&provider=apple"
    );
    assert_eq!(
        redirect_after_sign_in(false, "groupify.app", false, "jwt", &some("nohyphen")),
        "https://groupify.app/dashboard?auth=success&provider=apple"
    );
    assert_eq!(
        redirect_after_sign_in(true, "groupify.app", false, "jwt", &some("tok-my-app")),
        "http://groupify.app/dashboard?auth=success&provider=apple&origin=my-app"
    );
    assert_eq!(
        redirect_after_sign_in(true, "h", false, "jwt", &some("tok-")),
        "http://h/dashboard?auth=success&provider=apple&origin="
    );
}

#[test]
fn the_dashboard_never_sees_the_token() {
    let state = some("t-o");
    assert_eq!(
        redirect_after_sign_in(false, "h", false, "one", &state),
        redirect_after_sign_in(false, "h", false, "two", &state)
    );
}

#[test]
fn a_browser_lands_with_the_origin_it_began_with() {
    let state = Some(state_with_origin("token".to_string(), some("ext")));
    let bare = redirect_after_sign_in(false, "h", false, "jwt", &None);
    assert_eq!(
        redirect_after_sign_in(false, "h", false, "jwt", &state),
        format!("{}&origin=ext", bare)
    );
    let state = Some(state_with_origin("token".to_string(), None));
    assert_eq!(redirect_after_sign_in(false, "h", false, "jwt", &state), bare);
}

#[test]
fn a_browser_stays_on_the_site() {
    for mobile in [true, false] {
        let url = redirect_after_sign_in(false, "h.app", mobile, "jwt", &some("a-b"));
        assert!(url.starts_with("https://h.app/"));
    }
}

#[test]
fn a_login_goes_to_apple() {
    let url = apple_login(&clients().clone(), AuthQueryParams { origin: some("web") });
    let url = Url::parse(&url).unwrap();
    assert_eq!(url.host_str(), Some("appleid.apple.com"));
    let state = url.query_pairs().find(|(key, _)| key == "state").unwrap().1.to_string();
    assert_eq!(state.len(), 26);
    assert!(state.ends_with("-web"));
    let scope = url.query_pairs().find(|(key, _)| key == "scope").unwrap().1.to_string();
    assert_eq!(scope, "name email");
}

#[test]
fn a_login_without_an_origin_has_only_the_random_token() {
    let url = Url::parse(&apple_login(&clients(), AuthQueryParams { origin: None })).unwrap();
    let state = url.query_pairs().find(|(key, _)| key == "state").unwrap().1.to_string();
    assert_eq!(state.len(), 22);
}

fn decoded(token: &str, audience: Option<&str>) -> Result<(String, Option<String>), String> {
    let read = Ok(AppleClaims { sub: "1".to_string(), email: some("a@b.c") });
    decode_identity_token(token, audience, read).map(|claims| (claims.sub, claims.email))
}

fn accepted() -> Result<(String, Option<String>), String> {
    Ok(("1".to_string(), some("a@b.c")))
}

fn refused(report: &str) -> Result<(String, Option<String>), String> {
    Err(report.to_string())
}

#[test]
fn an_identity_token_gives_its_claims() {
    let claims = "{\"sub\":\"1\",\"aud\":\"app\",\"exp\":4102444800,\"email\":\"a@b.c\"}";
    let token = identity_token("RS256", claims);
    assert_eq!(decoded(&token, Some("app")), accepted());
    assert_eq!(decoded(&token, None), accepted());
}

#[test]
fn an_identity_token_must_be_meant_for_the_audience() {
    let token = identity_token("RS256", "{\"sub\":\"1\",\"aud\":\"app\",\"exp\":4102444800}");
    assert_eq!(decoded(&token, Some("other")), refused("InvalidAudience"));
    assert_eq!(decoded(&token, Some("")), refused("InvalidAudience"));
}

#[test]
fn an_identity_token_must_not_have_expired() {
    let token = identity_token("RS256", "{\"sub\":\"1\",\"aud\":\"app\",\"exp\":1000000000}");
    assert_eq!(decoded(&token, None), refused("ExpiredSignature"));
    let token = identity_token("RS256", "{\"sub\":\"1\",\"aud\":\"app\"}");
    assert_eq!(decoded(&token, None), refused("Missing required claim: exp"));
}

#[test]
fn an_identity_token_must_be_well_formed() {
    assert_eq!(decoded("nonsense", None), refused("InvalidToken"));
    let token = identity_token("none such", "{\"sub\":\"1\",\"exp\":4102444800}");
    assert!(decoded(&token, None).is_err());
    let token = identity_token("RS256", "not json");
    assert!(decoded(&token, None).is_err());
}

#[test]
fn an_expired_identity_token_is_refused_as_expired_whatever_its_audience() {
    let token = identity_token("RS256", "{\"sub\":\"1\",\"aud\":\"app\",\"exp\":1000000000}");
    assert_eq!(decoded(&token, Some("other")), refused("ExpiredSignature"));
    let claims = "{\"sub\":\"1\",\"aud\":\"app\",\"exp\":18446744073709551615}";
    let token = identity_token("RS256", claims);
    assert_eq!(decoded(&token, Some("app")), accepted());
    assert_eq!(decoded(&token, Some("other")), refused("InvalidAudience"));
}

#[test]
fn unreadable_claims_are_reported_before_all_else() {
    let missing = || Err("JSON error: missing field `sub`".to_string());
    for claims in [
        "{\"aud\":\"app\",\"exp\":1000000000}",
        "{\"aud\":\"app\"}",
        "{\"aud\":\"app\",\"exp\":4102444800}",
    ] {
        let token = identity_token("RS256", claims);
        let error = decode_identity_token(&token, Some("other"), missing()).unwrap_err();
        assert_eq!(error, "JSON error: missing field `sub`");
    }
}

#[test]
fn skipped_claims_may_hold_any_bytes() {
    let mut claims = b"{\"sub\":\"1\",\"aud\":\"app\",\"exp\":4102444800,\"x\":\"".to_vec();
    claims.extend([0xff, 0xfe]);
    claims.extend(b"\"}");
    let token = format!(
        "{}.{}.c2ln",
        general_purpose::URL_SAFE_NO_PAD.encode("{\"alg\":\"RS256\",\"typ\":\"JWT\"}"),
        general_purpose::URL_SAFE_NO_PAD.encode(claims)
    );
    assert_eq!(decoded(&token, Some("app")), accepted());
}

#[test]
fn the_callback_ends_where_environment_and_browser_say() {
    let phone = with_agent("iPhone");
    let desk = with_agent("X11");
    assert_eq!(
        browser_redirect(&some("Development"), "h", &phone, "jwt", &some("t-web")),
        "http://h/oauth?token=jwt"
    );
    assert_eq!(
        browser_redirect(&None, "h", &phone, "jwt", &None),
        "https://h/oauth?token=jwt"
    );
    assert_eq!(
        browser_redirect(&some("development"), "h", &desk, "jwt", &None),
        "http://h/dashboard?auth=success&provider=apple"
    );
    assert_eq!(
        browser_redirect(&some("staging"), "h", &HeaderMap::new(), "jwt", &some("t-web")),
        "https://h/dashboard?auth=success&provider=apple&origin=web"
    );
}
