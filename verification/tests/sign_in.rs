use groupify::apple_auth::{AppleClaims, AppleFullName, AppleMobileAuthRequest};
use groupify::errors::AppError;
use groupify::oauth::{AppleTokenResponse, AuthRequest, OAuthProvider};
use groupify::session::SignedIn;
use groupify::sign_in::{apple_callback, apple_mobile_auth, SignIn, SignInAction, SignInEvent};

fn some(text: &str) -> Option<String> {
    Some(text.to_string())
}

fn browser(auth_token: Option<String>) -> (SignIn, SignInAction) {
    let query = AuthRequest { code: "code".to_string(), state: some("tok-web") };
    apple_callback(&query, auth_token, some("app.id"))
}

fn mobile(email: Option<String>) -> (SignIn, SignInAction) {
    apple_mobile_auth(AppleMobileAuthRequest {
        authorization_code: "c".to_string(),
        email,
        full_name: Some(AppleFullName {
            family_name: None,
            given_name: some("Ann"),
            middle_name: None,
            name_prefix: None,
            name_suffix: None,
            nickname: None,
        }),
        identity_token: "idt".to_string(),
        real_user_status: 1,
        state: None,
        user: "u".to_string(),
    })
}

fn tokens(id_token: Option<String>, expires_in: i64) -> AppleTokenResponse {
    AppleTokenResponse {
        access_token: "at".to_string(),
        token_type: "Bearer".to_string(),
        expires_in,
        refresh_token: some("rt"),
        id_token,
    }
}

fn claims(email: Option<String>) -> SignInEvent {
    SignInEvent::TokenDecoded(Ok(AppleClaims { sub: "s".to_string(), email }))
}

fn go(state: SignIn, event: SignInEvent) -> (SignIn, SignInAction) {
    assert!(state.accepts(&event));
    state.step(event)
}

fn failure(action: SignInAction) -> AppError {
    match action {
        SignInAction::Fail(error) => error,
        other => panic!("unexpected {:?}", other),
    }
}

fn authentication_failure(action: SignInAction) -> String {
    match failure(action) {
        AppError::Authentication(message) => message,
        other => panic!("unexpected {:?}", other),
    }
}

fn sought(action: SignInAction) -> String {
    match action {
        SignInAction::FindUser { email } => email,
        other => panic!("unexpected {:?}", other),
    }
}

fn kept(action: SignInAction) -> SignedIn {
    match action {
        SignInAction::SaveSession(sign_in) => sign_in,
        other => panic!("unexpected {:?}", other),
    }
}

fn issue(action: SignInAction) -> (String, String) {
    match action {
        SignInAction::IssueToken { email, user_id } => (email, user_id),
        other => panic!("unexpected {:?}", other),
    }
}

/// A browser's sign-in up to the point at which the address is known.
fn browser_with_address(auth_token: Option<String>) -> (SignIn, SignInAction) {
    let (state, _) = browser(auth_token);
    let (state, _) = go(state, SignInEvent::CodeExchanged(Ok(tokens(some("idt"), 3600))));
    let (state, _) = go(state, claims(some("ann@example.com")));
    go(state, SignInEvent::ExpiryComputed(1_700_003_600))
}

#[test]
fn a_browser_begins_with_its_code() {
    let (_, action) = browser(None);
    match action {
        SignInAction::ExchangeCode { code } => assert_eq!(code, "code"),
        other => panic!("unexpected {:?}", other),
    }
}

#[test]
fn a_known_user_signs_in_from_a_browser() {
    let (state, _) = browser(None);
    let (state, action) =
        go(state, SignInEvent::CodeExchanged(Ok(tokens(some("idt"), 3600))));
    match action {
        SignInAction::DecodeToken { token, audience } => {
            assert_eq!(token, "idt");
            assert_eq!(audience, some("app.id"));
        }
        other => panic!("unexpected {:?}", other),
    }
    let (state, action) = go(state, claims(some("ann@example.com")));
    match action {
        SignInAction::ComputeExpiry { lifetime } => assert_eq!(lifetime, 3600),
        other => panic!("unexpected {:?}", other),
    }
    let (state, action) = go(state, SignInEvent::ExpiryComputed(1_700_003_600));
    assert_eq!(sought(action), "ann@example.com");
    let (state, action) = go(state, SignInEvent::UserLookedUp(Ok("u1".to_string())));
    let session = kept(action);
    assert_eq!(session.email, "ann@example.com");
    assert_eq!(session.access_token, "at");
    assert_eq!(session.refresh_token, "rt");
    assert_eq!(session.expires_at, 1_700_003_600);
    assert_eq!(session.provider, OAuthProvider::Apple);
    assert_eq!(session.original_email, "ann@example.com");
    let (state, action) = go(state, SignInEvent::SessionSaved(Ok(())));
    assert_eq!(issue(action), ("ann@example.com".to_string(), "u1".to_string()));
    let (state, action) = go(state, SignInEvent::TokenIssued(Ok("jwt".to_string())));
    match action {
        SignInAction::Complete { token, cache_pattern } => {
            assert_eq!(token, "jwt");
            assert_eq!(cache_pattern, "user:u1:channels:*");
        }
        other => panic!("unexpected {:?}", other),
    }
    assert!(matches!(state, SignIn::Finished));
}

#[test]
fn a_user_who_is_signed_in_keeps_the_address() {
    let (state, action) = browser_with_address(some("cookie"));
    match action {
        SignInAction::ResolveEmail { auth_token } => assert_eq!(auth_token, "cookie"),
        other => panic!("unexpected {:?}", other),
    }
    let (state, action) = go(state, SignInEvent::EmailResolved(Ok("main@example.com".to_string())));
    assert_eq!(sought(action), "main@example.com");
    let (_, action) = go(state, SignInEvent::UserLookedUp(Ok("u1".to_string())));
    let session = kept(action);
    assert_eq!(session.email, "main@example.com");
    assert_eq!(session.original_email, "ann@example.com");
}

#[test]
fn an_empty_cookie_is_none() {
    let (_, action) = browser_with_address(some(""));
    assert_eq!(sought(action), "ann@example.com");
}

#[test]
fn a_missing_user_is_created_in_a_transaction() {
    let (state, _) = browser_with_address(None);
    let missing = SignInEvent::UserLookedUp(Err(AppError::NotFound("none".to_string())));
    let (state, action) = go(state, missing);
    assert!(matches!(action, SignInAction::OpenTransaction));
    let (state, action) = go(state, SignInEvent::TransactionOpened(Ok(())));
    match action {
        SignInAction::CreateUser { id, email, encrypted_password } => {
            assert_eq!(id, None);
            assert_eq!(email, "ann@example.com");
            assert_eq!(encrypted_password, None);
        }
        other => panic!("unexpected {:?}", other),
    }
    let (state, action) = go(state, SignInEvent::UserCreated(Ok("u2".to_string())));
    assert!(matches!(action, SignInAction::Commit));
    let (state, action) = go(state, SignInEvent::Committed(Ok(())));
    assert_eq!(kept(action).email, "ann@example.com");
    let (_, action) = go(state, SignInEvent::SessionSaved(Ok(())));
    assert_eq!(issue(action).1, "u2");
}

#[test]
fn the_mobile_application_signs_in_without_a_session() {
    let (state, action) = mobile(some("stated@example.com"));
    match action {
        SignInAction::DecodeToken { token, audience } => {
            assert_eq!(token, "idt");
            assert_eq!(audience, None);
        }
        other => panic!("unexpected {:?}", other),
    }
    let (state, action) = go(state, claims(some("claimed@example.com")));
    assert_eq!(sought(action), "claimed@example.com");
    let (state, action) = go(state, SignInEvent::UserLookedUp(Ok("u3".to_string())));
    assert_eq!(issue(action), ("claimed@example.com".to_string(), "u3".to_string()));
    let (_, action) = go(state, SignInEvent::TokenIssued(Ok("jwt".to_string())));
    assert!(matches!(action, SignInAction::Complete { .. }));
}

#[test]
fn the_stated_address_stands_in() {
    let (state, _) = mobile(some("stated@example.com"));
    let (_, action) = go(state, claims(None));
    assert_eq!(sought(action), "stated@example.com");
}

#[test]
fn a_missing_user_is_created_for_the_mobile_application() {
    let (state, _) = mobile(None);
    let (state, _) = go(state, claims(some("new@example.com")));
    let missing = SignInEvent::UserLookedUp(Err(AppError::NotFound(String::new())));
    let (state, _) = go(state, missing);
    let (state, _) = go(state, SignInEvent::TransactionOpened(Ok(())));
    let (state, _) = go(state, SignInEvent::UserCreated(Ok("u4".to_string())));
    let (_, action) = go(state, SignInEvent::Committed(Ok(())));
    assert_eq!(issue(action), ("new@example.com".to_string(), "u4".to_string()));
}

#[test]
fn a_failed_exchange_is_reported() {
    let (state, _) = browser(None);
    let error = AppError::ExternalService("Invalid token response".to_string());
    let (state, action) = go(state, SignInEvent::CodeExchanged(Err(error)));
    assert!(matches!(state, SignIn::Finished));
    match failure(action) {
        AppError::ExternalService(message) => assert_eq!(
            message,
            "Failed to exchange authorization code: Invalid token response"
        ),
        other => panic!("unexpected {:?}", other),
    }
}

#[test]
fn a_browser_needs_an_identity_token_with_an_address() {
    let (state, _) = browser(None);
    let (_, action) = go(state, SignInEvent::CodeExchanged(Ok(tokens(None, 1))));
    assert_eq!(authentication_failure(action), "No id_token received from Apple");
    let decoding = || {
        let (state, _) = browser(None);
        go(state, SignInEvent::CodeExchanged(Ok(tokens(some("idt"), 1)))).0
    };
    let (_, action) = go(decoding(), SignInEvent::TokenDecoded(Err("InvalidToken".to_string())));
    assert_eq!(authentication_failure(action), "Failed to decode Apple id_token");
    let (_, action) = go(decoding(), claims(None));
    assert_eq!(authentication_failure(action), "No email in Apple id_token");
}

#[test]
fn the_mobile_application_needs_an_address() {
    let (state, _) = mobile(None);
    let (_, action) = go(state, SignInEvent::TokenDecoded(Err("InvalidToken".to_string())));
    assert_eq!(
        authentication_failure(action),
        "Failed to decode Apple identity_token: InvalidToken"
    );
    let (state, _) = mobile(None);
    let (_, action) = go(state, claims(None));
    assert_eq!(
        authentication_failure(action),
        "No email in Apple identity_token or payload"
    );
}

#[test]
fn an_unknown_cookie_ends_the_sign_in() {
    let (state, _) = browser_with_address(some("cookie"));
    let error = AppError::Authentication("expired".to_string());
    let (_, action) = go(state, SignInEvent::EmailResolved(Err(error)));
    assert_eq!(authentication_failure(action), "expired");
}

#[test]
fn a_failed_lookup_ends_the_sign_in() {
    let (state, _) = browser_with_address(None);
    let error = AppError::Database { message: "down".to_string(), cause: None };
    let (_, action) = go(state, SignInEvent::UserLookedUp(Err(error)));
    assert_eq!(failure(action).message(), "down");
}

#[test]
fn failures_of_the_transaction_end_the_sign_in() {
    let opening = || {
        let (state, _) = browser_with_address(None);
        let missing = SignInEvent::UserLookedUp(Err(AppError::NotFound(String::new())));
        go(state, missing).0
    };
    let (_, action) = go(opening(), SignInEvent::TransactionOpened(Err("busy".to_string())));
    match failure(action) {
        AppError::Database { message, cause } => {
            assert_eq!(message, "Failed to start transaction");
            assert_eq!(cause, some("busy"));
        }
        other => panic!("unexpected {:?}", other),
    }
    let (creating, _) = go(opening(), SignInEvent::TransactionOpened(Ok(())));
    let error = AppError::BadRequest("taken".to_string());
    let (_, action) = go(creating, SignInEvent::UserCreated(Err(error)));
    assert_eq!(failure(action).message(), "taken");
    let (creating, _) = go(opening(), SignInEvent::TransactionOpened(Ok(())));
    let (committing, _) = go(creating, SignInEvent::UserCreated(Ok("u".to_string())));
    let (_, action) = go(committing, SignInEvent::Committed(Err("lost".to_string())));
    match failure(action) {
        AppError::Database { message, cause } => {
            assert_eq!(message, "Failed to commit transaction");
            assert_eq!(cause, some("lost"));
        }
        other => panic!("unexpected {:?}", other),
    }
}

#[test]
fn no_token_without_a_stored_session() {
    let (state, _) = browser_with_address(None);
    let (state, _) = go(state, SignInEvent::UserLookedUp(Ok("u".to_string())));
    let error = AppError::Database { message: "full".to_string(), cause: None };
    let (state, action) = go(state, SignInEvent::SessionSaved(Err(error)));
    assert_eq!(failure(action).message(), "full");
    assert!(matches!(state, SignIn::Finished));
}

#[test]
fn a_token_that_cannot_be_issued_ends_the_sign_in() {
    let (state, _) = mobile(None);
    let (state, _) = go(state, claims(some("e")));
    let (state, _) = go(state, SignInEvent::UserLookedUp(Ok("u".to_string())));
    let error = AppError::Authentication("no key".to_string());
    let (_, action) = go(state, SignInEvent::TokenIssued(Err(error)));
    assert_eq!(authentication_failure(action), "no key");
}

#[test]
fn a_missing_refresh_token_is_kept_as_empty() {
    let (state, _) = browser(None);
    let mut answer = tokens(some("idt"), 1);
    answer.refresh_token = None;
    let (state, _) = go(state, SignInEvent::CodeExchanged(Ok(answer)));
    let (state, _) = go(state, claims(some("e")));
    let (state, _) = go(state, SignInEvent::ExpiryComputed(1));
    let (_, action) = go(state, SignInEvent::UserLookedUp(Ok("u".to_string())));
    assert_eq!(kept(action).refresh_token, "");
}

#[test]
fn a_negative_lifetime_wraps_around() {
    for (stated, lifetime) in [
        (-1i64, u64::MAX),
        (i64::MIN, 0x8000_0000_0000_0000u64),
        (0, 0),
        (i64::MAX, 0x7fff_ffff_ffff_ffff),
    ] {
        let (state, _) = browser(None);
        let (state, _) = go(state, SignInEvent::CodeExchanged(Ok(tokens(some("i"), stated))));
        match go(state, claims(some("e"))).1 {
            SignInAction::ComputeExpiry { lifetime: l } => assert_eq!(l, lifetime),
            other => panic!("unexpected {:?}", other),
        }
    }
}

#[test]
fn a_missing_client_identifier_is_an_empty_audience() {
    let query = AuthRequest { code: "c".to_string(), state: None };
    let (state, _) = apple_callback(&query, None, None);
    match go(state, SignInEvent::CodeExchanged(Ok(tokens(some("idt"), 1)))).1 {
        SignInAction::DecodeToken { audience, .. } => assert_eq!(audience, some("")),
        other => panic!("unexpected {:?}", other),
    }
}

#[test]
fn a_finished_sign_in_waits_for_nothing() {
    let events = vec![
        SignInEvent::CodeExchanged(Ok(tokens(None, 1))),
        claims(None),
        SignInEvent::ExpiryComputed(0),
        SignInEvent::EmailResolved(Ok(String::new())),
        SignInEvent::UserLookedUp(Ok(String::new())),
        SignInEvent::TransactionOpened(Ok(())),
        SignInEvent::UserCreated(Ok(String::new())),
        SignInEvent::Committed(Ok(())),
        SignInEvent::SessionSaved(Ok(())),
        SignInEvent::TokenIssued(Ok(String::new())),
    ];
    for event in &events {
        assert!(!SignIn::Finished.accepts(event));
    }
    let (begun, _) = browser(None);
    assert_eq!(events.iter().filter(|event| begun.accepts(event)).count(), 1);
}
