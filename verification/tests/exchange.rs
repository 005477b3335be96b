use groupify::errors::AppError;
use groupify::exchange::{
    apple_credentials, exchange_apple_code, AppleEnv, CodeExchange, ExchangeAction, ExchangeEvent,
};
use groupify::oauth::AppleTokenResponse;

fn env() -> AppleEnv {
    AppleEnv {
        client_id: Some("app.id".to_string()),
        team_id: Some("TEAM".to_string()),
        key_id: Some("KEY".to_string()),
        private_key: Some("*".to_string()),
        redirect_url: None,
    }
}

fn tokens() -> AppleTokenResponse {
    AppleTokenResponse {
        access_token: "at".to_string(),
        token_type: "Bearer".to_string(),
        expires_in: 3600,
        refresh_token: None,
        id_token: None,
    }
}

fn failure(action: ExchangeAction) -> String {
    match action {
        ExchangeAction::Fail(AppError::ExternalService(message)) => message,
        other => panic!("unexpected {:?}", other),
    }
}

#[test]
fn the_first_missing_credential_is_reported() {
    let mut partial = AppleEnv {
        client_id: None,
        team_id: None,
        key_id: None,
        private_key: None,
        redirect_url: None,
    };
    let report = |env: AppleEnv| apple_credentials(env).unwrap_err().message().clone();
    let copy = |e: &AppleEnv| AppleEnv {
        client_id: e.client_id.clone(),
        team_id: e.team_id.clone(),
        key_id: e.key_id.clone(),
        private_key: e.private_key.clone(),
        redirect_url: e.redirect_url.clone(),
    };
    assert_eq!(report(copy(&partial)), "APPLE_OAUTH_CLIENT_ID not set");
    partial.client_id = Some("c".to_string());
    assert_eq!(report(copy(&partial)), "APPLE_TEAM_ID not set");
    partial.team_id = Some("t".to_string());
    assert_eq!(report(copy(&partial)), "APPLE_KEY_ID not set");
    partial.key_id = Some("k".to_string());
    assert_eq!(report(copy(&partial)), "APPLE_PRIVATE_KEY not set");
    partial.private_key = Some("p".to_string());
    let found = apple_credentials(partial).unwrap();
    assert_eq!(found.client_id, "c");
    assert_eq!(found.team_id, "t");
    assert_eq!(found.key_id, "k");
    assert_eq!(found.private_key, "p");
}

#[test]
fn an_exchange_without_credentials_fails_at_once() {
    let mut partial = env();
    partial.team_id = None;
    let (state, action) = exchange_apple_code(partial, "code".to_string());
    assert_eq!(state, CodeExchange::Finished);
    assert_eq!(failure(action), "APPLE_TEAM_ID not set");
}

#[test]
fn an_exchange_with_a_broken_key_fails_at_once() {
    let (state, action) = exchange_apple_code(env(), "code".to_string());
    assert_eq!(state, CodeExchange::Finished);
    assert!(failure(action).starts_with("Invalid base64 Apple private key: "));
}

#[test]
fn the_request_goes_to_apple() {
    let (state, action) = CodeExchange::begin(
        "code".to_string(),
        "app.id".to_string(),
        None,
        Ok("secret".to_string()),
    );
    assert_eq!(state, CodeExchange::Sending);
    match action {
        ExchangeAction::Post(request) => {
            assert_eq!(request.url, "https://appleid.apple.com/auth/token");
            assert_eq!(request.grant_type, "authorization_code");
            assert_eq!(request.code, "code");
            assert_eq!(
                request.redirect_uri,
                "https://coolify.nestfeed.app/api/auth/apple_callback"
            );
            assert_eq!(request.client_id, "app.id");
            assert_eq!(request.client_secret, "secret");
        }
        other => panic!("unexpected {:?}", other),
    }
}

#[test]
fn the_redirect_url_can_be_set() {
    let redirect = Some("http://localhost/cb".to_string());
    let (_, action) =
        CodeExchange::begin("c".to_string(), "i".to_string(), redirect, Ok("s".to_string()));
    match action {
        ExchangeAction::Post(request) => assert_eq!(request.redirect_uri, "http://localhost/cb"),
        other => panic!("unexpected {:?}", other),
    }
}

#[test]
fn an_exchange_runs_to_its_end() {
    let (state, _) = CodeExchange::begin("c".to_string(), "i".to_string(), None, Ok("s".to_string()));
    let posted = ExchangeEvent::Posted(Ok(()));
    assert!(state.accepts(&posted));
    assert!(!state.accepts(&ExchangeEvent::AnswerRead(Ok(tokens()))));
    let (state, action) = state.step(posted);
    assert!(matches!(action, ExchangeAction::ReadAnswer));
    let read = ExchangeEvent::AnswerRead(Ok(tokens()));
    assert!(state.accepts(&read));
    let (state, action) = state.step(read);
    assert_eq!(state, CodeExchange::Finished);
    match action {
        ExchangeAction::Done(response) => {
            assert_eq!(response.access_token, "at");
            assert_eq!(response.expires_in, 3600);
        }
        other => panic!("unexpected {:?}", other),
    }
    assert!(!state.accepts(&ExchangeEvent::Posted(Ok(()))));
    assert!(!state.accepts(&ExchangeEvent::AnswerRead(Err("x".to_string()))));
}

#[test]
fn failures_of_an_exchange_keep_their_reports_inside() {
    let (state, action) =
        CodeExchange::Sending.step(ExchangeEvent::Posted(Err("timeout".to_string())));
    assert_eq!(state, CodeExchange::Finished);
    assert_eq!(failure(action), "Failed to exchange authorization code");
    let (state, action) =
        CodeExchange::Reading.step(ExchangeEvent::AnswerRead(Err("bad json".to_string())));
    assert_eq!(state, CodeExchange::Finished);
    assert_eq!(failure(action), "Invalid token response");
}
