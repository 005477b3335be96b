use groupify::errors::AppError;
use groupify::oauth::OAuthProvider;
use groupify::session::{
    update_user_session, ReplacedValues, SessionAction, SessionEvent, SessionRow, SessionUpdate,
    SignedIn,
};

fn signed_in(expires_at: i64) -> SignedIn {
    SignedIn {
        email: "ann@example.com".to_string(),
        access_token: "at".to_string(),
        expires_at,
        refresh_token: "rt".to_string(),
        provider: OAuthProvider::Apple,
        original_email: "relay@example.com".to_string(),
    }
}

fn saved(action: SessionAction) -> SessionRow {
    match action {
        SessionAction::SaveSession { row, .. } => row,
        other => panic!("unexpected {:?}", other),
    }
}

fn database_failure(action: SessionAction) -> (String, Option<String>) {
    match action {
        SessionAction::Fail(AppError::Database { message, cause }) => (message, cause),
        other => panic!("unexpected {:?}", other),
    }
}

#[test]
fn a_known_user_gets_the_session() {
    let (state, action) = update_user_session(signed_in(1_700_000_000));
    match action {
        SessionAction::FindUser { email } => assert_eq!(email, "ann@example.com"),
        other => panic!("unexpected {:?}", other),
    }
    let found = SessionEvent::UserLookedUp(Ok(Some("u1".to_string())));
    assert!(state.accepts(&found));
    let (state, action) = state.step(found);
    let row = saved(action);
    assert_eq!(row.user_id, "u1");
    assert_eq!(row.session_id, "at");
    assert_eq!(row.refresh_token, "rt");
    assert_eq!(row.expires_at, 1_700_000_000);
    assert_eq!(row.provider, "apple");
    assert_eq!(row.original_email, "relay@example.com");
    let stored = SessionEvent::SessionSaved(Ok(()));
    assert!(state.accepts(&stored));
    let (state, action) = state.step(stored);
    assert!(matches!(action, SessionAction::Done));
    assert!(matches!(state, SessionUpdate::Finished));
}

#[test]
fn an_unknown_user_is_created_first() {
    let (state, _) = update_user_session(signed_in(0));
    let (state, action) =
        state.step_with_id(SessionEvent::UserLookedUp(Ok(None)), "new-id".to_string());
    match action {
        SessionAction::CreateUser { id, email, is_sso_user } => {
            assert_eq!(id, "new-id");
            assert_eq!(email, "ann@example.com");
            assert!(is_sso_user);
        }
        other => panic!("unexpected {:?}", other),
    }
    let created = SessionEvent::UserCreated(Ok(()));
    assert!(state.accepts(&created));
    let (_, action) = state.step(created);
    assert_eq!(saved(action).user_id, "new-id");
}

#[test]
fn a_new_user_gets_a_random_identifier() {
    let mut ids: Vec<String> = Vec::new();
    for _ in 0..2 {
        let (state, _) = update_user_session(signed_in(0));
        match state.step(SessionEvent::UserLookedUp(Ok(None))).1 {
            SessionAction::CreateUser { id, .. } => ids.push(id),
            other => panic!("unexpected {:?}", other),
        }
    }
    assert_ne!(ids[0], ids[1]);
    for id in ids {
        let parsed = uuid::Uuid::parse_str(&id).unwrap();
        assert_eq!(parsed.get_version_num(), 4);
        assert_eq!(parsed.to_string(), id);
        assert_eq!(id.len(), 36);
    }
}

#[test]
fn failures_of_the_database_are_reported() {
    let (state, _) = update_user_session(signed_in(0));
    let (_, action) = state.step(SessionEvent::UserLookedUp(Err("down".to_string())));
    assert_eq!(
        database_failure(action),
        ("Failed to fetch user by email".to_string(), Some("down".to_string()))
    );
    let (state, _) = update_user_session(signed_in(0));
    let (state, _) = state.step(SessionEvent::UserLookedUp(Ok(None)));
    let (_, action) = state.step(SessionEvent::UserCreated(Err("dup".to_string())));
    assert_eq!(
        database_failure(action),
        ("Failed to create user".to_string(), Some("dup".to_string()))
    );
    let (state, action) =
        SessionUpdate::Saving.step(SessionEvent::SessionSaved(Err("full".to_string())));
    assert_eq!(
        database_failure(action),
        ("Failed to upsert user session: full".to_string(), None)
    );
    assert!(matches!(state, SessionUpdate::Finished));
}

#[test]
fn the_calendar_limits_the_expiry() {
    let found = || SessionEvent::UserLookedUp(Ok(Some("u".to_string())));
    for (seconds, held) in [
        (0i64, true),
        (-377_705_116_800, true),
        (-377_705_116_801, false),
        (253_402_300_799, true),
        (253_402_300_800, false),
        (i64::MAX, false),
        (i64::MIN, false),
    ] {
        let (state, _) = update_user_session(signed_in(seconds));
        assert_eq!(state.accepts(&found()), held);
        assert!(state.accepts(&SessionEvent::UserLookedUp(Ok(None))));
        assert!(state.accepts(&SessionEvent::UserLookedUp(Err("e".to_string()))));
        let (state, _) = state.step(SessionEvent::UserLookedUp(Ok(None)));
        assert_eq!(state.accepts(&SessionEvent::UserCreated(Ok(()))), held);
        assert!(state.accepts(&SessionEvent::UserCreated(Err("e".to_string()))));
    }
}

#[test]
fn an_update_waits_for_one_event_at_a_time() {
    let (state, _) = update_user_session(signed_in(0));
    assert!(!state.accepts(&SessionEvent::UserCreated(Ok(()))));
    assert!(!state.accepts(&SessionEvent::SessionSaved(Ok(()))));
    assert!(!SessionUpdate::Saving.accepts(&SessionEvent::UserLookedUp(Ok(None))));
    assert!(!SessionUpdate::Finished.accepts(&SessionEvent::SessionSaved(Ok(()))));
}

#[test]
fn the_stored_provider_is_that_of_the_sign_in() {
    for provider in [OAuthProvider::Google, OAuthProvider::Discord] {
        let mut sign_in = signed_in(5);
        sign_in.provider = provider;
        let (state, _) = update_user_session(sign_in);
        let (_, action) = state.step(SessionEvent::UserLookedUp(Ok(Some("u".to_string()))));
        assert_eq!(saved(action).provider, provider.as_str());
    }
}

#[test]
fn an_earlier_session_keeps_its_address() {
    let kept = ReplacedValues {
        session_id: true,
        refresh_token: true,
        expires_at: true,
        original_email: false,
    };
    let (state, _) = update_user_session(signed_in(1));
    match state.step(SessionEvent::UserLookedUp(Ok(Some("u".to_string())))).1 {
        SessionAction::SaveSession { replaced, .. } => assert_eq!(replaced, kept),
        other => panic!("unexpected {:?}", other),
    }
    let (state, _) = update_user_session(signed_in(1));
    let (state, _) = state.step(SessionEvent::UserLookedUp(Ok(None)));
    match state.step(SessionEvent::UserCreated(Ok(()))).1 {
        SessionAction::SaveSession { replaced, .. } => assert_eq!(replaced, kept),
        other => panic!("unexpected {:?}", other),
    }
}
