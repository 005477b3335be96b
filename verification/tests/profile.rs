use groupify::errors::AppError;
use groupify::json::Json;
use groupify::oauth::OAuthProvider;
use groupify::profile::{
    fetch_user_profile, profile_from_account, ProfileAction, ProfileEvent, ProfileFetch,
};

fn account(members: Vec<(&str, &str)>) -> Json {
    Json::Object(
        members
            .into_iter()
            .map(|(name, value)| (name.to_string(), Json::Text(value.to_string())))
            .collect(),
    )
}

fn failure(action: ProfileAction) -> String {
    match action {
        ProfileAction::Fail(AppError::ExternalService(message)) => message,
        other => panic!("unexpected {:?}", other),
    }
}

#[test]
fn apple_is_never_asked_for_a_profile() {
    let (state, action) = fetch_user_profile("at", &OAuthProvider::Apple);
    assert_eq!(state, ProfileFetch::Finished);
    assert_eq!(failure(action), "Apple profile must be extracted from id_token");
}

#[test]
fn each_provider_is_asked_at_its_address() {
    for (provider, address) in [
        (OAuthProvider::Google, "https://www.googleapis.com/oauth2/v2/userinfo"),
        (OAuthProvider::Discord, "https://discord.com/api/users/@me"),
    ] {
        let (state, action) = fetch_user_profile("at", &provider);
        assert_eq!(state, ProfileFetch::Asking(provider));
        match action {
            ProfileAction::Get { url, authorization } => {
                assert_eq!(url, address);
                assert_eq!(authorization, "Bearer at");
            }
            other => panic!("unexpected {:?}", other),
        }
    }
}

#[test]
fn a_google_profile_is_read() {
    let (state, _) = fetch_user_profile("at", &OAuthProvider::Google);
    let answered = ProfileEvent::Answered(Ok(200));
    assert!(state.accepts(&answered));
    let (state, action) = state.step(answered);
    assert!(matches!(action, ProfileAction::ReadAnswer));
    let read = ProfileEvent::AnswerRead(Ok(account(vec![
        ("email", "ann@example.com"),
        ("name", "Ann"),
        ("picture", "http://p"),
    ])));
    assert!(state.accepts(&read));
    let (state, action) = state.step(read);
    assert_eq!(state, ProfileFetch::Finished);
    match action {
        ProfileAction::Done(profile) => {
            let profile = profile.clone();
            assert_eq!(profile.email, "ann@example.com");
            assert_eq!(profile.display_name, Some("Ann".to_string()));
            assert_eq!(profile.avatar_url, Some("http://p".to_string()));
        }
        other => panic!("unexpected {:?}", other),
    }
}

#[test]
fn a_discord_picture_has_its_address() {
    let whole = account(vec![
        ("email", "e"),
        ("username", "u"),
        ("avatar", "hash"),
        ("id", "77"),
    ]);
    let profile = profile_from_account(OAuthProvider::Discord, &whole).unwrap();
    assert_eq!(profile.display_name, Some("u".to_string()));
    assert_eq!(
        profile.avatar_url,
        Some("https://cdn.discordapp.com/avatars/77/hash.png".to_string())
    );
    let no_id = account(vec![("email", "e"), ("avatar", "hash")]);
    let profile = profile_from_account(OAuthProvider::Discord, &no_id).unwrap();
    assert_eq!(
        profile.avatar_url,
        Some("https://cdn.discordapp.com/avatars/0/hash.png".to_string())
    );
    assert_eq!(profile.display_name, None);
    let no_avatar = account(vec![("email", "e"), ("id", "77")]);
    let profile = profile_from_account(OAuthProvider::Discord, &no_avatar).unwrap();
    assert_eq!(profile.avatar_url, None);
}

#[test]
fn an_apple_account_gives_only_the_address() {
    let whole = account(vec![("email", "e"), ("name", "n"), ("picture", "p")]);
    let profile = profile_from_account(OAuthProvider::Apple, &whole).unwrap();
    assert_eq!(profile.email, "e");
    assert_eq!(profile.display_name, None);
    assert_eq!(profile.avatar_url, None);
}

#[test]
fn an_account_without_an_address_gives_no_profile() {
    for (provider, report) in [
        (OAuthProvider::Google, "No email in Google profile"),
        (OAuthProvider::Discord, "No email in Discord profile"),
        (OAuthProvider::Apple, "No email in Apple profile"),
    ] {
        let without = account(vec![("name", "n")]);
        let error = profile_from_account(provider, &without).unwrap_err();
        assert!(matches!(error, AppError::ExternalService(_)));
        assert_eq!(error.message(), report);
        let number = Json::Object(vec![("email".to_string(), Json::Int(1))]);
        assert!(profile_from_account(provider, &number).is_err());
        assert!(profile_from_account(provider, &Json::Null).is_err());
    }
}

#[test]
fn failures_of_a_fetch_are_reported() {
    let asking = ProfileFetch::Asking(OAuthProvider::Google);
    let (state, action) = asking.step(ProfileEvent::Answered(Err("dns".to_string())));
    assert_eq!(state, ProfileFetch::Finished);
    assert_eq!(failure(action), "Failed to fetch user profile: dns");
    let (state, action) = asking.step(ProfileEvent::Answered(Ok(404)));
    assert_eq!(state, ProfileFetch::Finished);
    assert_eq!(failure(action), "Failed to fetch user profile: HTTP 404 Not Found");
    let reading = ProfileFetch::Reading(OAuthProvider::Google);
    let (_, action) = reading.step(ProfileEvent::AnswerRead(Err("eof".to_string())));
    assert_eq!(failure(action), "Failed to fetch user profile: eof");
    let (_, action) = reading.step(ProfileEvent::AnswerRead(Ok(Json::Null)));
    assert_eq!(failure(action), "No email in Google profile");
}

#[test]
fn only_statuses_of_the_200s_are_successes() {
    let asking = ProfileFetch::Asking(OAuthProvider::Discord);
    for code in [200u16, 204, 299] {
        let (state, _) = asking.step(ProfileEvent::Answered(Ok(code)));
        assert_eq!(state, ProfileFetch::Reading(OAuthProvider::Discord));
    }
    for code in [100u16, 199, 300, 302, 500, 999] {
        let (state, action) = asking.step(ProfileEvent::Answered(Ok(code)));
        assert_eq!(state, ProfileFetch::Finished);
        assert!(failure(action).starts_with(&format!("Failed to fetch user profile: HTTP {}", code)));
    }
}

#[test]
fn a_fetch_waits_for_one_event_at_a_time() {
    let asking = ProfileFetch::Asking(OAuthProvider::Google);
    let reading = ProfileFetch::Reading(OAuthProvider::Google);
    assert!(!asking.accepts(&ProfileEvent::AnswerRead(Ok(Json::Null))));
    assert!(!reading.accepts(&ProfileEvent::Answered(Ok(200))));
    assert!(!asking.accepts(&ProfileEvent::Answered(Ok(99))));
    assert!(!asking.accepts(&ProfileEvent::Answered(Ok(1000))));
    assert!(!ProfileFetch::Finished.accepts(&ProfileEvent::Answered(Ok(200))));
    assert!(!ProfileFetch::Finished.accepts(&ProfileEvent::AnswerRead(Ok(Json::Null))));
}
