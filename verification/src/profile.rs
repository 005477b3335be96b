//! Fetching the profile of a user from the provider.
//!
//! The fetch runs in steps: each step says what to do next, and the server reports what
//! came of it.

use vstd::pervasive::unreached;
use vstd::prelude::*;
use vstd::string::*;

use crate::errors::AppError;
use crate::json::Json;
use crate::oauth::{OAuthProvider, UserProfile};
use crate::outside::status_text;

verus! {

/// How far a fetch has come.
#[derive(Debug, Clone, Copy, PartialEq, Eq, Structural)]
pub enum ProfileFetch {
    /// The request is on its way.
    Asking(OAuthProvider),
    /// The provider has answered.
    Reading(OAuthProvider),
    /// Nothing is left to do.
    Finished,
}

/// What to do next.
#[derive(Debug)]
pub enum ProfileAction<S = String> {
    /// Get `url` with this value of the `Authorization` header.
    Get { url: S, authorization: S },
    /// Read the answer as JSON.
    ReadAnswer,
    /// The profile is known.
    Done(UserProfile<S>),
    /// The fetch failed.
    Fail(AppError<S>),
}

impl View for ProfileAction {
    type V = ProfileAction<Seq<char>>;

    open spec fn view(&self) -> ProfileAction<Seq<char>> {
        match self {
            ProfileAction::Get { url, authorization } => ProfileAction::Get {
                url: url@,
                authorization: authorization@,
            },
            ProfileAction::ReadAnswer => ProfileAction::ReadAnswer,
            ProfileAction::Done(profile) => ProfileAction::Done(profile@),
            ProfileAction::Fail(e) => ProfileAction::Fail(e@),
        }
    }
}

/// What came of an action; a failure carries its report.
#[derive(Debug)]
pub enum ProfileEvent<S = String> {
    /// The provider answered with this HTTP status, or could not be reached.
    Answered(Result<u16, S>),
    /// The answer was read, or could not be.
    AnswerRead(Result<Json, S>),
}

impl View for ProfileEvent {
    type V = ProfileEvent<Seq<char>>;

    open spec fn view(&self) -> ProfileEvent<Seq<char>> {
        match self {
            ProfileEvent::Answered(Ok(code)) => ProfileEvent::Answered(Ok(*code)),
            ProfileEvent::Answered(Err(e)) => ProfileEvent::Answered(Err(e@)),
            ProfileEvent::AnswerRead(Ok(json)) => ProfileEvent::AnswerRead(Ok(*json)),
            ProfileEvent::AnswerRead(Err(e)) => ProfileEvent::AnswerRead(Err(e@)),
        }
    }
}

/// The status codes that report success.
pub open spec fn successful(code: u16) -> bool {
    200 <= code < 300
}

/// Where a provider gives out profiles.
pub open spec fn profile_url(provider: OAuthProvider) -> Seq<char> {
    match provider {
        OAuthProvider::Google => "https://www.googleapis.com/oauth2/v2/userinfo"@,
        OAuthProvider::Discord => "https://discord.com/api/users/@me"@,
        OAuthProvider::Apple => "https://appleid.apple.com/auth/userinfo"@,
    }
}

/// How a fetch begins. Apple gives out no profiles: what it tells of a user is in the
/// identity token.
pub open spec fn profile_begins(access_token: Seq<char>, provider: OAuthProvider) -> (
    ProfileFetch,
    ProfileAction<Seq<char>>,
) {
    if provider == OAuthProvider::Apple {
        (
            ProfileFetch::Finished,
            ProfileAction::Fail(
                AppError::ExternalService("Apple profile must be extracted from id_token"@),
            ),
        )
    } else {
        (
            ProfileFetch::Asking(provider),
            ProfileAction::Get {
                url: profile_url(provider),
                authorization: "Bearer "@ + access_token,
            },
        )
    }
}

/// What is reported where a profile holds no e-mail address.
pub open spec fn no_email(provider: OAuthProvider) -> Seq<char> {
    match provider {
        OAuthProvider::Google => "No email in Google profile"@,
        OAuthProvider::Discord => "No email in Discord profile"@,
        OAuthProvider::Apple => "No email in Apple profile"@,
    }
}

/// The picture of a Discord user, where the account names one.
pub open spec fn discord_avatar(account: Json) -> Option<Seq<char>> {
    match account.text_field("avatar"@) {
        Some(hash) => Some(
            "https://cdn.discordapp.com/avatars/"@ + (match account.text_field("id"@) {
                Some(id) => id,
                None => "0"@,
            }) + "/"@ + hash + ".png"@,
        ),
        None => None,
    }
}

/// The profile that an account describes. Without an e-mail address there is none.
pub open spec fn profile_of(provider: OAuthProvider, account: Json) -> Result<
    UserProfile<Seq<char>>,
    AppError<Seq<char>>,
> {
    match account.text_field("email"@) {
        None => Err(AppError::ExternalService(no_email(provider))),
        Some(email) => Ok(
            match provider {
                OAuthProvider::Google => UserProfile {
                    email,
                    display_name: account.text_field("name"@),
                    avatar_url: account.text_field("picture"@),
                },
                OAuthProvider::Discord => UserProfile {
                    email,
                    display_name: account.text_field("username"@),
                    avatar_url: discord_avatar(account),
                },
                OAuthProvider::Apple => UserProfile {
                    email,
                    display_name: None,
                    avatar_url: None,
                },
            },
        ),
    }
}

/// An event is accepted in the state that waits for it. A status has three digits.
pub open spec fn profile_accepts(state: ProfileFetch, event: ProfileEvent<Seq<char>>) -> bool {
    match event {
        ProfileEvent::Answered(answer) => state is Asking && (answer matches Ok(code) ==> 100
            <= code <= 999),
        ProfileEvent::AnswerRead(_) => state is Reading,
    }
}

/// How a fetch goes on.
pub open spec fn profile_goes_on(state: ProfileFetch, event: ProfileEvent<Seq<char>>) -> (
    ProfileFetch,
    ProfileAction<Seq<char>>,
) {
    match event {
        ProfileEvent::Answered(Err(e)) => (
            ProfileFetch::Finished,
            ProfileAction::Fail(AppError::ExternalService("Failed to fetch user profile: "@ + e)),
        ),
        ProfileEvent::Answered(Ok(code)) => if successful(code) {
            (ProfileFetch::Reading(state->Asking_0), ProfileAction::ReadAnswer)
        } else {
            (
                ProfileFetch::Finished,
                ProfileAction::Fail(
                    AppError::ExternalService(
                        "Failed to fetch user profile: HTTP "@ + crate::outside::status_line(code),
                    ),
                ),
            )
        },
        ProfileEvent::AnswerRead(Err(e)) => (
            ProfileFetch::Finished,
            ProfileAction::Fail(AppError::ExternalService("Failed to fetch user profile: "@ + e)),
        ),
        ProfileEvent::AnswerRead(Ok(account)) => (
            ProfileFetch::Finished,
            match profile_of(state->Reading_0, account) {
                Ok(profile) => ProfileAction::Done(profile),
                Err(e) => ProfileAction::Fail(e),
            },
        ),
    }
}

/// The picture of a Discord user, where the account names one.
fn discord_avatar_url(account: &Json) -> (url: Option<String>)
    ensures
        url.deep_view() == discord_avatar(*account),
{
    match account.text_at("avatar") {
        Some(hash) => {
            let id: String = match account.text_at("id") {
                Some(id) => id,
                None => "0".to_owned(),
            };
            Some(
                "https://cdn.discordapp.com/avatars/".to_owned().concat(id.as_str()).concat(
                    "/",
                ).concat(hash.as_str()).concat(".png"),
            )
        },
        None => None,
    }
}

/// The profile that an account describes.
pub fn profile_from_account(provider: OAuthProvider, account: &Json) -> (profile: Result<
    UserProfile,
    AppError,
>)
    ensures
        crate::errors::result_view(profile) == profile_of(provider, *account),
{
    let email: String = match account.text_at("email") {
        Some(email) => email,
        None => {
            let report: &'static str = match provider {
                OAuthProvider::Google => "No email in Google profile",
                OAuthProvider::Discord => "No email in Discord profile",
                OAuthProvider::Apple => "No email in Apple profile",
            };
            return Err(AppError::ExternalService(report.to_owned()));
        },
    };
    match provider {
        OAuthProvider::Google => Ok(
            UserProfile {
                email,
                display_name: account.text_at("name"),
                avatar_url: account.text_at("picture"),
            },
        ),
        OAuthProvider::Discord => Ok(
            UserProfile {
                email,
                display_name: account.text_at("username"),
                avatar_url: discord_avatar_url(account),
            },
        ),
        OAuthProvider::Apple => Ok(UserProfile { email, display_name: None, avatar_url: None }),
    }
}

/// Begins to fetch the profile of the user who holds this token.
pub fn fetch_user_profile(access_token: &str, provider: &OAuthProvider) -> (r: (
    ProfileFetch,
    ProfileAction,
))
    ensures
        (r.0, r.1@) == profile_begins(access_token@, *provider),
{
    let url: &'static str = match provider {
        OAuthProvider::Google => "https://www.googleapis.com/oauth2/v2/userinfo",
        OAuthProvider::Discord => "https://discord.com/api/users/@me",
        OAuthProvider::Apple => {
            return (
                ProfileFetch::Finished,
                ProfileAction::Fail(
                    AppError::ExternalService(
                        "Apple profile must be extracted from id_token".to_owned(),
                    ),
                ),
            );
        },
    };
    (
        ProfileFetch::Asking(*provider),
        ProfileAction::Get {
            url: url.to_owned(),
            authorization: "Bearer ".to_owned().concat(access_token),
        },
    )
}

impl ProfileFetch {
    /// Whether the event is one that the fetch waits for.
    pub fn accepts(&self, event: &ProfileEvent) -> (accepted: bool)
        ensures
            accepted == profile_accepts(*self, event@),
    {
        match event {
            ProfileEvent::Answered(answer) => match self {
                ProfileFetch::Asking(_) => match answer {
                    Ok(code) => 100 <= *code && *code <= 999,
                    Err(_) => true,
                },
                _ => false,
            },
            ProfileEvent::AnswerRead(_) => match self {
                ProfileFetch::Reading(_) => true,
                _ => false,
            },
        }
    }

    /// Goes on after an event.
    pub fn step(self, event: ProfileEvent) -> (r: (ProfileFetch, ProfileAction))
        requires
            profile_accepts(self, event@),
        ensures
            (r.0, r.1@) == profile_goes_on(self, event@),
    {
        let failure: AppError = match (self, event) {
            (ProfileFetch::Asking(provider), ProfileEvent::Answered(Ok(code))) => {
                if 200 <= code && code < 300 {
                    return (ProfileFetch::Reading(provider), ProfileAction::ReadAnswer);
                }
                AppError::ExternalService(
                    "Failed to fetch user profile: HTTP ".to_owned().concat(
                        status_text(code).as_str(),
                    ),
                )
            },
            (_, ProfileEvent::Answered(Err(e))) => AppError::ExternalService(
                "Failed to fetch user profile: ".to_owned().concat(e.as_str()),
            ),
            (_, ProfileEvent::AnswerRead(Err(e))) => AppError::ExternalService(
                "Failed to fetch user profile: ".to_owned().concat(e.as_str()),
            ),
            (ProfileFetch::Reading(provider), ProfileEvent::AnswerRead(Ok(account))) => {
                match profile_from_account(provider, &account) {
                    Ok(profile) => {
                        return (ProfileFetch::Finished, ProfileAction::Done(profile));
                    },
                    Err(e) => e,
                }
            },
            _ => unreached(),
        };
        (ProfileFetch::Finished, ProfileAction::Fail(failure))
    }
}

/// Apple is never asked for a profile: whatever the token, the fetch ends at once, with
/// nothing sent.
pub proof fn law_apple_is_never_asked(access_token: Seq<char>)
    ensures
        profile_begins(access_token, OAuthProvider::Apple).0 == ProfileFetch::Finished,
        profile_begins(access_token, OAuthProvider::Apple).1 is Fail,
{
}

/// A profile always has the e-mail address that the account states, and a fetch that ends
/// with a profile read it from the answer of the provider that was asked.
pub proof fn law_profile_has_the_stated_email(state: ProfileFetch, event: ProfileEvent<Seq<char>>)
    requires
        profile_accepts(state, event),
        profile_goes_on(state, event).1 is Done,
    ensures
        event matches ProfileEvent::AnswerRead(Ok(account)) && account.text_field("email"@) == Some(
            profile_goes_on(state, event).1->Done_0.email,
        ),
{
}

/// Google and Discord are asked at their own addresses, with the token of the user.
pub proof fn law_providers_are_asked_with_the_token(access_token: Seq<char>)
    ensures
        profile_begins(access_token, OAuthProvider::Google) == (
            ProfileFetch::Asking(OAuthProvider::Google),
            ProfileAction::Get {
                url: "https://www.googleapis.com/oauth2/v2/userinfo"@,
                authorization: "Bearer "@ + access_token,
            },
        ),
        profile_begins(access_token, OAuthProvider::Discord) == (
            ProfileFetch::Asking(OAuthProvider::Discord),
            ProfileAction::Get {
                url: "https://discord.com/api/users/@me"@,
                authorization: "Bearer "@ + access_token,
            },
        ),
        profile_begins(access_token, OAuthProvider::Apple) == (
            ProfileFetch::Finished,
            ProfileAction::Fail(
                AppError::ExternalService("Apple profile must be extracted from id_token"@),
            ),
        ),
{
}

/// Only the codes from 200 to 299 report success.
pub proof fn law_successes_are_the_200s(code: u16)
    ensures
        successful(code) <==> 200 <= code <= 299,
{
}

/// What comes of an answer: one of the 200s is read, any other ends the fetch with the
/// status, and so does a failure with its report.
pub proof fn law_profile_steps(provider: OAuthProvider, code: u16, e: Seq<char>)
    ensures
        200 <= code <= 299 ==> profile_goes_on(
            ProfileFetch::Asking(provider),
            ProfileEvent::Answered(Ok(code)),
        ) == (ProfileFetch::Reading(provider), ProfileAction::<Seq<char>>::ReadAnswer),
        code < 200 || code > 299 ==> profile_goes_on(
            ProfileFetch::Asking(provider),
            ProfileEvent::Answered(Ok(code)),
        ) == (
            ProfileFetch::Finished,
            ProfileAction::Fail(
                AppError::ExternalService(
                    "Failed to fetch user profile: HTTP "@ + crate::outside::status_line(code),
                ),
            ),
        ),
        profile_goes_on(ProfileFetch::Asking(provider), ProfileEvent::Answered(Err(e))) == (
            ProfileFetch::Finished,
            ProfileAction::Fail(AppError::ExternalService("Failed to fetch user profile: "@ + e)),
        ),
        profile_goes_on(ProfileFetch::Reading(provider), ProfileEvent::AnswerRead(Err(e))) == (
            ProfileFetch::Finished,
            ProfileAction::Fail(AppError::ExternalService("Failed to fetch user profile: "@ + e)),
        ),
{
}

/// What is read ends the fetch, with the profile of the provider that was asked or with
/// the reason why there is none.
pub proof fn law_profile_ends_the_fetch(provider: OAuthProvider, account: Json)
    ensures
        ({
            let step = profile_goes_on(
                ProfileFetch::Reading(provider),
                ProfileEvent::<Seq<char>>::AnswerRead(Ok(account)),
            );
            &&& step.0 == ProfileFetch::Finished
            &&& profile_of(provider, account) matches Ok(profile) ==> step.1
                == ProfileAction::Done(profile)
            &&& profile_of(provider, account) matches Err(e) ==> step.1
                == ProfileAction::<Seq<char>>::Fail(e)
        }),
{
}

/// A fetch waits first for an answer with a status of three digits, or word that none
/// came, and then for what the answer holds.
pub proof fn law_profile_waits_for_one_event(
    provider: OAuthProvider,
    code: u16,
    e: Seq<char>,
    read: Result<Json, Seq<char>>,
)
    ensures
        profile_accepts(
            ProfileFetch::Asking(provider),
            ProfileEvent::<Seq<char>>::Answered(Ok(code)),
        ) <==> 100 <= code <= 999,
        profile_accepts(ProfileFetch::Asking(provider), ProfileEvent::Answered(Err(e))),
        !profile_accepts(ProfileFetch::Asking(provider), ProfileEvent::AnswerRead(read)),
        profile_accepts(ProfileFetch::Reading(provider), ProfileEvent::AnswerRead(read)),
        !profile_accepts(
            ProfileFetch::Reading(provider),
            ProfileEvent::<Seq<char>>::Answered(Ok(code)),
        ),
        !profile_accepts(ProfileFetch::Finished, ProfileEvent::<Seq<char>>::Answered(Ok(code))),
        !profile_accepts(ProfileFetch::Finished, ProfileEvent::AnswerRead(read)),
{
}

/// An account whose first member `email` is no text, or that has none, gives no profile,
/// and the report names the provider. With an address there is a profile with it.
pub proof fn law_profiles_need_an_address(account: Json, i: int)
    ensures
        crate::json::none_named(account, "email"@) || (crate::json::first_named(
            account,
            "email"@,
            i,
        ) && !(account->Object_0@[i].1 is Text)) ==> {
            &&& profile_of(OAuthProvider::Google, account) == Err::<UserProfile<Seq<char>>, _>(
                AppError::ExternalService("No email in Google profile"@),
            )
            &&& profile_of(OAuthProvider::Discord, account) == Err::<UserProfile<Seq<char>>, _>(
                AppError::ExternalService("No email in Discord profile"@),
            )
            &&& profile_of(OAuthProvider::Apple, account) == Err::<UserProfile<Seq<char>>, _>(
                AppError::ExternalService("No email in Apple profile"@),
            )
        },
        crate::json::first_named(account, "email"@, i) && account->Object_0@[i].1 is Text
            ==> forall|provider: OAuthProvider|
            (#[trigger] profile_of(provider, account)) matches Ok(profile) && profile.email
                == account->Object_0@[i].1->Text_0@,
{
    crate::json::law_the_first_member_counts(account, "email"@, i);
}

/// Where a value of a profile comes from: `name` and `picture` at Google, `username` at
/// Discord, and nothing of the kind at Apple. What is missing there, or is no text, is
/// missing in the profile.
pub proof fn law_profile_values(account: Json, i: int)
    requires
        account.text_field("email"@) is Some,
    ensures
        crate::json::first_named(account, "name"@, i) ==> profile_of(
            OAuthProvider::Google,
            account,
        )->Ok_0.display_name == account->Object_0@[i].1.text(),
        crate::json::none_named(account, "name"@) ==> profile_of(
            OAuthProvider::Google,
            account,
        )->Ok_0.display_name is None,
        crate::json::first_named(account, "picture"@, i) ==> profile_of(
            OAuthProvider::Google,
            account,
        )->Ok_0.avatar_url == account->Object_0@[i].1.text(),
        crate::json::none_named(account, "picture"@) ==> profile_of(
            OAuthProvider::Google,
            account,
        )->Ok_0.avatar_url is None,
        crate::json::first_named(account, "username"@, i) ==> profile_of(
            OAuthProvider::Discord,
            account,
        )->Ok_0.display_name == account->Object_0@[i].1.text(),
        crate::json::none_named(account, "username"@) ==> profile_of(
            OAuthProvider::Discord,
            account,
        )->Ok_0.display_name is None,
        profile_of(OAuthProvider::Apple, account)->Ok_0.display_name is None,
        profile_of(OAuthProvider::Apple, account)->Ok_0.avatar_url is None,
{
    crate::json::law_the_first_member_counts(account, "name"@, i);
    crate::json::law_the_first_member_counts(account, "picture"@, i);
    crate::json::law_the_first_member_counts(account, "username"@, i);
}

/// The picture of a Discord user is named by the user's identifier, `0` where there is
/// none, and the hash in `avatar`; without a hash there is no picture.
pub proof fn law_discord_pictures(account: Json, i: int, j: int)
    requires
        account.text_field("email"@) is Some,
    ensures
        ({
            let avatar = profile_of(OAuthProvider::Discord, account)->Ok_0.avatar_url;
            &&& crate::json::none_named(account, "avatar"@) ==> avatar is None
            &&& crate::json::first_named(account, "avatar"@, i) && !(account->Object_0@[i].1 is Text)
                ==> avatar is None
            &&& crate::json::first_named(account, "avatar"@, i) && account->Object_0@[i].1 is Text
                && crate::json::first_named(account, "id"@, j) && account->Object_0@[j].1 is Text
                ==> avatar == Some(
                "https://cdn.discordapp.com/avatars/"@ + account->Object_0@[j].1->Text_0@ + "/"@
                    + account->Object_0@[i].1->Text_0@ + ".png"@,
            )
            &&& crate::json::first_named(account, "avatar"@, i) && account->Object_0@[i].1 is Text
                && (crate::json::none_named(account, "id"@) || crate::json::first_named(
                account,
                "id"@,
                j,
            ) && !(account->Object_0@[j].1 is Text)) ==> avatar == Some(
                "https://cdn.discordapp.com/avatars/"@ + "0"@ + "/"@
                    + account->Object_0@[i].1->Text_0@ + ".png"@,
            )
        }),
{
    crate::json::law_the_first_member_counts(account, "avatar"@, i);
    crate::json::law_the_first_member_counts(account, "id"@, j);
}

/// The models of actions and events hold what these hold.
pub proof fn law_profile_models(
    url: String,
    authorization: String,
    profile: UserProfile,
    e: AppError,
    report: String,
    code: u16,
    account: Json,
)
    ensures
        (ProfileAction::Get { url, authorization })@ == (ProfileAction::Get {
            url: url@,
            authorization: authorization@,
        }),
        ProfileAction::<String>::ReadAnswer@ == ProfileAction::<Seq<char>>::ReadAnswer,
        ProfileAction::Done(profile)@ == ProfileAction::Done(profile@),
        ProfileAction::Fail(e)@ == ProfileAction::Fail(e@),
        ProfileEvent::<String>::Answered(Ok(code))@ == ProfileEvent::<Seq<char>>::Answered(Ok(code)),
        ProfileEvent::Answered(Err(report))@ == ProfileEvent::Answered(Err(report@)),
        ProfileEvent::<String>::AnswerRead(Ok(account))@ == ProfileEvent::<Seq<char>>::AnswerRead(
            Ok(account),
        ),
        ProfileEvent::AnswerRead(Err(report))@ == ProfileEvent::AnswerRead(Err(report@)),
{
}

} // verus!
