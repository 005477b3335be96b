//! The course of a sign-in with Apple.
//!
//! A browser comes with an authorization code, the mobile application with an identity
//! token. Both ways lead to an e-mail address, to the user with that address, who is
//! created where there is none, and to a token for that user. A sign-in from a browser
//! also keeps the session with Apple.
//!
//! The sign-in runs in steps: each step says what to do next, and the server reports what
//! came of it.

use vstd::pervasive::unreached;
use vstd::prelude::*;
use vstd::string::*;

use crate::apple_auth::{AppleClaims, AppleMobileAuthRequest};
use crate::errors::AppError;
use crate::oauth::{AppleTokenResponse, AuthRequest, OAuthProvider};
use crate::session::SignedIn;
use crate::text::given_or_empty;

verus! {

/// What a browser's sign-in brings that has to be kept.
#[derive(Debug)]
pub struct AppleGrant<S = String> {
    /// The address that Apple states.
    pub apple_email: S,
    pub access_token: S,
    pub refresh_token: S,
    /// When the access token expires, in seconds since the start of 1970.
    pub expires_at: i64,
}

impl View for AppleGrant {
    type V = AppleGrant<Seq<char>>;

    open spec fn view(&self) -> AppleGrant<Seq<char>> {
        AppleGrant {
            apple_email: self.apple_email@,
            access_token: self.access_token@,
            refresh_token: self.refresh_token@,
            expires_at: self.expires_at,
        }
    }
}

/// The model of a grant that may be missing.
pub open spec fn grant_view(grant: Option<AppleGrant>) -> Option<AppleGrant<Seq<char>>> {
    match grant {
        Some(g) => Some(g@),
        None => None,
    }
}

/// How far a sign-in has come. `auth_token` is the token of a user who is signed in
/// already, or empty.
#[derive(Debug)]
pub enum SignIn<S = String> {
    /// The code of a browser is being traded for tokens.
    ExchangingCode { auth_token: S, audience: S },
    /// The identity token of a browser's sign-in is being decoded.
    DecodingIdToken { auth_token: S, access_token: S, refresh_token: S, lifetime: u64 },
    /// The identity token of the mobile application is being decoded; `stated_email` is
    /// the address that came beside it.
    DecodingIdentity { stated_email: Option<S> },
    /// The time at which the access token expires is being worked out.
    ComputingExpiry { auth_token: S, apple_email: S, access_token: S, refresh_token: S },
    /// The address of the user who is signed in already is being looked up.
    ResolvingEmail(AppleGrant<S>),
    /// The user is being looked up.
    FindingUser { email: S, grant: Option<AppleGrant<S>> },
    /// A transaction is being opened, in which the user will be created.
    OpeningTransaction { email: S, grant: Option<AppleGrant<S>> },
    /// The user is being created.
    CreatingUser { email: S, grant: Option<AppleGrant<S>> },
    /// The transaction is being committed.
    Committing { email: S, grant: Option<AppleGrant<S>>, user_id: S },
    /// The session is being stored.
    SavingSession { email: S, user_id: S },
    /// The token is being issued.
    IssuingToken { user_id: S },
    /// Nothing is left to do.
    Finished,
}

impl View for SignIn {
    type V = SignIn<Seq<char>>;

    open spec fn view(&self) -> SignIn<Seq<char>> {
        match self {
            SignIn::ExchangingCode { auth_token, audience } => SignIn::ExchangingCode {
                auth_token: auth_token@,
                audience: audience@,
            },
            SignIn::DecodingIdToken { auth_token, access_token, refresh_token, lifetime } => {
                SignIn::DecodingIdToken {
                    auth_token: auth_token@,
                    access_token: access_token@,
                    refresh_token: refresh_token@,
                    lifetime: *lifetime,
                }
            },
            SignIn::DecodingIdentity { stated_email } => SignIn::DecodingIdentity {
                stated_email: stated_email.deep_view(),
            },
            SignIn::ComputingExpiry { auth_token, apple_email, access_token, refresh_token } => {
                SignIn::ComputingExpiry {
                    auth_token: auth_token@,
                    apple_email: apple_email@,
                    access_token: access_token@,
                    refresh_token: refresh_token@,
                }
            },
            SignIn::ResolvingEmail(grant) => SignIn::ResolvingEmail(grant@),
            SignIn::FindingUser { email, grant } => SignIn::FindingUser {
                email: email@,
                grant: grant_view(*grant),
            },
            SignIn::OpeningTransaction { email, grant } => SignIn::OpeningTransaction {
                email: email@,
                grant: grant_view(*grant),
            },
            SignIn::CreatingUser { email, grant } => SignIn::CreatingUser {
                email: email@,
                grant: grant_view(*grant),
            },
            SignIn::Committing { email, grant, user_id } => SignIn::Committing {
                email: email@,
                grant: grant_view(*grant),
                user_id: user_id@,
            },
            SignIn::SavingSession { email, user_id } => SignIn::SavingSession {
                email: email@,
                user_id: user_id@,
            },
            SignIn::IssuingToken { user_id } => SignIn::IssuingToken { user_id: user_id@ },
            SignIn::Finished => SignIn::Finished,
        }
    }
}

/// What to do next.
#[derive(Debug)]
pub enum SignInAction<S = String> {
    /// Trade the code for tokens.
    ExchangeCode { code: S },
    /// Decode the identity token, for this audience if one is given.
    DecodeToken { token: S, audience: Option<S> },
    /// Work out when a token expires that lives for so many seconds from now.
    ComputeExpiry { lifetime: u64 },
    /// Look up the address of the user who holds this token.
    ResolveEmail { auth_token: S },
    /// Look up the identifier of the user with this address.
    FindUser { email: S },
    /// Open a transaction.
    OpenTransaction,
    /// Create a user, within the transaction. Without an identifier the user gets a fresh
    /// one; all that is not given here has its default value.
    CreateUser { id: Option<S>, email: S, encrypted_password: Option<S> },
    /// Commit the transaction.
    Commit,
    /// Store the session.
    SaveSession(SignedIn<S>),
    /// Issue a token for the user.
    IssueToken { email: S, user_id: S },
    /// The user is signed in with this token; what the cache holds under the pattern is
    /// out of date.
    Complete { token: S, cache_pattern: S },
    /// The sign-in failed.
    Fail(AppError<S>),
}

impl View for SignInAction {
    type V = SignInAction<Seq<char>>;

    open spec fn view(&self) -> SignInAction<Seq<char>> {
        match self {
            SignInAction::ExchangeCode { code } => SignInAction::ExchangeCode { code: code@ },
            SignInAction::DecodeToken { token, audience } => SignInAction::DecodeToken {
                token: token@,
                audience: audience.deep_view(),
            },
            SignInAction::ComputeExpiry { lifetime } => SignInAction::ComputeExpiry {
                lifetime: *lifetime,
            },
            SignInAction::ResolveEmail { auth_token } => SignInAction::ResolveEmail {
                auth_token: auth_token@,
            },
            SignInAction::FindUser { email } => SignInAction::FindUser { email: email@ },
            SignInAction::OpenTransaction => SignInAction::OpenTransaction,
            SignInAction::CreateUser { id, email, encrypted_password } => {
                SignInAction::CreateUser {
                    id: id.deep_view(),
                    email: email@,
                    encrypted_password: encrypted_password.deep_view(),
                }
            },
            SignInAction::Commit => SignInAction::Commit,
            SignInAction::SaveSession(sign_in) => SignInAction::SaveSession(sign_in@),
            SignInAction::IssueToken { email, user_id } => SignInAction::IssueToken {
                email: email@,
                user_id: user_id@,
            },
            SignInAction::Complete { token, cache_pattern } => SignInAction::Complete {
                token: token@,
                cache_pattern: cache_pattern@,
            },
            SignInAction::Fail(e) => SignInAction::Fail(e@),
        }
    }
}

/// What came of an action. A failure carries its error, or the report of one.
#[derive(Debug)]
pub enum SignInEvent<S = String> {
    CodeExchanged(Result<AppleTokenResponse<S>, AppError<S>>),
    TokenDecoded(Result<AppleClaims<S>, S>),
    /// The access token expires so many seconds after the start of 1970.
    ExpiryComputed(i64),
    EmailResolved(Result<S, AppError<S>>),
    UserLookedUp(Result<S, AppError<S>>),
    TransactionOpened(Result<(), S>),
    UserCreated(Result<S, AppError<S>>),
    Committed(Result<(), S>),
    SessionSaved(Result<(), AppError<S>>),
    TokenIssued(Result<S, AppError<S>>),
}

impl View for SignInEvent {
    type V = SignInEvent<Seq<char>>;

    open spec fn view(&self) -> SignInEvent<Seq<char>> {
        match self {
            SignInEvent::CodeExchanged(r) => SignInEvent::CodeExchanged(
                crate::errors::result_view(*r),
            ),
            SignInEvent::TokenDecoded(r) => SignInEvent::TokenDecoded(
                crate::errors::result_view(*r),
            ),
            SignInEvent::ExpiryComputed(seconds) => SignInEvent::ExpiryComputed(*seconds),
            SignInEvent::EmailResolved(r) => SignInEvent::EmailResolved(
                crate::errors::result_view(*r),
            ),
            SignInEvent::UserLookedUp(r) => SignInEvent::UserLookedUp(
                crate::errors::result_view(*r),
            ),
            SignInEvent::TransactionOpened(r) => SignInEvent::TransactionOpened(
                crate::errors::result_view(*r),
            ),
            SignInEvent::UserCreated(r) => SignInEvent::UserCreated(
                crate::errors::result_view(*r),
            ),
            SignInEvent::Committed(r) => SignInEvent::Committed(crate::errors::result_view(*r)),
            SignInEvent::SessionSaved(r) => SignInEvent::SessionSaved(
                crate::errors::result_view(*r),
            ),
            SignInEvent::TokenIssued(r) => SignInEvent::TokenIssued(
                crate::errors::result_view(*r),
            ),
        }
    }
}

/// Where a sign-in stands, and what to do next.
pub type SignInStep = (SignIn<Seq<char>>, SignInAction<Seq<char>>);

/// A number of seconds as an unsigned one; a negative number wraps around.
pub open spec fn unsigned_seconds(seconds: i64) -> u64 {
    if seconds >= 0 {
        seconds as u64
    } else {
        (seconds + 0x1_0000_0000_0000_0000) as u64
    }
}

/// A sign-in that failed.
pub open spec fn failed(e: AppError<Seq<char>>) -> SignInStep {
    (SignIn::Finished, SignInAction::Fail(e))
}

/// How a sign-in from a browser begins. `auth_token` is the token of a user who is signed
/// in already, `client_id` what `APPLE_OAUTH_CLIENT_ID` holds.
pub open spec fn browser_begins(
    code: Seq<char>,
    auth_token: Option<Seq<char>>,
    client_id: Option<Seq<char>>,
) -> SignInStep {
    (
        SignIn::ExchangingCode { auth_token: crate::text::or_empty(auth_token), audience: crate::text::or_empty(client_id) },
        SignInAction::ExchangeCode { code },
    )
}

/// How a sign-in from the mobile application begins.
pub open spec fn mobile_begins(
    identity_token: Seq<char>,
    stated_email: Option<Seq<char>>,
) -> SignInStep {
    (
        SignIn::DecodingIdentity { stated_email },
        SignInAction::DecodeToken { token: identity_token, audience: None },
    )
}

/// Once the address is known, the user is looked up.
pub open spec fn email_known(
    email: Seq<char>,
    grant: Option<AppleGrant<Seq<char>>>,
) -> SignInStep {
    (SignIn::FindingUser { email, grant }, SignInAction::FindUser { email })
}

/// Once the user is known, the session is stored, if there is one, and else the token is
/// issued.
pub open spec fn user_known(
    email: Seq<char>,
    grant: Option<AppleGrant<Seq<char>>>,
    user_id: Seq<char>,
) -> SignInStep {
    match grant {
        Some(g) => (
            SignIn::SavingSession { email, user_id },
            SignInAction::SaveSession(
                SignedIn {
                    email,
                    access_token: g.access_token,
                    expires_at: g.expires_at,
                    refresh_token: g.refresh_token,
                    provider: OAuthProvider::Apple,
                    original_email: g.apple_email,
                },
            ),
        ),
        None => (SignIn::IssuingToken { user_id }, SignInAction::IssueToken { email, user_id }),
    }
}

/// What the cache holds of a user's channels.
pub open spec fn channels_pattern(user_id: Seq<char>) -> Seq<char> {
    "user:"@ + user_id + ":channels:*"@
}

/// An event is accepted in the state that waits for it.
pub open spec fn sign_in_accepts(
    state: SignIn<Seq<char>>,
    event: SignInEvent<Seq<char>>,
) -> bool {
    match event {
        SignInEvent::CodeExchanged(_) => state is ExchangingCode,
        SignInEvent::TokenDecoded(_) => state is DecodingIdToken || state is DecodingIdentity,
        SignInEvent::ExpiryComputed(_) => state is ComputingExpiry,
        SignInEvent::EmailResolved(_) => state is ResolvingEmail,
        SignInEvent::UserLookedUp(_) => state is FindingUser,
        SignInEvent::TransactionOpened(_) => state is OpeningTransaction,
        SignInEvent::UserCreated(_) => state is CreatingUser,
        SignInEvent::Committed(_) => state is Committing,
        SignInEvent::SessionSaved(_) => state is SavingSession,
        SignInEvent::TokenIssued(_) => state is IssuingToken,
    }
}

/// A browser's sign-in goes on after the code was traded: Apple states who the user is in
/// the identity token.
pub open spec fn after_exchange(
    auth_token: Seq<char>,
    audience: Seq<char>,
    exchanged: Result<AppleTokenResponse<Seq<char>>, AppError<Seq<char>>>,
) -> SignInStep {
    match exchanged {
        Err(e) => failed(
            AppError::ExternalService("Failed to exchange authorization code: "@ + e.text()),
        ),
        Ok(tokens) => match tokens.id_token {
            None => failed(AppError::Authentication("No id_token received from Apple"@)),
            Some(token) => (
                SignIn::DecodingIdToken {
                    auth_token,
                    access_token: tokens.access_token,
                    refresh_token: crate::text::or_empty(tokens.refresh_token),
                    lifetime: unsigned_seconds(tokens.expires_in),
                },
                SignInAction::DecodeToken { token, audience: Some(audience) },
            ),
        },
    }
}

/// How a sign-in goes on.
pub open spec fn sign_in_goes_on(
    state: SignIn<Seq<char>>,
    event: SignInEvent<Seq<char>>,
) -> SignInStep {
    match (state, event) {
        (
            SignIn::ExchangingCode { auth_token, audience },
            SignInEvent::CodeExchanged(exchanged),
        ) => after_exchange(auth_token, audience, exchanged),
        (
            SignIn::DecodingIdToken { auth_token, access_token, refresh_token, lifetime },
            SignInEvent::TokenDecoded(decoded),
        ) => match decoded {
            Err(_) => failed(AppError::Authentication("Failed to decode Apple id_token"@)),
            Ok(claims) => match claims.email {
                None => failed(AppError::Authentication("No email in Apple id_token"@)),
                Some(apple_email) => (
                    SignIn::ComputingExpiry { auth_token, apple_email, access_token, refresh_token },
                    SignInAction::ComputeExpiry { lifetime },
                ),
            },
        },
        (SignIn::DecodingIdentity { stated_email }, SignInEvent::TokenDecoded(decoded)) => {
            match decoded {
                Err(e) => failed(
                    AppError::Authentication("Failed to decode Apple identity_token: "@ + e),
                ),
                Ok(claims) => match (claims.email, stated_email) {
                    (Some(email), _) => email_known(email, None),
                    (None, Some(email)) => email_known(email, None),
                    (None, None) => failed(
                        AppError::Authentication(
                            "No email in Apple identity_token or payload"@,
                        ),
                    ),
                },
            }
        },
        (
            SignIn::ComputingExpiry { auth_token, apple_email, access_token, refresh_token },
            SignInEvent::ExpiryComputed(expires_at),
        ) => {
            let grant = AppleGrant { apple_email, access_token, refresh_token, expires_at };
            if auth_token.len() == 0 {
                email_known(apple_email, Some(grant))
            } else {
                (SignIn::ResolvingEmail(grant), SignInAction::ResolveEmail { auth_token })
            }
        },
        (SignIn::ResolvingEmail(grant), SignInEvent::EmailResolved(resolved)) => {
            match resolved {
                Ok(email) => email_known(email, Some(grant)),
                Err(e) => failed(e),
            }
        },
        (SignIn::FindingUser { email, grant }, SignInEvent::UserLookedUp(found)) => match found {
            Ok(user_id) => user_known(email, grant, user_id),
            Err(AppError::NotFound(_)) => (
                SignIn::OpeningTransaction { email, grant },
                SignInAction::OpenTransaction,
            ),
            Err(e) => failed(e),
        },
        (SignIn::OpeningTransaction { email, grant }, SignInEvent::TransactionOpened(opened)) => {
            match opened {
                Ok(_) => (
                    SignIn::CreatingUser { email, grant },
                    SignInAction::CreateUser { id: None, email, encrypted_password: None },
                ),
                Err(e) => failed(
                    AppError::Database { message: "Failed to start transaction"@, cause: Some(e) },
                ),
            }
        },
        (SignIn::CreatingUser { email, grant }, SignInEvent::UserCreated(created)) => {
            match created {
                Ok(user_id) => (
                    SignIn::Committing { email, grant, user_id },
                    SignInAction::Commit,
                ),
                Err(e) => failed(e),
            }
        },
        (SignIn::Committing { email, grant, user_id }, SignInEvent::Committed(committed)) => {
            match committed {
                Ok(_) => user_known(email, grant, user_id),
                Err(e) => failed(
                    AppError::Database { message: "Failed to commit transaction"@, cause: Some(e) },
                ),
            }
        },
        (SignIn::SavingSession { email, user_id }, SignInEvent::SessionSaved(saved)) => {
            match saved {
                Ok(_) => (
                    SignIn::IssuingToken { user_id },
                    SignInAction::IssueToken { email, user_id },
                ),
                Err(e) => failed(e),
            }
        },
        (SignIn::IssuingToken { user_id }, SignInEvent::TokenIssued(issued)) => match issued {
            Ok(token) => (
                SignIn::Finished,
                SignInAction::Complete { token, cache_pattern: channels_pattern(user_id) },
            ),
            Err(e) => failed(e),
        },
        _ => arbitrary(),
    }
}

/// A number of seconds as an unsigned one.
fn wrapped(seconds: i64) -> (unsigned: u64)
    ensures
        unsigned == unsigned_seconds(seconds),
{
    let unsigned: u64 = seconds as u64;
    assert(seconds < 0 ==> unsigned == seconds + 0x1_0000_0000_0000_0000) by (bit_vector)
        requires
            unsigned == seconds as u64,
    ;
    unsigned
}

/// Ends a sign-in that failed.
fn fail(e: AppError) -> (r: (SignIn, SignInAction))
    ensures
        (r.0@, r.1@) == failed(e@),
{
    (SignIn::Finished, SignInAction::Fail(e))
}

/// Goes on once the address is known.
fn find_user(email: String, grant: Option<AppleGrant>) -> (r: (SignIn, SignInAction))
    ensures
        (r.0@, r.1@) == email_known(email@, grant_view(grant)),
{
    let wanted: String = email.clone();
    (SignIn::FindingUser { email, grant }, SignInAction::FindUser { email: wanted })
}

/// Goes on once the user is known.
fn keep_user(email: String, grant: Option<AppleGrant>, user_id: String) -> (r: (
    SignIn,
    SignInAction,
))
    ensures
        (r.0@, r.1@) == user_known(email@, grant_view(grant), user_id@),
{
    match grant {
        Some(g) => {
            let owner: String = email.clone();
            let sign_in = SignedIn {
                email: owner,
                access_token: g.access_token,
                expires_at: g.expires_at,
                refresh_token: g.refresh_token,
                provider: OAuthProvider::Apple,
                original_email: g.apple_email,
            };
            (SignIn::SavingSession { email, user_id }, SignInAction::SaveSession(sign_in))
        },
        None => {
            let id: String = user_id.clone();
            (SignIn::IssuingToken { user_id }, SignInAction::IssueToken { email, user_id: id })
        },
    }
}

/// Begins a sign-in from a browser that comes back from Apple with a code. `auth_token`
/// is what the browser's cookie of that name holds, `client_id` what
/// `APPLE_OAUTH_CLIENT_ID` holds.
pub fn apple_callback(
    query: &AuthRequest,
    auth_token: Option<String>,
    client_id: Option<String>,
) -> (r: (SignIn, SignInAction))
    ensures
        (r.0@, r.1@) == browser_begins(
            query.code@,
            auth_token.deep_view(),
            client_id.deep_view(),
        ),
{
    (
        SignIn::ExchangingCode {
            auth_token: given_or_empty(auth_token),
            audience: given_or_empty(client_id),
        },
        SignInAction::ExchangeCode { code: query.code.clone() },
    )
}

/// Begins a sign-in from the mobile application.
pub fn apple_mobile_auth(payload: AppleMobileAuthRequest) -> (r: (SignIn, SignInAction))
    ensures
        (r.0@, r.1@) == mobile_begins(payload.identity_token@, payload.email.deep_view()),
{
    (
        SignIn::DecodingIdentity { stated_email: payload.email },
        SignInAction::DecodeToken { token: payload.identity_token, audience: None },
    )
}

/// Goes on after a browser's code was traded.
fn decode_id_token(
    auth_token: String,
    audience: String,
    exchanged: Result<AppleTokenResponse, AppError>,
) -> (r: (SignIn, SignInAction))
    ensures
        (r.0@, r.1@) == after_exchange(
            auth_token@,
            audience@,
            crate::errors::result_view(exchanged),
        ),
{
    match exchanged {
        Err(e) => fail(
            AppError::ExternalService(
                "Failed to exchange authorization code: ".to_owned().concat(e.message().as_str()),
            ),
        ),
        Ok(tokens) => match tokens.id_token {
            None => fail(AppError::Authentication("No id_token received from Apple".to_owned())),
            Some(token) => (
                SignIn::DecodingIdToken {
                    auth_token,
                    access_token: tokens.access_token,
                    refresh_token: given_or_empty(tokens.refresh_token),
                    lifetime: wrapped(tokens.expires_in),
                },
                SignInAction::DecodeToken { token, audience: Some(audience) },
            ),
        },
    }
}

impl SignIn {
    /// Whether the event is one that the sign-in waits for.
    pub fn accepts(&self, event: &SignInEvent) -> (accepted: bool)
        ensures
            accepted == sign_in_accepts(self@, event@),
    {
        match (self, event) {
            (SignIn::ExchangingCode { .. }, SignInEvent::CodeExchanged(_)) => true,
            (SignIn::DecodingIdToken { .. }, SignInEvent::TokenDecoded(_)) => true,
            (SignIn::DecodingIdentity { .. }, SignInEvent::TokenDecoded(_)) => true,
            (SignIn::ComputingExpiry { .. }, SignInEvent::ExpiryComputed(_)) => true,
            (SignIn::ResolvingEmail(_), SignInEvent::EmailResolved(_)) => true,
            (SignIn::FindingUser { .. }, SignInEvent::UserLookedUp(_)) => true,
            (SignIn::OpeningTransaction { .. }, SignInEvent::TransactionOpened(_)) => true,
            (SignIn::CreatingUser { .. }, SignInEvent::UserCreated(_)) => true,
            (SignIn::Committing { .. }, SignInEvent::Committed(_)) => true,
            (SignIn::SavingSession { .. }, SignInEvent::SessionSaved(_)) => true,
            (SignIn::IssuingToken { .. }, SignInEvent::TokenIssued(_)) => true,
            _ => false,
        }
    }

    /// Goes on after an event.
    pub fn step(self, event: SignInEvent) -> (r: (SignIn, SignInAction))
        requires
            sign_in_accepts(self@, event@),
        ensures
            (r.0@, r.1@) == sign_in_goes_on(self@, event@),
    {
        match (self, event) {
            (
                SignIn::ExchangingCode { auth_token, audience },
                SignInEvent::CodeExchanged(exchanged),
            ) => decode_id_token(auth_token, audience, exchanged),
            (
                SignIn::DecodingIdToken { auth_token, access_token, refresh_token, lifetime },
                SignInEvent::TokenDecoded(decoded),
            ) => match decoded {
                Err(_) => fail(
                    AppError::Authentication("Failed to decode Apple id_token".to_owned()),
                ),
                Ok(claims) => match claims.email {
                    None => fail(
                        AppError::Authentication("No email in Apple id_token".to_owned()),
                    ),
                    Some(apple_email) => (
                        SignIn::ComputingExpiry {
                            auth_token,
                            apple_email,
                            access_token,
                            refresh_token,
                        },
                        SignInAction::ComputeExpiry { lifetime },
                    ),
                },
            },
            (SignIn::DecodingIdentity { stated_email }, SignInEvent::TokenDecoded(decoded)) => {
                match decoded {
                    Err(e) => fail(
                        AppError::Authentication(
                            "Failed to decode Apple identity_token: ".to_owned().concat(
                                e.as_str(),
                            ),
                        ),
                    ),
                    Ok(claims) => match (claims.email, stated_email) {
                        (Some(email), _) => find_user(email, None),
                        (None, Some(email)) => find_user(email, None),
                        (None, None) => fail(
                            AppError::Authentication(
                                "No email in Apple identity_token or payload".to_owned(),
                            ),
                        ),
                    },
                }
            },
            (
                SignIn::ComputingExpiry { auth_token, apple_email, access_token, refresh_token },
                SignInEvent::ExpiryComputed(expires_at),
            ) => {
                let email: String = apple_email.clone();
                let grant = AppleGrant { apple_email, access_token, refresh_token, expires_at };
                if auth_token.as_str().unicode_len() == 0 {
                    find_user(email, Some(grant))
                } else {
                    (SignIn::ResolvingEmail(grant), SignInAction::ResolveEmail { auth_token })
                }
            },
            (SignIn::ResolvingEmail(grant), SignInEvent::EmailResolved(resolved)) => {
                match resolved {
                    Ok(email) => find_user(email, Some(grant)),
                    Err(e) => fail(e),
                }
            },
            (SignIn::FindingUser { email, grant }, SignInEvent::UserLookedUp(found)) => {
                match found {
                    Ok(user_id) => keep_user(email, grant, user_id),
                    Err(AppError::NotFound(_)) => (
                        SignIn::OpeningTransaction { email, grant },
                        SignInAction::OpenTransaction,
                    ),
                    Err(e) => fail(e),
                }
            },
            (
                SignIn::OpeningTransaction { email, grant },
                SignInEvent::TransactionOpened(opened),
            ) => match opened {
                Ok(_) => {
                    let wanted: String = email.clone();
                    (
                        SignIn::CreatingUser { email, grant },
                        SignInAction::CreateUser {
                            id: None,
                            email: wanted,
                            encrypted_password: None,
                        },
                    )
                },
                Err(e) => fail(
                    AppError::Database {
                        message: "Failed to start transaction".to_owned(),
                        cause: Some(e),
                    },
                ),
            },
            (SignIn::CreatingUser { email, grant }, SignInEvent::UserCreated(created)) => {
                match created {
                    Ok(user_id) => (
                        SignIn::Committing { email, grant, user_id },
                        SignInAction::Commit,
                    ),
                    Err(e) => fail(e),
                }
            },
            (
                SignIn::Committing { email, grant, user_id },
                SignInEvent::Committed(committed),
            ) => match committed {
                Ok(_) => keep_user(email, grant, user_id),
                Err(e) => fail(
                    AppError::Database {
                        message: "Failed to commit transaction".to_owned(),
                        cause: Some(e),
                    },
                ),
            },
            (SignIn::SavingSession { email, user_id }, SignInEvent::SessionSaved(saved)) => {
                match saved {
                    Ok(_) => {
                        let id: String = user_id.clone();
                        (
                            SignIn::IssuingToken { user_id },
                            SignInAction::IssueToken { email, user_id: id },
                        )
                    },
                    Err(e) => fail(e),
                }
            },
            (SignIn::IssuingToken { user_id }, SignInEvent::TokenIssued(issued)) => {
                match issued {
                    Ok(token) => (
                        SignIn::Finished,
                        SignInAction::Complete {
                            token,
                            cache_pattern: "user:".to_owned().concat(user_id.as_str()).concat(
                                ":channels:*",
                            ),
                        },
                    ),
                    Err(e) => fail(e),
                }
            },
            _ => unreached(),
        }
    }
}

/// Where a sign-in that began like this stands after these events.
pub open spec fn sign_in_after(
    begun: SignInStep,
    events: Seq<SignInEvent<Seq<char>>>,
) -> SignInStep
    decreases events.len(),
{
    if events.len() == 0 {
        begun
    } else {
        sign_in_goes_on(sign_in_after(begun, events.drop_last()).0, events.last())
    }
}

/// Each of these events came when the sign-in waited for it.
pub open spec fn sign_in_events_accepted(
    begun: SignInStep,
    events: Seq<SignInEvent<Seq<char>>>,
) -> bool
    decreases events.len(),
{
    events.len() == 0 || (sign_in_events_accepted(begun, events.drop_last()) && sign_in_accepts(
        sign_in_after(begun, events.drop_last()).0,
        events.last(),
    ))
}

/// An identity token with this address was decoded.
pub open spec fn address_decoded(
    events: Seq<SignInEvent<Seq<char>>>,
    email: Option<Seq<char>>,
) -> bool {
    exists|claims: AppleClaims<Seq<char>>| #[trigger]
        events.contains(SignInEvent::TokenDecoded(Ok(claims))) && claims.email == email
}

/// Apple gave these tokens for the code.
pub open spec fn tokens_came(
    events: Seq<SignInEvent<Seq<char>>>,
    access_token: Seq<char>,
    refresh_token: Seq<char>,
) -> bool {
    exists|tokens: AppleTokenResponse<Seq<char>>| #[trigger]
        events.contains(SignInEvent::CodeExchanged(Ok(tokens))) && tokens.access_token
            == access_token && crate::text::or_empty(tokens.refresh_token) == refresh_token
}

/// The address that a browser's sign-in is for: that of the user who is signed in already
/// or, if nobody is, the one that Apple states.
pub open spec fn browser_address(
    auth_token: Seq<char>,
    events: Seq<SignInEvent<Seq<char>>>,
    email: Seq<char>,
) -> bool {
    if auth_token.len() == 0 {
        address_decoded(events, Some(email))
    } else {
        events.contains(SignInEvent::EmailResolved(Ok(email)))
    }
}

/// The address that a sign-in from the mobile application is for: the one in the identity
/// token or, if that has none, the one stated beside it.
pub open spec fn mobile_address(
    stated_email: Option<Seq<char>>,
    events: Seq<SignInEvent<Seq<char>>>,
    email: Seq<char>,
) -> bool {
    ||| address_decoded(events, Some(email))
    ||| address_decoded(events, None) && stated_email == Some(email)
}

/// The user was found, or there was none and this one was created and committed.
pub open spec fn user_stands(events: Seq<SignInEvent<Seq<char>>>, user_id: Seq<char>) -> bool {
    ||| events.contains(SignInEvent::UserLookedUp(Ok(user_id)))
    ||| {
        &&& was_missing(events)
        &&& events.contains(SignInEvent::UserCreated(Ok(user_id)))
        &&& commit_confirmed(events)
    }
}

/// The transaction was committed.
pub open spec fn commit_confirmed(events: Seq<SignInEvent<Seq<char>>>) -> bool {
    exists|i: int|
        0 <= i < events.len() && (#[trigger] events[i] matches SignInEvent::Committed(Ok(_)))
}

/// The lookup found no such user.
pub open spec fn was_missing(events: Seq<SignInEvent<Seq<char>>>) -> bool {
    exists|i: int|
        0 <= i < events.len() && (#[trigger] events[i] matches SignInEvent::UserLookedUp(
            Err(AppError::NotFound(_)),
        ))
}

/// All that a grant holds came from Apple.
spec fn grant_came(events: Seq<SignInEvent<Seq<char>>>, grant: AppleGrant<Seq<char>>) -> bool {
    &&& tokens_came(events, grant.access_token, grant.refresh_token)
    &&& address_decoded(events, Some(grant.apple_email))
    &&& events.contains(SignInEvent::ExpiryComputed(grant.expires_at))
}

/// What a step of a browser's sign-in says of the events before it.
spec fn browser_step_holds(
    auth_token: Seq<char>,
    events: Seq<SignInEvent<Seq<char>>>,
    step: SignInStep,
) -> bool {
    let n = events.len() as int;
    match step.0 {
        SignIn::ExchangingCode { auth_token: held, .. } => n == 0 && held == auth_token
            && step.1 is ExchangeCode,
        SignIn::DecodingIdToken { auth_token: held, access_token, refresh_token, .. } => {
            &&& n == 1
            &&& held == auth_token
            &&& tokens_came(events, access_token, refresh_token)
            &&& step.1 is DecodeToken
        },
        SignIn::DecodingIdentity { .. } => false,
        SignIn::ComputingExpiry { auth_token: held, apple_email, access_token, refresh_token } => {
            &&& n == 2
            &&& held == auth_token
            &&& tokens_came(events, access_token, refresh_token)
            &&& address_decoded(events, Some(apple_email))
            &&& step.1 is ComputeExpiry
        },
        SignIn::ResolvingEmail(grant) => n == 3 && auth_token.len() > 0 && grant_came(
            events,
            grant,
        ) && step.1 == (SignInAction::ResolveEmail { auth_token }),
        SignIn::FindingUser { email, grant } => {
            &&& n <= 4
            &&& grant matches Some(g) && grant_came(events, g)
            &&& browser_address(auth_token, events, email)
            &&& step.1 == (SignInAction::FindUser { email })
        },
        SignIn::OpeningTransaction { email, grant } => {
            &&& n <= 5
            &&& grant matches Some(g) && grant_came(events, g)
            &&& browser_address(auth_token, events, email)
            &&& was_missing(events)
            &&& step.1 is OpenTransaction
        },
        SignIn::CreatingUser { email, grant } => {
            &&& n <= 6
            &&& grant matches Some(g) && grant_came(events, g)
            &&& browser_address(auth_token, events, email)
            &&& was_missing(events)
            &&& step.1 == (SignInAction::CreateUser { id: None, email, encrypted_password: None })
        },
        SignIn::Committing { email, grant, user_id } => {
            &&& n <= 7
            &&& grant matches Some(g) && grant_came(events, g)
            &&& browser_address(auth_token, events, email)
            &&& was_missing(events)
            &&& events.contains(SignInEvent::UserCreated(Ok(user_id)))
            &&& step.1 is Commit
        },
        SignIn::SavingSession { email, user_id } => {
            &&& n <= 8
            &&& browser_address(auth_token, events, email)
            &&& user_stands(events, user_id)
            &&& step.1 matches SignInAction::SaveSession(kept) && session_came(events, email, kept)
        },
        SignIn::IssuingToken { user_id } => {
            &&& n <= 9
            &&& step.1 matches SignInAction::IssueToken { email, user_id: id } && id == user_id
                && browser_address(auth_token, events, email)
            &&& user_stands(events, user_id)
            &&& events.last() matches SignInEvent::SessionSaved(Ok(_))
        },
        SignIn::Finished => n <= 10 && (step.1 is Fail || step.1 is Complete),
    }
}

/// A session that is kept is that of the sign-in: it belongs to the address that the
/// sign-in is for, and all else in it came from Apple.
pub open spec fn session_came(
    events: Seq<SignInEvent<Seq<char>>>,
    email: Seq<char>,
    kept: SignedIn<Seq<char>>,
) -> bool {
    &&& kept.email == email
    &&& kept.provider == OAuthProvider::Apple
    &&& tokens_came(events, kept.access_token, kept.refresh_token)
    &&& address_decoded(events, Some(kept.original_email))
    &&& events.contains(SignInEvent::ExpiryComputed(kept.expires_at))
}

/// What has come stays so while more comes.
proof fn lemma_what_came_stays(events: Seq<SignInEvent<Seq<char>>>)
    requires
        events.len() > 0,
    ensures
        forall|e: SignInEvent<Seq<char>>| #[trigger]
            events.drop_last().contains(e) ==> events.contains(e),
        events.contains(events.last()),
        commit_confirmed(events.drop_last()) ==> commit_confirmed(events),
        events.last() matches SignInEvent::Committed(Ok(_)) ==> commit_confirmed(events),
        was_missing(events.drop_last()) ==> was_missing(events),
        events.last() matches SignInEvent::UserLookedUp(Err(AppError::NotFound(_)))
            ==> was_missing(events),
        forall|email: Option<Seq<char>>| #[trigger]
            address_decoded(events.drop_last(), email) ==> address_decoded(events, email),
        forall|access: Seq<char>, refresh: Seq<char>| #[trigger]
            tokens_came(events.drop_last(), access, refresh) ==> tokens_came(
                events,
                access,
                refresh,
            ),
{
    assert forall|e: SignInEvent<Seq<char>>| #[trigger]
        events.drop_last().contains(e) implies events.contains(e) by {
        let i = choose|i: int|
            0 <= i < events.drop_last().len() && events.drop_last()[i] == e;
        assert(events[i] == e);
    }
    assert(events[events.len() - 1] == events.last());
    if commit_confirmed(events.drop_last()) {
        let i = choose|i: int|
            0 <= i < events.drop_last().len() && (#[trigger] events.drop_last()[i] matches
            SignInEvent::Committed(Ok(_)));
        assert(events[i] == events.drop_last()[i]);
    }
    if was_missing(events.drop_last()) {
        let i = choose|i: int|
            0 <= i < events.drop_last().len() && (#[trigger] events.drop_last()[i] matches
            SignInEvent::UserLookedUp(Err(AppError::NotFound(_))));
        assert(events[i] == events.drop_last()[i]);
    }
}

/// What each step of a browser's sign-in says of the events before it.
proof fn lemma_browser_step(
    code: Seq<char>,
    auth_token: Option<Seq<char>>,
    client_id: Option<Seq<char>>,
    events: Seq<SignInEvent<Seq<char>>>,
)
    requires
        sign_in_events_accepted(browser_begins(code, auth_token, client_id), events),
    ensures
        browser_step_holds(
            crate::text::or_empty(auth_token),
            events,
            sign_in_after(browser_begins(code, auth_token, client_id), events),
        ),
    decreases events.len(),
{
    if events.len() > 0 {
        lemma_browser_step(code, auth_token, client_id, events.drop_last());
        lemma_what_came_stays(events);
    }
}

/// What a step of a sign-in from the mobile application says of the events before it.
spec fn mobile_step_holds(
    stated_email: Option<Seq<char>>,
    events: Seq<SignInEvent<Seq<char>>>,
    step: SignInStep,
) -> bool {
    let n = events.len() as int;
    match step.0 {
        SignIn::DecodingIdentity { stated_email: held } => n == 0 && held == stated_email
            && step.1 is DecodeToken,
        SignIn::FindingUser { email, grant } => {
            &&& n == 1
            &&& grant is None
            &&& mobile_address(stated_email, events, email)
            &&& step.1 == (SignInAction::FindUser { email })
        },
        SignIn::OpeningTransaction { email, grant } => {
            &&& n == 2
            &&& grant is None
            &&& mobile_address(stated_email, events, email)
            &&& was_missing(events)
            &&& step.1 is OpenTransaction
        },
        SignIn::CreatingUser { email, grant } => {
            &&& n == 3
            &&& grant is None
            &&& mobile_address(stated_email, events, email)
            &&& was_missing(events)
            &&& step.1 == (SignInAction::CreateUser { id: None, email, encrypted_password: None })
        },
        SignIn::Committing { email, grant, user_id } => {
            &&& n == 4
            &&& grant is None
            &&& mobile_address(stated_email, events, email)
            &&& was_missing(events)
            &&& events.contains(SignInEvent::UserCreated(Ok(user_id)))
            &&& step.1 is Commit
        },
        SignIn::IssuingToken { user_id } => {
            &&& n <= 5
            &&& step.1 matches SignInAction::IssueToken { email, user_id: id } && id == user_id
                && mobile_address(stated_email, events, email)
            &&& user_stands(events, user_id)
        },
        SignIn::Finished => n <= 6 && (step.1 is Fail || step.1 is Complete),
        _ => false,
    }
}

/// What each step of a sign-in from the mobile application says of the events before it.
proof fn lemma_mobile_step(
    identity_token: Seq<char>,
    stated_email: Option<Seq<char>>,
    events: Seq<SignInEvent<Seq<char>>>,
)
    requires
        sign_in_events_accepted(mobile_begins(identity_token, stated_email), events),
    ensures
        mobile_step_holds(
            stated_email,
            events,
            sign_in_after(mobile_begins(identity_token, stated_email), events),
        ),
    decreases events.len(),
{
    if events.len() > 0 {
        lemma_mobile_step(identity_token, stated_email, events.drop_last());
        lemma_what_came_stays(events);
    }
}

/// A browser gets a token only after the session with Apple was stored. The session is
/// that of the sign-in, and the token is for the address that the sign-in is for and for
/// a user who was found, or created because there was none.
pub proof fn law_browser_token_follows_the_session(
    code: Seq<char>,
    auth_token: Option<Seq<char>>,
    client_id: Option<Seq<char>>,
    events: Seq<SignInEvent<Seq<char>>>,
)
    requires
        sign_in_events_accepted(browser_begins(code, auth_token, client_id), events),
        sign_in_after(browser_begins(code, auth_token, client_id), events).1 is IssueToken,
    ensures
        ({
            let begun = browser_begins(code, auth_token, client_id);
            let issue = sign_in_after(begun, events).1;
            &&& events.last() matches SignInEvent::SessionSaved(Ok(_))
            &&& sign_in_after(begun, events.drop_last()).1 matches SignInAction::SaveSession(kept)
                && session_came(events.drop_last(), issue->IssueToken_email, kept)
            &&& browser_address(crate::text::or_empty(auth_token), events, issue->IssueToken_email)
            &&& user_stands(events, issue->IssueToken_user_id)
        }),
{
    lemma_browser_step(code, auth_token, client_id, events);
    lemma_browser_step(code, auth_token, client_id, events.drop_last());
}

/// The mobile application gets a token only for the address in the identity token or, if
/// that has none, for the one stated beside it, and for a user who was found, or created
/// because there was none.
pub proof fn law_mobile_token_is_for_the_right_user(
    identity_token: Seq<char>,
    stated_email: Option<Seq<char>>,
    events: Seq<SignInEvent<Seq<char>>>,
)
    requires
        sign_in_events_accepted(mobile_begins(identity_token, stated_email), events),
    ensures
        sign_in_after(mobile_begins(identity_token, stated_email), events).1 matches
            SignInAction::IssueToken { email, user_id } ==> mobile_address(
            stated_email,
            events,
            email,
        ) && user_stands(events, user_id),
{
    lemma_mobile_step(identity_token, stated_email, events);
}

/// A sign-in from the mobile application trades no code and keeps no session.
pub proof fn law_mobile_keeps_no_session(
    identity_token: Seq<char>,
    stated_email: Option<Seq<char>>,
    events: Seq<SignInEvent<Seq<char>>>,
)
    requires
        sign_in_events_accepted(mobile_begins(identity_token, stated_email), events),
    ensures
        !(sign_in_after(mobile_begins(identity_token, stated_email), events).1 is SaveSession),
        !(sign_in_after(mobile_begins(identity_token, stated_email), events).1 is ExchangeCode),
{
    lemma_mobile_step(identity_token, stated_email, events);
}

/// A sign-in as it begins, from a browser or from the mobile application.
pub open spec fn fresh_sign_in(begun: SignInStep) -> bool {
    ||| exists|code: Seq<char>, auth_token: Option<Seq<char>>, client_id: Option<Seq<char>>|
        begun == #[trigger] browser_begins(code, auth_token, client_id)
    ||| exists|identity_token: Seq<char>, stated_email: Option<Seq<char>>|
        begun == #[trigger] mobile_begins(identity_token, stated_email)
}

/// What holds of every sign-in, wherever it came from.
proof fn lemma_any_step(begun: SignInStep, events: Seq<SignInEvent<Seq<char>>>)
    requires
        fresh_sign_in(begun),
        sign_in_events_accepted(begun, events),
    ensures
        events.len() <= 10,
        sign_in_after(begun, events).0 is Finished <==> (sign_in_after(begun, events).1 is Fail
            || sign_in_after(begun, events).1 is Complete),
        sign_in_after(begun, events).1 is CreateUser ==> was_missing(events),
        sign_in_after(begun, events).0 is OpeningTransaction ==> was_missing(events),
        sign_in_after(begun, events).0 matches SignIn::IssuingToken { user_id } ==> (
        sign_in_after(begun, events).1 matches SignInAction::IssueToken { user_id: id, .. } && id
            == user_id),
        sign_in_after(begun, events).0 matches SignIn::FindingUser { email, .. } ==> sign_in_after(
            begun,
            events,
        ).1 == (SignInAction::FindUser { email }),
{
    if exists|code: Seq<char>, auth_token: Option<Seq<char>>, client_id: Option<Seq<char>>|
        begun == #[trigger] browser_begins(code, auth_token, client_id) {
        let (code, auth_token, client_id) = choose|
            code: Seq<char>,
            auth_token: Option<Seq<char>>,
            client_id: Option<Seq<char>>,
        | begun == #[trigger] browser_begins(code, auth_token, client_id);
        lemma_browser_step(code, auth_token, client_id, events);
    } else {
        let (identity_token, stated_email) = choose|
            identity_token: Seq<char>,
            stated_email: Option<Seq<char>>,
        | begun == #[trigger] mobile_begins(identity_token, stated_email);
        lemma_mobile_step(identity_token, stated_email, events);
    }
}

/// A sign-in comes to an end after at most ten events. It has ended exactly when the user
/// is signed in or the sign-in failed, and then waits for nothing more.
pub proof fn law_sign_in_ends(begun: SignInStep, events: Seq<SignInEvent<Seq<char>>>)
    requires
        fresh_sign_in(begun),
        sign_in_events_accepted(begun, events),
    ensures
        events.len() <= 10,
        sign_in_after(begun, events).0 is Finished <==> (sign_in_after(begun, events).1 is Fail
            || sign_in_after(begun, events).1 is Complete),
        sign_in_after(begun, events).0 is Finished ==> forall|event: SignInEvent<Seq<char>>|
            !#[trigger] sign_in_accepts(sign_in_after(begun, events).0, event),
{
    lemma_any_step(begun, events);
}

/// A user is created only where the lookup found none with the address, and without an
/// identifier or a password of their own.
pub proof fn law_users_are_created_only_when_missing(
    begun: SignInStep,
    events: Seq<SignInEvent<Seq<char>>>,
)
    requires
        fresh_sign_in(begun),
        sign_in_events_accepted(begun, events),
    ensures
        sign_in_after(begun, events).1 matches SignInAction::CreateUser {
            id,
            email,
            encrypted_password,
        } ==> {
            let n = events.len() as int;
            &&& id is None && encrypted_password is None
            &&& n >= 2
            &&& events[n - 1] matches SignInEvent::TransactionOpened(Ok(_))
            &&& events[n - 2] matches SignInEvent::UserLookedUp(Err(AppError::NotFound(_)))
            &&& sign_in_after(begun, events.take(n - 2)).1 == (SignInAction::FindUser { email })
        },
{
    lemma_any_step(begun, events);
    if sign_in_after(begun, events).1 is CreateUser {
        reveal_with_fuel(sign_in_events_accepted, 3);
        reveal_with_fuel(sign_in_after, 3);
        let opened = events.drop_last();
        let sought = opened.drop_last();
        lemma_any_step(begun, opened);
        lemma_any_step(begun, sought);
        assert(sought =~= events.take(events.len() - 2));
        assert(opened.last() == events[events.len() - 2]);
    }
}

/// A user is signed in with the token that was issued last, and what the cache holds of
/// that user's channels is dropped.
pub proof fn law_sign_in_completes_with_the_issued_token(
    begun: SignInStep,
    events: Seq<SignInEvent<Seq<char>>>,
)
    requires
        fresh_sign_in(begun),
        sign_in_events_accepted(begun, events),
    ensures
        sign_in_after(begun, events).1 matches SignInAction::Complete { token, cache_pattern } ==> {
            &&& events.len() > 0
            &&& events.last() == SignInEvent::TokenIssued(Ok::<_, AppError<Seq<char>>>(token))
            &&& sign_in_after(begun, events.drop_last()).1 matches SignInAction::IssueToken {
                user_id,
                ..
            } && cache_pattern == channels_pattern(user_id)
        },
{
    lemma_any_step(begun, events);
    if sign_in_after(begun, events).1 is Complete && events.len() > 0 {
        lemma_any_step(begun, events.drop_last());
    }
}

/// What was to be done failed. That the user is missing is no failure.
pub open spec fn event_failed(event: SignInEvent<Seq<char>>) -> bool {
    match event {
        SignInEvent::CodeExchanged(r) => r is Err,
        SignInEvent::TokenDecoded(r) => r is Err,
        SignInEvent::ExpiryComputed(_) => false,
        SignInEvent::EmailResolved(r) => r is Err,
        SignInEvent::UserLookedUp(r) => r matches Err(e) && !(e is NotFound),
        SignInEvent::TransactionOpened(r) => r is Err,
        SignInEvent::UserCreated(r) => r is Err,
        SignInEvent::Committed(r) => r is Err,
        SignInEvent::SessionSaved(r) => r is Err,
        SignInEvent::TokenIssued(r) => r is Err,
    }
}

/// Whatever fails ends the sign-in with an error; and without a failure a sign-in ends
/// with an error only where Apple gave no identity token or no address is known.
pub proof fn law_failures_end_a_sign_in(
    state: SignIn<Seq<char>>,
    event: SignInEvent<Seq<char>>,
)
    requires
        sign_in_accepts(state, event),
    ensures
        event_failed(event) ==> sign_in_goes_on(state, event).0 is Finished && sign_in_goes_on(
            state,
            event,
        ).1 is Fail,
        sign_in_goes_on(state, event).1 is Fail ==> {
            ||| event_failed(event)
            ||| event matches SignInEvent::CodeExchanged(Ok(tokens)) && tokens.id_token is None
            ||| event matches SignInEvent::TokenDecoded(Ok(claims)) && claims.email is None && (
            state matches SignIn::DecodingIdentity { stated_email } ==> stated_email is None)
        },
{
}

/// How a sign-in begins: a browser's with its code, the token in its cookie and the
/// application's identifier as audience, each of the latter empty where it is missing; the
/// mobile application's with its identity token, for any audience.
pub proof fn law_sign_in_begins(
    code: Seq<char>,
    auth_token: Seq<char>,
    client_id: Seq<char>,
    identity_token: Seq<char>,
    stated_email: Option<Seq<char>>,
)
    ensures
        browser_begins(code, Some(auth_token), Some(client_id)) == (
            SignIn::ExchangingCode { auth_token, audience: client_id },
            SignInAction::ExchangeCode { code },
        ),
        browser_begins(code, None, Some(client_id)) == (
            SignIn::ExchangingCode { auth_token: Seq::<char>::empty(), audience: client_id },
            SignInAction::ExchangeCode { code },
        ),
        browser_begins(code, Some(auth_token), None) == (
            SignIn::ExchangingCode { auth_token, audience: Seq::empty() },
            SignInAction::ExchangeCode { code },
        ),
        browser_begins(code, None, None) == (
            SignIn::ExchangingCode { auth_token: Seq::<char>::empty(), audience: Seq::empty() },
            SignInAction::ExchangeCode { code },
        ),
        mobile_begins(identity_token, stated_email) == (
            SignIn::DecodingIdentity { stated_email },
            SignInAction::DecodeToken { token: identity_token, audience: None },
        ),
{
}

/// How a browser's sign-in comes to an address where nothing fails. Apple's tokens are
/// kept and the identity token is decoded for the audience; a lifetime below zero wraps
/// around. Nobody being signed in, the address is Apple's, and else the signed-in user's.
pub proof fn law_browser_steps(
    auth_token: Seq<char>,
    audience: Seq<char>,
    tokens: AppleTokenResponse<Seq<char>>,
    claims: AppleClaims<Seq<char>>,
    lifetime: u64,
    expires_at: i64,
    apple_email: Seq<char>,
    refresh_token: Seq<char>,
    email: Seq<char>,
)
    ensures
        tokens.id_token is Some ==> {
            let step = sign_in_goes_on(
                SignIn::ExchangingCode { auth_token, audience },
                SignInEvent::CodeExchanged(Ok(tokens)),
            );
            &&& step.1 == (SignInAction::DecodeToken {
                token: tokens.id_token->0,
                audience: Some(audience),
            })
            &&& step.0 matches SignIn::DecodingIdToken {
                auth_token: held,
                access_token,
                refresh_token: kept,
                lifetime: seconds,
            } && held == auth_token && access_token == tokens.access_token && (
            tokens.refresh_token matches Some(r) ==> kept == r) && (tokens.refresh_token is None
                ==> kept.len() == 0) && seconds as int == (if tokens.expires_in >= 0 {
                tokens.expires_in as int
            } else {
                tokens.expires_in + 0x1_0000_0000_0000_0000
            })
        },
        claims.email is Some ==> sign_in_goes_on(
            SignIn::DecodingIdToken {
                auth_token,
                access_token: tokens.access_token,
                refresh_token,
                lifetime,
            },
            SignInEvent::TokenDecoded(Ok(claims)),
        ) == (
            SignIn::ComputingExpiry {
                auth_token,
                apple_email: claims.email->0,
                access_token: tokens.access_token,
                refresh_token,
            },
            SignInAction::<Seq<char>>::ComputeExpiry { lifetime },
        ),
        auth_token.len() == 0 ==> sign_in_goes_on(
            SignIn::ComputingExpiry {
                auth_token,
                apple_email,
                access_token: tokens.access_token,
                refresh_token,
            },
            SignInEvent::ExpiryComputed(expires_at),
        ) == (
            SignIn::FindingUser {
                email: apple_email,
                grant: Some(
                    AppleGrant {
                        apple_email,
                        access_token: tokens.access_token,
                        refresh_token,
                        expires_at,
                    },
                ),
            },
            SignInAction::FindUser { email: apple_email },
        ),
        auth_token.len() > 0 ==> sign_in_goes_on(
            SignIn::ComputingExpiry {
                auth_token,
                apple_email,
                access_token: tokens.access_token,
                refresh_token,
            },
            SignInEvent::ExpiryComputed(expires_at),
        ) == (
            SignIn::ResolvingEmail(
                AppleGrant {
                    apple_email,
                    access_token: tokens.access_token,
                    refresh_token,
                    expires_at,
                },
            ),
            SignInAction::ResolveEmail { auth_token },
        ),
        forall|grant: AppleGrant<Seq<char>>| #[trigger]
            sign_in_goes_on(
                SignIn::ResolvingEmail(grant),
                SignInEvent::EmailResolved(Ok(email)),
            ) == (
                SignIn::FindingUser { email, grant: Some(grant) },
                SignInAction::FindUser { email },
            ),
{
}

/// How a sign-in from the mobile application comes to an address: the one in the token
/// comes before the one stated beside it.
pub proof fn law_mobile_steps(
    stated_email: Option<Seq<char>>,
    sub: Seq<char>,
    email: Seq<char>,
)
    ensures
        sign_in_goes_on(
            SignIn::DecodingIdentity { stated_email },
            SignInEvent::TokenDecoded(Ok(AppleClaims { sub, email: Some(email) })),
        ) == (SignIn::FindingUser { email, grant: None }, SignInAction::FindUser { email }),
        sign_in_goes_on(
            SignIn::DecodingIdentity { stated_email: Some(email) },
            SignInEvent::TokenDecoded(Ok(AppleClaims { sub, email: None })),
        ) == (SignIn::FindingUser { email, grant: None }, SignInAction::FindUser { email }),
{
}

/// How a sign-in goes on from an address to a token where nothing fails: a user who is
/// missing is created in a transaction; with a grant from Apple the session is stored
/// before the token is issued, and without one the token is issued at once.
pub proof fn law_user_steps(
    email: Seq<char>,
    user_id: Seq<char>,
    grant: Option<AppleGrant<Seq<char>>>,
    g: AppleGrant<Seq<char>>,
    m: Seq<char>,
    token: Seq<char>,
)
    ensures
        sign_in_goes_on(
            SignIn::FindingUser { email, grant },
            SignInEvent::UserLookedUp(Err(AppError::NotFound(m))),
        ) == (
            SignIn::OpeningTransaction { email, grant },
            SignInAction::<Seq<char>>::OpenTransaction,
        ),
        sign_in_goes_on(
            SignIn::OpeningTransaction { email, grant },
            SignInEvent::TransactionOpened(Ok(())),
        ) == (
            SignIn::CreatingUser { email, grant },
            SignInAction::CreateUser { id: None, email, encrypted_password: None },
        ),
        sign_in_goes_on(
            SignIn::CreatingUser { email, grant },
            SignInEvent::UserCreated(Ok(user_id)),
        ) == (SignIn::Committing { email, grant, user_id }, SignInAction::<Seq<char>>::Commit),
        sign_in_goes_on(
            SignIn::FindingUser { email, grant: None },
            SignInEvent::UserLookedUp(Ok(user_id)),
        ) == (SignIn::IssuingToken { user_id }, SignInAction::IssueToken { email, user_id }),
        sign_in_goes_on(
            SignIn::Committing { email, grant: None, user_id },
            SignInEvent::Committed(Ok(())),
        ) == (SignIn::IssuingToken { user_id }, SignInAction::IssueToken { email, user_id }),
        sign_in_goes_on(
            SignIn::FindingUser { email, grant: Some(g) },
            SignInEvent::UserLookedUp(Ok(user_id)),
        ) == (
            SignIn::SavingSession { email, user_id },
            SignInAction::SaveSession(
                SignedIn {
                    email,
                    access_token: g.access_token,
                    expires_at: g.expires_at,
                    refresh_token: g.refresh_token,
                    provider: OAuthProvider::Apple,
                    original_email: g.apple_email,
                },
            ),
        ),
        sign_in_goes_on(
            SignIn::Committing { email, grant: Some(g), user_id },
            SignInEvent::Committed(Ok(())),
        ) == (
            SignIn::SavingSession { email, user_id },
            SignInAction::SaveSession(
                SignedIn {
                    email,
                    access_token: g.access_token,
                    expires_at: g.expires_at,
                    refresh_token: g.refresh_token,
                    provider: OAuthProvider::Apple,
                    original_email: g.apple_email,
                },
            ),
        ),
        sign_in_goes_on(
            SignIn::SavingSession { email, user_id },
            SignInEvent::SessionSaved(Ok(())),
        ) == (SignIn::IssuingToken { user_id }, SignInAction::IssueToken { email, user_id }),
        sign_in_goes_on(
            SignIn::IssuingToken { user_id },
            SignInEvent::TokenIssued(Ok(token)),
        ) == (
            SignIn::<Seq<char>>::Finished,
            SignInAction::Complete {
                token,
                cache_pattern: "user:"@ + user_id + ":channels:*"@,
            },
        ),
{
}

/// What each failure of a sign-in is answered with.
pub proof fn law_sign_in_failures(
    auth_token: Seq<char>,
    audience: Seq<char>,
    tokens: AppleTokenResponse<Seq<char>>,
    access_token: Seq<char>,
    refresh_token: Seq<char>,
    lifetime: u64,
    sub: Seq<char>,
    stated_email: Option<Seq<char>>,
    e: Seq<char>,
    error: AppError<Seq<char>>,
)
    ensures
        sign_in_goes_on(
            SignIn::ExchangingCode { auth_token, audience },
            SignInEvent::CodeExchanged(Err(error)),
        ) == (
            SignIn::<Seq<char>>::Finished,
            SignInAction::Fail(
                AppError::ExternalService(
                    "Failed to exchange authorization code: "@ + error.text(),
                ),
            ),
        ),
        tokens.id_token is None ==> sign_in_goes_on(
            SignIn::ExchangingCode { auth_token, audience },
            SignInEvent::CodeExchanged(Ok(tokens)),
        ) == (
            SignIn::<Seq<char>>::Finished,
            SignInAction::Fail(AppError::Authentication("No id_token received from Apple"@)),
        ),
        sign_in_goes_on(
            SignIn::DecodingIdToken { auth_token, access_token, refresh_token, lifetime },
            SignInEvent::TokenDecoded(Err(e)),
        ) == (
            SignIn::<Seq<char>>::Finished,
            SignInAction::Fail(AppError::Authentication("Failed to decode Apple id_token"@)),
        ),
        sign_in_goes_on(
            SignIn::DecodingIdToken { auth_token, access_token, refresh_token, lifetime },
            SignInEvent::TokenDecoded(Ok(AppleClaims { sub, email: None })),
        ) == (
            SignIn::<Seq<char>>::Finished,
            SignInAction::Fail(AppError::Authentication("No email in Apple id_token"@)),
        ),
        sign_in_goes_on(
            SignIn::DecodingIdentity { stated_email },
            SignInEvent::TokenDecoded(Err(e)),
        ) == (
            SignIn::<Seq<char>>::Finished,
            SignInAction::Fail(
                AppError::Authentication("Failed to decode Apple identity_token: "@ + e),
            ),
        ),
        sign_in_goes_on(
            SignIn::DecodingIdentity { stated_email: None },
            SignInEvent::TokenDecoded(Ok(AppleClaims { sub, email: None })),
        ) == (
            SignIn::<Seq<char>>::Finished,
            SignInAction::Fail(
                AppError::Authentication("No email in Apple identity_token or payload"@),
            ),
        ),
{
}

/// What each failure on the way from an address to a token is answered with: the error
/// itself, or what was being done when the database failed.
pub proof fn law_user_failures(
    email: Seq<char>,
    user_id: Seq<char>,
    grant: Option<AppleGrant<Seq<char>>>,
    g: AppleGrant<Seq<char>>,
    e: Seq<char>,
    error: AppError<Seq<char>>,
)
    ensures
        sign_in_goes_on(SignIn::ResolvingEmail(g), SignInEvent::EmailResolved(Err(error))) == (
            SignIn::<Seq<char>>::Finished,
            SignInAction::Fail(error),
        ),
        !(error is NotFound) ==> sign_in_goes_on(
            SignIn::FindingUser { email, grant },
            SignInEvent::UserLookedUp(Err(error)),
        ) == (SignIn::<Seq<char>>::Finished, SignInAction::Fail(error)),
        sign_in_goes_on(
            SignIn::OpeningTransaction { email, grant },
            SignInEvent::TransactionOpened(Err(e)),
        ) == (
            SignIn::<Seq<char>>::Finished,
            SignInAction::Fail(
                AppError::Database { message: "Failed to start transaction"@, cause: Some(e) },
            ),
        ),
        sign_in_goes_on(
            SignIn::CreatingUser { email, grant },
            SignInEvent::UserCreated(Err(error)),
        ) == (SignIn::<Seq<char>>::Finished, SignInAction::Fail(error)),
        sign_in_goes_on(
            SignIn::Committing { email, grant, user_id },
            SignInEvent::Committed(Err(e)),
        ) == (
            SignIn::<Seq<char>>::Finished,
            SignInAction::Fail(
                AppError::Database { message: "Failed to commit transaction"@, cause: Some(e) },
            ),
        ),
        sign_in_goes_on(
            SignIn::SavingSession { email, user_id },
            SignInEvent::SessionSaved(Err(error)),
        ) == (SignIn::<Seq<char>>::Finished, SignInAction::Fail(error)),
        sign_in_goes_on(SignIn::IssuingToken { user_id }, SignInEvent::TokenIssued(Err(error)))
            == (SignIn::<Seq<char>>::Finished, SignInAction::Fail(error)),
{
}

/// Each state waits for its own event, whatever that brings, and for no other.
pub proof fn law_sign_in_waits_for_one_event(
    state: SignIn<Seq<char>>,
    event: SignInEvent<Seq<char>>,
)
    ensures
        sign_in_accepts(state, event) <==> {
            ||| state is ExchangingCode && event is CodeExchanged
            ||| state is DecodingIdToken && event is TokenDecoded
            ||| state is DecodingIdentity && event is TokenDecoded
            ||| state is ComputingExpiry && event is ExpiryComputed
            ||| state is ResolvingEmail && event is EmailResolved
            ||| state is FindingUser && event is UserLookedUp
            ||| state is OpeningTransaction && event is TransactionOpened
            ||| state is CreatingUser && event is UserCreated
            ||| state is Committing && event is Committed
            ||| state is SavingSession && event is SessionSaved
            ||| state is IssuingToken && event is TokenIssued
        },
{
}

/// The models of a grant and of the states hold each value in its place.
pub proof fn law_sign_in_states_keep_their_values(
    grant: AppleGrant,
    some_grant: Option<AppleGrant>,
    a: String,
    b: String,
    c: String,
    d: String,
    lifetime: u64,
    stated_email: Option<String>,
)
    ensures
        grant@.apple_email == grant.apple_email@,
        grant@.access_token == grant.access_token@,
        grant@.refresh_token == grant.refresh_token@,
        grant@.expires_at == grant.expires_at,
        grant_view(Some(grant)) == Some(grant@),
        grant_view(None) is None,
        (SignIn::ExchangingCode { auth_token: a, audience: b })@ == (SignIn::ExchangingCode {
            auth_token: a@,
            audience: b@,
        }),
        (SignIn::DecodingIdToken {
            auth_token: a,
            access_token: b,
            refresh_token: c,
            lifetime,
        })@ == (SignIn::DecodingIdToken {
            auth_token: a@,
            access_token: b@,
            refresh_token: c@,
            lifetime,
        }),
        (SignIn::DecodingIdentity { stated_email })@ == (SignIn::DecodingIdentity {
            stated_email: stated_email.deep_view(),
        }),
        (SignIn::ComputingExpiry {
            auth_token: a,
            apple_email: b,
            access_token: c,
            refresh_token: d,
        })@ == (SignIn::ComputingExpiry {
            auth_token: a@,
            apple_email: b@,
            access_token: c@,
            refresh_token: d@,
        }),
        SignIn::ResolvingEmail(grant)@ == SignIn::ResolvingEmail(grant@),
        (SignIn::FindingUser { email: a, grant: some_grant })@ == (SignIn::FindingUser {
            email: a@,
            grant: grant_view(some_grant),
        }),
        (SignIn::OpeningTransaction { email: a, grant: some_grant })@ == (
        SignIn::OpeningTransaction { email: a@, grant: grant_view(some_grant) }),
        (SignIn::CreatingUser { email: a, grant: some_grant })@ == (SignIn::CreatingUser {
            email: a@,
            grant: grant_view(some_grant),
        }),
        (SignIn::Committing { email: a, grant: some_grant, user_id: b })@ == (SignIn::Committing {
            email: a@,
            grant: grant_view(some_grant),
            user_id: b@,
        }),
        (SignIn::SavingSession { email: a, user_id: b })@ == (SignIn::SavingSession {
            email: a@,
            user_id: b@,
        }),
        (SignIn::IssuingToken { user_id: a })@ == (SignIn::IssuingToken { user_id: a@ }),
        SignIn::<String>::Finished@ == SignIn::<Seq<char>>::Finished,
{
}

/// The models of actions hold what these hold.
pub proof fn law_sign_in_actions_keep_their_values(
    a: String,
    b: String,
    optional: Option<String>,
    other: Option<String>,
    lifetime: u64,
    sign_in: SignedIn,
    e: AppError,
)
    ensures
        (SignInAction::ExchangeCode { code: a })@ == (SignInAction::ExchangeCode { code: a@ }),
        (SignInAction::DecodeToken { token: a, audience: optional })@ == (
        SignInAction::DecodeToken { token: a@, audience: optional.deep_view() }),
        (SignInAction::<String>::ComputeExpiry { lifetime })@ == (
        SignInAction::<Seq<char>>::ComputeExpiry { lifetime }),
        (SignInAction::ResolveEmail { auth_token: a })@ == (SignInAction::ResolveEmail {
            auth_token: a@,
        }),
        (SignInAction::FindUser { email: a })@ == (SignInAction::FindUser { email: a@ }),
        SignInAction::<String>::OpenTransaction@ == SignInAction::<Seq<char>>::OpenTransaction,
        (SignInAction::CreateUser { id: optional, email: a, encrypted_password: other })@ == (
        SignInAction::CreateUser {
            id: optional.deep_view(),
            email: a@,
            encrypted_password: other.deep_view(),
        }),
        SignInAction::<String>::Commit@ == SignInAction::<Seq<char>>::Commit,
        SignInAction::SaveSession(sign_in)@ == SignInAction::SaveSession(sign_in@),
        (SignInAction::IssueToken { email: a, user_id: b })@ == (SignInAction::IssueToken {
            email: a@,
            user_id: b@,
        }),
        (SignInAction::Complete { token: a, cache_pattern: b })@ == (SignInAction::Complete {
            token: a@,
            cache_pattern: b@,
        }),
        SignInAction::Fail(e)@ == SignInAction::Fail(e@),
{
}

/// The models of events hold what these hold.
pub proof fn law_sign_in_events_keep_their_values(
    tokens: AppleTokenResponse,
    claims: AppleClaims,
    seconds: i64,
    text: String,
    e: AppError,
)
    ensures
        SignInEvent::<String>::CodeExchanged(Ok(tokens))@ == SignInEvent::<
            Seq<char>,
        >::CodeExchanged(Ok(tokens@)),
        SignInEvent::<String>::CodeExchanged(Err(e))@ == SignInEvent::<Seq<char>>::CodeExchanged(
            Err(e@),
        ),
        SignInEvent::<String>::TokenDecoded(Ok(claims))@ == SignInEvent::<Seq<char>>::TokenDecoded(
            Ok(claims@),
        ),
        SignInEvent::<String>::TokenDecoded(Err(text))@ == SignInEvent::<Seq<char>>::TokenDecoded(
            Err(text@),
        ),
        SignInEvent::<String>::ExpiryComputed(seconds)@ == SignInEvent::<
            Seq<char>,
        >::ExpiryComputed(seconds),
        SignInEvent::<String>::EmailResolved(Ok(text))@ == SignInEvent::<Seq<char>>::EmailResolved(
            Ok(text@),
        ),
        SignInEvent::<String>::EmailResolved(Err(e))@ == SignInEvent::<Seq<char>>::EmailResolved(
            Err(e@),
        ),
        SignInEvent::<String>::UserLookedUp(Ok(text))@ == SignInEvent::<Seq<char>>::UserLookedUp(
            Ok(text@),
        ),
        SignInEvent::<String>::UserLookedUp(Err(e))@ == SignInEvent::<Seq<char>>::UserLookedUp(
            Err(e@),
        ),
        SignInEvent::<String>::TransactionOpened(Ok(()))@ matches SignInEvent::TransactionOpened(
            Ok(_),
        ),
        SignInEvent::<String>::TransactionOpened(Err(text))@ == SignInEvent::<
            Seq<char>,
        >::TransactionOpened(Err(text@)),
        SignInEvent::<String>::UserCreated(Ok(text))@ == SignInEvent::<Seq<char>>::UserCreated(
            Ok(text@),
        ),
        SignInEvent::<String>::UserCreated(Err(e))@ == SignInEvent::<Seq<char>>::UserCreated(
            Err(e@),
        ),
        SignInEvent::<String>::Committed(Ok(()))@ matches SignInEvent::Committed(Ok(_)),
        SignInEvent::<String>::Committed(Err(text))@ == SignInEvent::<Seq<char>>::Committed(
            Err(text@),
        ),
        SignInEvent::<String>::SessionSaved(Ok(()))@ matches SignInEvent::SessionSaved(Ok(_)),
        SignInEvent::<String>::SessionSaved(Err(e))@ == SignInEvent::<Seq<char>>::SessionSaved(
            Err(e@),
        ),
        SignInEvent::<String>::TokenIssued(Ok(text))@ == SignInEvent::<Seq<char>>::TokenIssued(
            Ok(text@),
        ),
        SignInEvent::<String>::TokenIssued(Err(e))@ == SignInEvent::<Seq<char>>::TokenIssued(
            Err(e@),
        ),
{
}

} // verus!
