//! OAuth providers: their clients, the Apple client secret and the sign-in URLs.

use vstd::prelude::*;
use vstd::string::*;

use crate::errors::AppError;
use crate::outside::{
    authorize, check_ec_pem, decode_base64, parses_as_url, random_csrf_token, sign_es256, unix_now,
};
use crate::text::copied;

verus! {

/// The services that a user can sign in with.
#[derive(Debug, Clone, Copy, PartialEq, Eq, Structural)]
pub enum OAuthProvider {
    Google,
    Discord,
    Apple,
}

/// The name by which a provider is stored.
pub open spec fn provider_name(provider: OAuthProvider) -> Seq<char> {
    match provider {
        OAuthProvider::Google => "google"@,
        OAuthProvider::Discord => "discord"@,
        OAuthProvider::Apple => "apple"@,
    }
}

impl OAuthProvider {
    /// The name by which the provider is stored.
    pub fn as_str(&self) -> (name: &'static str)
        ensures
            name@ == provider_name(*self),
    {
        match self {
            OAuthProvider::Google => "google",
            OAuthProvider::Discord => "discord",
            OAuthProvider::Apple => "apple",
        }
    }
}

/// No two providers share a name, so a session is stored under one provider only.
pub proof fn law_provider_names_differ(a: OAuthProvider, b: OAuthProvider)
    requires
        a != b,
    ensures
        provider_name(a) != provider_name(b),
{
    reveal_strlit("google");
    reveal_strlit("discord");
    reveal_strlit("apple");
    assert("google"@.len() == 6 && "discord"@.len() == 7 && "apple"@.len() == 5);
}

/// What a provider sends to the callback.
#[derive(Debug)]
pub struct AuthRequest<S = String> {
    pub code: S,
    pub state: Option<S>,
}

/// What is known of a user from the provider.
#[derive(Debug)]
pub struct UserProfile<S = String> {
    pub email: S,
    pub display_name: Option<S>,
    pub avatar_url: Option<S>,
}

impl View for UserProfile {
    type V = UserProfile<Seq<char>>;

    open spec fn view(&self) -> UserProfile<Seq<char>> {
        UserProfile {
            email: self.email@,
            display_name: self.display_name.deep_view(),
            avatar_url: self.avatar_url.deep_view(),
        }
    }
}

impl Clone for UserProfile {
    fn clone(&self) -> (copy: UserProfile)
        ensures
            copy@ == self@,
    {
        UserProfile {
            email: self.email.clone(),
            display_name: self.display_name.clone(),
            avatar_url: self.avatar_url.clone(),
        }
    }
}

/// Apple's answer to an authorization code.
#[derive(Debug)]
pub struct AppleTokenResponse<S = String> {
    pub access_token: S,
    pub token_type: S,
    pub expires_in: i64,
    pub refresh_token: Option<S>,
    pub id_token: Option<S>,
}

impl View for AppleTokenResponse {
    type V = AppleTokenResponse<Seq<char>>;

    open spec fn view(&self) -> AppleTokenResponse<Seq<char>> {
        AppleTokenResponse {
            access_token: self.access_token@,
            token_type: self.token_type@,
            expires_in: self.expires_in,
            refresh_token: self.refresh_token.deep_view(),
            id_token: self.id_token.deep_view(),
        }
    }
}

/// An OAuth client: how this application is known to a provider, and where the
/// provider is reached. The three URLs are valid.
#[derive(Debug)]
pub struct OAuthClient {
    client_id: String,
    client_secret: String,
    auth_url: String,
    token_url: String,
    redirect_url: String,
}

/// The model of an OAuth client.
pub ghost struct ClientModel {
    pub client_id: Seq<char>,
    pub client_secret: Seq<char>,
    pub auth_url: Seq<char>,
    pub token_url: Seq<char>,
    pub redirect_url: Seq<char>,
}

impl View for OAuthClient {
    type V = ClientModel;

    closed spec fn view(&self) -> ClientModel {
        ClientModel {
            client_id: self.client_id@,
            client_secret: self.client_secret@,
            auth_url: self.auth_url@,
            token_url: self.token_url@,
            redirect_url: self.redirect_url@,
        }
    }
}

impl OAuthClient {
    #[verifier::type_invariant]
    spec fn urls_are_valid(self) -> bool {
        &&& crate::outside::valid_url(self.auth_url@)
        &&& crate::outside::valid_url(self.token_url@)
        &&& crate::outside::valid_url(self.redirect_url@)
    }

    /// The identifier under which the provider knows this application.
    pub fn client_id(&self) -> (id: &String)
        ensures
            id@ == self@.client_id,
    {
        &self.client_id
    }

    /// The secret that the provider shares with this application.
    pub fn client_secret(&self) -> (secret: &String)
        ensures
            secret@ == self@.client_secret,
    {
        &self.client_secret
    }

    /// Where the user authorizes this application.
    pub fn auth_url(&self) -> (url: &String)
        ensures
            url@ == self@.auth_url,
    {
        &self.auth_url
    }

    /// Where this application trades a code for a token.
    pub fn token_url(&self) -> (url: &String)
        ensures
            url@ == self@.token_url,
    {
        &self.token_url
    }

    /// Where the provider sends the user afterwards.
    pub fn redirect_url(&self) -> (url: &String)
        ensures
            url@ == self@.redirect_url,
    {
        &self.redirect_url
    }
}

impl Clone for OAuthClient {
    fn clone(&self) -> (copy: OAuthClient)
        ensures
            copy@ == self@,
    {
        proof {
            use_type_invariant(self);
        }
        OAuthClient {
            client_id: self.client_id.clone(),
            client_secret: self.client_secret.clone(),
            auth_url: self.auth_url.clone(),
            token_url: self.token_url.clone(),
            redirect_url: self.redirect_url.clone(),
        }
    }
}

/// The clients of all providers.
#[derive(Debug)]
pub struct OAuthClients {
    pub google: OAuthClient,
    pub discord: OAuthClient,
    pub apple: OAuthClient,
}

impl Clone for OAuthClients {
    fn clone(&self) -> (copy: OAuthClients)
        ensures
            copy.google@ == self.google@,
            copy.discord@ == self.discord@,
            copy.apple@ == self.apple@,
    {
        OAuthClients {
            google: self.google.clone(),
            discord: self.discord.clone(),
            apple: self.apple.clone(),
        }
    }
}

/// Where the user authorizes this application.
pub open spec fn auth_endpoint(provider: OAuthProvider) -> Seq<char> {
    match provider {
        OAuthProvider::Google => "https://accounts.google.com/o/oauth2/v2/auth"@,
        OAuthProvider::Discord => "https://discord.com/api/oauth2/authorize"@,
        OAuthProvider::Apple => "https://appleid.apple.com/auth/authorize"@,
    }
}

/// Where this application trades a code for a token.
pub open spec fn token_endpoint(provider: OAuthProvider) -> Seq<char> {
    match provider {
        OAuthProvider::Google => "https://www.googleapis.com/oauth2/v3/token"@,
        OAuthProvider::Discord => "https://discord.com/api/oauth2/token"@,
        OAuthProvider::Apple => "https://appleid.apple.com/auth/token"@,
    }
}

/// Where the provider sends the user, unless it is configured otherwise.
pub open spec fn default_redirect(provider: OAuthProvider) -> Seq<char> {
    match provider {
        OAuthProvider::Google => "https://coolify.nestfeed.app/api/auth/google_callback"@,
        OAuthProvider::Discord => "https://coolify.nestfeed.app/api/auth/discord_callback"@,
        OAuthProvider::Apple => "https://coolify.nestfeed.app/api/auth/apple_callback"@,
    }
}

/// The configured redirect URL, or else the default one.
pub open spec fn redirect_or_default(
    provider: OAuthProvider,
    configured: Option<Seq<char>>,
) -> Seq<char> {
    match configured {
        Some(url) => url,
        None => default_redirect(provider),
    }
}

/// The client of a provider for these credentials and this configuration.
pub open spec fn client_model(
    provider: OAuthProvider,
    client_id: Seq<char>,
    client_secret: Seq<char>,
    configured: Option<Seq<char>>,
) -> ClientModel {
    ClientModel {
        client_id,
        client_secret,
        auth_url: auth_endpoint(provider),
        token_url: token_endpoint(provider),
        redirect_url: redirect_or_default(provider, configured),
    }
}

/// All URLs of the client are valid.
pub open spec fn client_urls_valid(provider: OAuthProvider, configured: Option<Seq<char>>) -> bool {
    &&& crate::outside::valid_url(auth_endpoint(provider))
    &&& crate::outside::valid_url(token_endpoint(provider))
    &&& crate::outside::valid_url(redirect_or_default(provider, configured))
}

/// The endpoints of a provider, for authorization and for tokens.
fn endpoints(provider: OAuthProvider) -> (urls: (&'static str, &'static str))
    ensures
        urls.0@ == auth_endpoint(provider),
        urls.1@ == token_endpoint(provider),
{
    match provider {
        OAuthProvider::Google => (
            "https://accounts.google.com/o/oauth2/v2/auth",
            "https://www.googleapis.com/oauth2/v3/token",
        ),
        OAuthProvider::Discord => (
            "https://discord.com/api/oauth2/authorize",
            "https://discord.com/api/oauth2/token",
        ),
        OAuthProvider::Apple => (
            "https://appleid.apple.com/auth/authorize",
            "https://appleid.apple.com/auth/token",
        ),
    }
}

/// The configured redirect URL, or else the default one.
fn redirect_for(provider: OAuthProvider, configured: Option<String>) -> (url: String)
    ensures
        url@ == redirect_or_default(provider, configured.deep_view()),
{
    match configured {
        Some(url) => url,
        None => match provider {
            OAuthProvider::Google => {
                "https://coolify.nestfeed.app/api/auth/google_callback".to_owned()
            },
            OAuthProvider::Discord => {
                "https://coolify.nestfeed.app/api/auth/discord_callback".to_owned()
            },
            OAuthProvider::Apple => {
                "https://coolify.nestfeed.app/api/auth/apple_callback".to_owned()
            },
        },
    }
}

/// The client of a provider.
fn provider_client(
    provider: OAuthProvider,
    client_id: String,
    client_secret: String,
    redirect_url: Option<String>,
) -> (client: OAuthClient)
    requires
        client_urls_valid(provider, redirect_url.deep_view()),
    ensures
        client@ == client_model(
            provider,
            client_id@,
            client_secret@,
            redirect_url.deep_view(),
        ),
{
    let (auth_url, token_url) = endpoints(provider);
    let redirect_url: String = redirect_for(provider, redirect_url);
    OAuthClient {
        client_id,
        client_secret,
        auth_url: auth_url.to_owned(),
        token_url: token_url.to_owned(),
        redirect_url,
    }
}

/// The Google client. `redirect_url` is what `GOOGLE_REDIRECT_URL` holds.
pub fn build_google_oauth_client(
    client_id: String,
    client_secret: String,
    redirect_url: Option<String>,
) -> (client: OAuthClient)
    requires
        client_urls_valid(OAuthProvider::Google, redirect_url.deep_view()),
    ensures
        client@ == client_model(
            OAuthProvider::Google,
            client_id@,
            client_secret@,
            redirect_url.deep_view(),
        ),
{
    provider_client(OAuthProvider::Google, client_id, client_secret, redirect_url)
}

/// The Discord client. `redirect_url` is what `DISCORD_REDIRECT_URL` holds.
pub fn build_discord_oauth_client(
    client_id: String,
    client_secret: String,
    redirect_url: Option<String>,
) -> (client: OAuthClient)
    requires
        client_urls_valid(OAuthProvider::Discord, redirect_url.deep_view()),
    ensures
        client@ == client_model(
            OAuthProvider::Discord,
            client_id@,
            client_secret@,
            redirect_url.deep_view(),
        ),
{
    provider_client(OAuthProvider::Discord, client_id, client_secret, redirect_url)
}

/// Whether all URLs of a provider's client are valid.
pub fn client_urls_check(provider: OAuthProvider, redirect_url: &Option<String>) -> (valid: bool)
    ensures
        valid == client_urls_valid(provider, redirect_url.deep_view()),
{
    let (auth_url, token_url) = endpoints(provider);
    let redirect: String = redirect_for(provider, copied(redirect_url));
    parses_as_url(auth_url) && parses_as_url(token_url) && parses_as_url(redirect.as_str())
}

/// The claims of the token by which this application identifies itself to Apple.
#[derive(Debug)]
pub struct AppleClientSecretClaims<S = String> {
    pub iss: S,
    pub iat: i64,
    pub exp: i64,
    pub aud: S,
    pub sub: S,
}

/// How long a client secret is good for, in seconds: 180 days, the most that Apple allows.
pub const CLIENT_SECRET_LIFETIME: i64 = 15_552_000;

/// The claims by which the team and the application identify themselves at time `iat`.
pub open spec fn client_secret_claims(
    team_id: Seq<char>,
    client_id: Seq<char>,
    iat: i64,
) -> AppleClientSecretClaims<Seq<char>> {
    AppleClientSecretClaims {
        iss: team_id,
        iat,
        exp: (iat + CLIENT_SECRET_LIFETIME) as i64,
        aud: "https://appleid.apple.com"@,
        sub: client_id,
    }
}

/// The tokens that these claims can give when they are signed with this key.
pub open spec fn signed_tokens(
    pem: Seq<u8>,
    key_id: Seq<char>,
    claims: AppleClientSecretClaims<Seq<char>>,
) -> Set<Seq<char>> {
    crate::outside::es256_tokens(
        pem,
        key_id,
        claims.iss,
        claims.iat,
        claims.exp,
        claims.aud,
        claims.sub,
    )
}

/// What can come of making the client secret at time `iat`: the key must be base64 and
/// then hold an EC key, and the secret is a token signed with that key; signing itself
/// may fail.
pub open spec fn client_secret_outcome(
    team_id: Seq<char>,
    client_id: Seq<char>,
    key_id: Seq<char>,
    private_key_base64: Seq<char>,
    iat: i64,
    outcome: Result<Seq<char>, AppError<Seq<char>>>,
) -> bool {
    match crate::outside::base64_content(private_key_base64) {
        Err(e) => outcome == Err::<Seq<char>, _>(
            AppError::ExternalService("Invalid base64 Apple private key: "@ + e),
        ),
        Ok(pem) => match crate::outside::ec_private_key(pem) {
            Err(e) => outcome == Err::<Seq<char>, _>(
                AppError::ExternalService("Invalid Apple private key PEM: "@ + e),
            ),
            Ok(_) => exists|signed: Result<Seq<char>, Seq<char>>| #[trigger]
                signing_report(signed) == outcome && (signed matches Ok(token) ==> signed_tokens(
                    pem,
                    key_id,
                    client_secret_claims(team_id, client_id, iat),
                ).contains(token)),
        },
    }
}

/// What is reported of an attempt to sign the claims.
pub open spec fn signing_report(signed: Result<Seq<char>, Seq<char>>) -> Result<
    Seq<char>,
    AppError<Seq<char>>,
> {
    match signed {
        Ok(token) => Ok(token),
        Err(e) => Err(AppError::ExternalService("Failed to generate Apple client secret: "@ + e)),
    }
}

/// What is reported of an attempt to sign the claims.
pub fn report_signing(signed: Result<String, String>) -> (outcome: Result<String, AppError>)
    ensures
        crate::errors::result_view(outcome) == signing_report(crate::errors::result_view(signed)),
{
    match signed {
        Ok(token) => Ok(token),
        Err(e) => Err(
            AppError::ExternalService(
                "Failed to generate Apple client secret: ".to_owned().concat(e.as_str()),
            ),
        ),
    }
}

/// The token by which this application identifies itself to Apple, issued at `iat`.
pub fn client_secret_at(
    team_id: &str,
    client_id: &str,
    key_id: &str,
    private_key_base64: &str,
    iat: i64,
) -> (secret: Result<String, AppError>)
    requires
        iat + CLIENT_SECRET_LIFETIME <= i64::MAX,
    ensures
        client_secret_outcome(
            team_id@,
            client_id@,
            key_id@,
            private_key_base64@,
            iat,
            crate::errors::result_view(secret),
        ),
{
    let claims = AppleClientSecretClaims {
        iss: team_id.to_owned(),
        iat,
        exp: iat + CLIENT_SECRET_LIFETIME,
        aud: "https://appleid.apple.com".to_owned(),
        sub: client_id.to_owned(),
    };
    let pem: Vec<u8> = match decode_base64(private_key_base64) {
        Ok(bytes) => bytes,
        Err(e) => {
            return Err(
                AppError::ExternalService(
                    "Invalid base64 Apple private key: ".to_owned().concat(e.as_str()),
                ),
            );
        },
    };
    match check_ec_pem(pem.as_slice()) {
        Ok(_) => {},
        Err(e) => {
            return Err(
                AppError::ExternalService(
                    "Invalid Apple private key PEM: ".to_owned().concat(e.as_str()),
                ),
            );
        },
    }
    let signed: Result<String, String> = sign_es256(pem.as_slice(), key_id, &claims);
    let ghost model = crate::errors::result_view(signed);
    let secret: Result<String, AppError> = report_signing(signed);
    proof {
        assert(signing_report(model) == crate::errors::result_view(secret));
    }
    secret
}

/// What can come of making the client secret now, whenever that is.
pub open spec fn fresh_client_secret(
    team_id: Seq<char>,
    client_id: Seq<char>,
    key_id: Seq<char>,
    private_key_base64: Seq<char>,
    outcome: Result<Seq<char>, AppError<Seq<char>>>,
) -> bool {
    exists|iat: i64|
        0 <= iat < 10_000_000_000_000 && #[trigger] client_secret_outcome(
            team_id,
            client_id,
            key_id,
            private_key_base64,
            iat,
            outcome,
        )
}

/// The token by which this application identifies itself to Apple, issued now.
pub fn generate_apple_client_secret(
    team_id: &str,
    client_id: &str,
    key_id: &str,
    private_key_base64: &str,
) -> (secret: Result<String, AppError>)
    ensures
        fresh_client_secret(
            team_id@,
            client_id@,
            key_id@,
            private_key_base64@,
            crate::errors::result_view(secret),
        ),
{
    let iat: i64 = unix_now();
    client_secret_at(team_id, client_id, key_id, private_key_base64, iat)
}

/// The Apple client for a client secret that is at hand. `redirect_url` is what
/// `APPLE_REDIRECT_URL` holds.
pub fn apple_client_with_secret(
    client_id: String,
    client_secret: String,
    redirect_url: Option<String>,
) -> (client: OAuthClient)
    requires
        client_urls_valid(OAuthProvider::Apple, redirect_url.deep_view()),
    ensures
        client@ == client_model(
            OAuthProvider::Apple,
            client_id@,
            client_secret@,
            redirect_url.deep_view(),
        ),
{
    provider_client(OAuthProvider::Apple, client_id, client_secret, redirect_url)
}

/// The Apple client, or why there is none: the client secret could not be made.
pub open spec fn apple_client_outcome(
    client_id: Seq<char>,
    configured: Option<Seq<char>>,
    secret: Result<Seq<char>, AppError<Seq<char>>>,
) -> Result<ClientModel, AppError<Seq<char>>> {
    match secret {
        Ok(s) => Ok(client_model(OAuthProvider::Apple, client_id, s, configured)),
        Err(e) => Err(e),
    }
}

/// A private key in base64 is that of a PEM file with an EC key.
pub open spec fn usable_key(private_key_base64: Seq<char>) -> bool {
    crate::outside::base64_content(private_key_base64) matches Ok(pem)
        && crate::outside::ec_private_key(pem) is Ok
}

/// Whether a private key in base64 is that of a PEM file with an EC key.
pub fn private_key_check(private_key_base64: &str) -> (usable: bool)
    ensures
        usable == usable_key(private_key_base64@),
{
    match decode_base64(private_key_base64) {
        Ok(pem) => check_ec_pem(pem.as_slice()).is_ok(),
        Err(_) => false,
    }
}

/// The Apple client, with a client secret made now; signing it may fail. `redirect_url` is
/// what `APPLE_REDIRECT_URL` holds.
pub fn build_apple_oauth_client(
    client_id: String,
    team_id: String,
    key_id: String,
    private_key: String,
    redirect_url: Option<String>,
) -> (client: Result<OAuthClient, AppError>)
    requires
        usable_key(private_key@),
        client_urls_valid(OAuthProvider::Apple, redirect_url.deep_view()),
    ensures
        exists|secret: Result<Seq<char>, AppError<Seq<char>>>| #[trigger]
            fresh_client_secret(team_id@, client_id@, key_id@, private_key@, secret)
                && crate::errors::result_view(client) == apple_client_outcome(
                client_id@,
                redirect_url.deep_view(),
                secret,
            ),
{
    let secret: Result<String, AppError> = generate_apple_client_secret(
        team_id.as_str(),
        client_id.as_str(),
        key_id.as_str(),
        private_key.as_str(),
    );
    let ghost model = crate::errors::result_view(secret);
    match secret {
        Ok(client_secret) => Ok(apple_client_with_secret(client_id, client_secret, redirect_url)),
        Err(e) => Err(e),
    }
}

/// The client of a provider, where all its URLs are valid.
pub fn checked_oauth_client(
    provider: OAuthProvider,
    client_id: String,
    client_secret: String,
    redirect_url: Option<String>,
) -> (client: Option<OAuthClient>)
    ensures
        match client {
            Some(c) => client_urls_valid(provider, redirect_url.deep_view()) && c@ == client_model(
                provider,
                client_id@,
                client_secret@,
                redirect_url.deep_view(),
            ),
            None => !client_urls_valid(provider, redirect_url.deep_view()),
        },
{
    if !client_urls_check(provider, &redirect_url) {
        return None;
    }
    let client: OAuthClient = match provider {
        OAuthProvider::Google => build_google_oauth_client(client_id, client_secret, redirect_url),
        OAuthProvider::Discord => build_discord_oauth_client(
            client_id,
            client_secret,
            redirect_url,
        ),
        OAuthProvider::Apple => apple_client_with_secret(client_id, client_secret, redirect_url),
    };
    Some(client)
}

/// What comes of an attempt to build the Apple client: an error where the client secret
/// could not be made, and else the client, if all its URLs are valid.
pub open spec fn apple_client_attempt(
    client_id: Seq<char>,
    configured: Option<Seq<char>>,
    secret: Result<Seq<char>, AppError<Seq<char>>>,
) -> Result<Option<ClientModel>, AppError<Seq<char>>> {
    match secret {
        Ok(s) => if client_urls_valid(OAuthProvider::Apple, configured) {
            Ok(Some(client_model(OAuthProvider::Apple, client_id, s, configured)))
        } else {
            Ok(None)
        },
        Err(e) => Err(e),
    }
}

/// The Apple client with a client secret made now, where the key is usable and all URLs
/// are valid.
pub fn checked_apple_oauth_client(
    client_id: String,
    team_id: String,
    key_id: String,
    private_key: String,
    redirect_url: Option<String>,
) -> (client: Result<Option<OAuthClient>, AppError>)
    ensures
        exists|secret: Result<Seq<char>, AppError<Seq<char>>>| #[trigger]
            fresh_client_secret(team_id@, client_id@, key_id@, private_key@, secret)
                && attempt_view(client) == apple_client_attempt(
                client_id@,
                redirect_url.deep_view(),
                secret,
            ),
{
    if client_urls_check(OAuthProvider::Apple, &redirect_url) && private_key_check(
        private_key.as_str(),
    ) {
        match build_apple_oauth_client(client_id, team_id, key_id, private_key, redirect_url) {
            Ok(client) => Ok(Some(client)),
            Err(e) => Err(e),
        }
    } else {
        let secret: Result<String, AppError> = generate_apple_client_secret(
            team_id.as_str(),
            client_id.as_str(),
            key_id.as_str(),
            private_key.as_str(),
        );
        match secret {
            Ok(_) => Ok(None),
            Err(e) => Err(e),
        }
    }
}

/// The model of an attempt to build a client.
pub open spec fn attempt_view(client: Result<Option<OAuthClient>, AppError>) -> Result<
    Option<ClientModel>,
    AppError<Seq<char>>,
> {
    match client {
        Ok(Some(c)) => Ok(Some(c@)),
        Ok(None) => Ok(None),
        Err(e) => Err(e@),
    }
}

/// The state that travels with a sign-in: a random token, and after a hyphen where the
/// user came from, if that is known.
pub open spec fn sign_in_state(csrf_token: Seq<char>, origin: Option<Seq<char>>) -> Seq<char> {
    match origin {
        Some(o) => csrf_token + "-"@ + o,
        None => csrf_token,
    }
}

/// Where the user came from, as the state says that comes back from the provider.
pub open spec fn origin_in_state(state: Option<Seq<char>>) -> Option<Seq<char>> {
    match state {
        Some(s) => crate::text::after_dash(s),
        None => None,
    }
}

/// The rights that a sign-in asks for.
pub open spec fn requested_scopes(provider: OAuthProvider) -> Seq<Seq<char>> {
    match provider {
        OAuthProvider::Google => seq![
            "email"@,
            "openid"@,
            "https://www.googleapis.com/auth/youtube.readonly"@,
            "profile"@,
        ],
        OAuthProvider::Discord => seq!["identify"@, "email"@],
        OAuthProvider::Apple => seq!["name"@, "email"@],
    }
}

/// What a sign-in request holds beyond the parameters that OAuth defines.
pub open spec fn further_parameters(provider: OAuthProvider) -> Seq<(Seq<char>, Seq<char>)> {
    match provider {
        OAuthProvider::Google => seq![("prompt"@, "consent"@), ("access_type"@, "offline"@)],
        OAuthProvider::Discord => Seq::empty(),
        OAuthProvider::Apple => seq![("response_mode"@, "form_post"@)],
    }
}

/// Where a user is sent to sign in with a provider, with this state.
pub open spec fn sign_in_url(
    client: ClientModel,
    provider: OAuthProvider,
    state: Seq<char>,
) -> Seq<char> {
    crate::outside::authorization_url(
        client.client_id,
        client.auth_url,
        client.redirect_url,
        state,
        requested_scopes(provider),
        "code"@,
        further_parameters(provider),
    )
}

/// The rights that a sign-in asks for.
pub fn scopes_for(provider: &OAuthProvider) -> (scopes: Vec<String>)
    ensures
        scopes.deep_view() == requested_scopes(*provider),
{
    let mut scopes: Vec<String> = Vec::new();
    match provider {
        OAuthProvider::Google => {
            scopes.push("email".to_owned());
            scopes.push("openid".to_owned());
            scopes.push("https://www.googleapis.com/auth/youtube.readonly".to_owned());
            scopes.push("profile".to_owned());
        },
        OAuthProvider::Discord => {
            scopes.push("identify".to_owned());
            scopes.push("email".to_owned());
        },
        OAuthProvider::Apple => {
            scopes.push("name".to_owned());
            scopes.push("email".to_owned());
        },
    }
    assert(scopes.deep_view() =~= requested_scopes(*provider));
    scopes
}

/// What a sign-in request holds beyond the parameters that OAuth defines.
pub fn parameters_for(provider: &OAuthProvider) -> (parameters: Vec<(String, String)>)
    ensures
        parameters.deep_view() == further_parameters(*provider),
{
    let mut parameters: Vec<(String, String)> = Vec::new();
    match provider {
        OAuthProvider::Google => {
            parameters.push(("prompt".to_owned(), "consent".to_owned()));
            parameters.push(("access_type".to_owned(), "offline".to_owned()));
        },
        OAuthProvider::Discord => {},
        OAuthProvider::Apple => {
            parameters.push(("response_mode".to_owned(), "form_post".to_owned()));
        },
    }
    assert(parameters.deep_view() =~= further_parameters(*provider));
    parameters
}

/// The state that travels with a sign-in that has this random token.
pub fn state_with_origin(csrf_token: String, origin: Option<String>) -> (state: String)
    ensures
        state@ == sign_in_state(csrf_token@, origin.deep_view()),
{
    match origin {
        Some(o) => csrf_token.concat("-").concat(o.as_str()),
        None => csrf_token,
    }
}

/// Where a user is sent to sign in with a provider, with this state.
pub fn auth_url_with_state(client: &OAuthClient, provider: &OAuthProvider, state: &str) -> (url:
    String)
    ensures
        url@ == sign_in_url(client@, *provider, state@),
{
    proof {
        use_type_invariant(client);
    }
    authorize(
        client.client_id.as_str(),
        client.auth_url.as_str(),
        client.redirect_url.as_str(),
        state,
        &scopes_for(provider),
        "code",
        &parameters_for(provider),
    )
}

/// Where a user is sent to sign in with a provider; `origin` is where the user came from.
pub fn generate_auth_url(client: &OAuthClient, provider: &OAuthProvider, origin: Option<String>) -> (
url: String)
    ensures
        exists|csrf_token: Seq<char>| #[trigger]
            crate::outside::csrf_shaped(csrf_token) && url@ == sign_in_url(
                client@,
                *provider,
                sign_in_state(csrf_token, origin.deep_view()),
            ),
{
    let csrf_token: String = random_csrf_token();
    let ghost token = csrf_token@;
    let state: String = state_with_origin(csrf_token, origin);
    assert(crate::outside::csrf_shaped(token));
    auth_url_with_state(client, provider, state.as_str())
}

/// A state comes back as it was sent: where the random token holds no hyphen, the origin
/// that is read from the state is the one that the sign-in began with, and none where it
/// began with none.
pub proof fn law_origin_comes_back(csrf_token: Seq<char>, origin: Option<Seq<char>>)
    requires
        !csrf_token.contains('-'),
    ensures
        origin_in_state(Some(sign_in_state(csrf_token, origin))) == origin,
    decreases csrf_token.len(),
{
    reveal_strlit("-");
    let state = sign_in_state(csrf_token, origin);
    if csrf_token.len() == 0 {
        if let Some(o) = origin {
            assert(state.drop_first() =~= o);
        }
    } else {
        let rest = csrf_token.drop_first();
        assert forall|i: int| 0 <= i < rest.len() implies rest[i] != '-' by {
            assert(rest[i] == csrf_token[i + 1]);
        }
        assert(csrf_token[0] != '-');
        assert(!rest.contains('-'));
        law_origin_comes_back(rest, origin);
        assert(state.drop_first() =~= sign_in_state(rest, origin));
        assert(state[0] == csrf_token[0]);
    }
}

/// Whatever the random token holds, an origin that a sign-in began with is at the end of
/// the one that is read from the state.
pub proof fn law_origin_is_never_lost(csrf_token: Seq<char>, origin: Seq<char>)
    ensures
        origin_in_state(Some(sign_in_state(csrf_token, Some(origin)))) matches Some(read)
            && origin.is_suffix_of(read),
    decreases csrf_token.len(),
{
    reveal_strlit("-");
    let state = sign_in_state(csrf_token, Some(origin));
    if csrf_token.len() == 0 {
        assert(state.drop_first() =~= origin);
        assert(origin.is_suffix_of(origin));
    } else {
        let rest = csrf_token.drop_first();
        law_origin_is_never_lost(rest, origin);
        assert(state.drop_first() =~= sign_in_state(rest, Some(origin)));
        assert(state[0] == csrf_token[0]);
        assert(origin.is_suffix_of(state.drop_first()));
    }
}

/// A client secret is good for 180 days from the time at which it was issued.
pub proof fn law_client_secret_lives_180_days(team_id: Seq<char>, client_id: Seq<char>, iat: i64)
    requires
        iat + CLIENT_SECRET_LIFETIME <= i64::MAX,
    ensures
        client_secret_claims(team_id, client_id, iat).exp - client_secret_claims(
            team_id,
            client_id,
            iat,
        ).iat == 180 * 24 * 60 * 60,
{
}

/// The URL that a user is sent to does not depend on the client's secret.
pub proof fn law_sign_in_url_hides_the_secret(
    client: ClientModel,
    other_secret: Seq<char>,
    provider: OAuthProvider,
    state: Seq<char>,
)
    ensures
        sign_in_url(client, provider, state) == sign_in_url(
            ClientModel { client_secret: other_secret, ..client },
            provider,
            state,
        ),
{
}

/// The name of each provider.
pub proof fn law_provider_names()
    ensures
        provider_name(OAuthProvider::Google) == "google"@,
        provider_name(OAuthProvider::Discord) == "discord"@,
        provider_name(OAuthProvider::Apple) == "apple"@,
{
}

/// Each client has the identifier and the secret that it was given, and reaches its
/// provider at the provider's endpoints. It is sent back to the redirect URL that is
/// configured, whatever that is, and else to the callback of the provider.
pub proof fn law_clients_reach_their_providers(
    client_id: Seq<char>,
    client_secret: Seq<char>,
    redirect_url: Seq<char>,
)
    ensures
        forall|provider: OAuthProvider, configured: Option<Seq<char>>|
            (#[trigger] client_model(provider, client_id, client_secret, configured)).client_id
                == client_id && client_model(
                provider,
                client_id,
                client_secret,
                configured,
            ).client_secret == client_secret,
        forall|provider: OAuthProvider|
            (#[trigger] client_model(
                provider,
                client_id,
                client_secret,
                Some(redirect_url),
            )).redirect_url == redirect_url,
        client_model(OAuthProvider::Google, client_id, client_secret, None) == (ClientModel {
            client_id,
            client_secret,
            auth_url: "https://accounts.google.com/o/oauth2/v2/auth"@,
            token_url: "https://www.googleapis.com/oauth2/v3/token"@,
            redirect_url: "https://coolify.nestfeed.app/api/auth/google_callback"@,
        }),
        client_model(OAuthProvider::Discord, client_id, client_secret, None) == (ClientModel {
            client_id,
            client_secret,
            auth_url: "https://discord.com/api/oauth2/authorize"@,
            token_url: "https://discord.com/api/oauth2/token"@,
            redirect_url: "https://coolify.nestfeed.app/api/auth/discord_callback"@,
        }),
        client_model(OAuthProvider::Apple, client_id, client_secret, None) == (ClientModel {
            client_id,
            client_secret,
            auth_url: "https://appleid.apple.com/auth/authorize"@,
            token_url: "https://appleid.apple.com/auth/token"@,
            redirect_url: "https://coolify.nestfeed.app/api/auth/apple_callback"@,
        }),
        forall|provider: OAuthProvider, configured: Option<Seq<char>>|
            (#[trigger] client_model(provider, client_id, client_secret, configured)).auth_url
                == client_model(provider, client_id, client_secret, None).auth_url
                && client_model(provider, client_id, client_secret, configured).token_url
                == client_model(provider, client_id, client_secret, None).token_url,
{
}

/// A client needs all its URLs to be valid, the configured redirect URL among them.
pub proof fn law_clients_need_valid_urls(provider: OAuthProvider, configured: Option<Seq<char>>)
    ensures
        ({
            let client = client_model(provider, Seq::empty(), Seq::empty(), configured);
            client_urls_valid(provider, configured) <==> crate::outside::valid_url(client.auth_url)
                && crate::outside::valid_url(client.token_url) && crate::outside::valid_url(
                client.redirect_url,
            )
        }),
{
}

/// The client secret is signed over claims in which the team vouches for the application
/// to Apple, from the time of issue on for 180 days, with the key that is named in it.
pub proof fn law_client_secret_names_team_and_application(
    pem: Seq<u8>,
    key_id: Seq<char>,
    team_id: Seq<char>,
    client_id: Seq<char>,
    iat: i64,
)
    requires
        iat + 15_552_000 <= i64::MAX,
    ensures
        signed_tokens(pem, key_id, client_secret_claims(team_id, client_id, iat))
            == crate::outside::es256_tokens(
            pem,
            key_id,
            team_id,
            iat,
            (iat + 15_552_000) as i64,
            "https://appleid.apple.com"@,
            client_id,
        ),
{
}

/// Why a client secret cannot be made: the key is not base64, or holds no EC key, or the
/// claims could not be signed. A secret that is made is one of the tokens signed over the
/// claims, with this key and no other.
pub proof fn law_client_secret_failures(
    team_id: Seq<char>,
    client_id: Seq<char>,
    key_id: Seq<char>,
    private_key: Seq<char>,
    iat: i64,
    outcome: Result<Seq<char>, AppError<Seq<char>>>,
)
    requires
        client_secret_outcome(team_id, client_id, key_id, private_key, iat, outcome),
        iat + 15_552_000 <= i64::MAX,
    ensures
        crate::outside::base64_content(private_key) matches Err(e) ==> outcome == Err::<
            Seq<char>,
            _,
        >(AppError::ExternalService("Invalid base64 Apple private key: "@ + e)),
        crate::outside::base64_content(private_key) matches Ok(pem) ==> (
        crate::outside::ec_private_key(pem) matches Err(e) ==> outcome == Err::<Seq<char>, _>(
            AppError::ExternalService("Invalid Apple private key PEM: "@ + e),
        )),
        crate::outside::base64_content(private_key) matches Ok(pem) ==> (
        crate::outside::ec_private_key(pem) is Ok ==> match outcome {
            Ok(token) => crate::outside::es256_tokens(
                pem,
                key_id,
                team_id,
                iat,
                (iat + 15_552_000) as i64,
                "https://appleid.apple.com"@,
                client_id,
            ).contains(token),
            Err(error) => exists|e: Seq<char>|
                error == AppError::ExternalService(
                    #[trigger] ("Failed to generate Apple client secret: "@ + e),
                ),
        }),
{
    if let Ok(pem) = crate::outside::base64_content(private_key) {
        if crate::outside::ec_private_key(pem) is Ok {
            let signed = choose|signed: Result<Seq<char>, Seq<char>>| #[trigger]
                signing_report(signed) == outcome && (signed matches Ok(token) ==> signed_tokens(
                    pem,
                    key_id,
                    client_secret_claims(team_id, client_id, iat),
                ).contains(token));
            if let Err(e) = signed {
                assert(outcome == Err::<Seq<char>, _>(
                    AppError::ExternalService("Failed to generate Apple client secret: "@ + e),
                ));
            }
        }
    }
}

/// What signing gives is the secret, and its complaint is reported.
pub proof fn law_signing_is_reported(token: Seq<char>, e: Seq<char>)
    ensures
        signing_report(Ok(token)) == Ok::<_, AppError<Seq<char>>>(token),
        signing_report(Err(e)) == Err::<Seq<char>, _>(
            AppError::ExternalService("Failed to generate Apple client secret: "@ + e),
        ),
{
}

/// A client secret that is made for now is made for some time since the start of 1970.
pub proof fn law_fresh_secrets_are_made_at_some_time(
    team_id: Seq<char>,
    client_id: Seq<char>,
    key_id: Seq<char>,
    private_key: Seq<char>,
    outcome: Result<Seq<char>, AppError<Seq<char>>>,
)
    requires
        fresh_client_secret(team_id, client_id, key_id, private_key, outcome),
    ensures
        exists|iat: i64|
            0 <= iat && #[trigger] client_secret_outcome(
                team_id,
                client_id,
                key_id,
                private_key,
                iat,
                outcome,
            ),
{
}

/// The Apple client carries the secret that was made; without a secret there is no client,
/// and the failure is passed on; with bad URLs there is none either.
pub proof fn law_apple_client_carries_its_secret(
    client_id: Seq<char>,
    configured: Option<Seq<char>>,
    secret: Seq<char>,
    e: AppError<Seq<char>>,
)
    ensures
        apple_client_outcome(client_id, configured, Ok(secret)) == Ok::<_, AppError<Seq<char>>>(
            client_model(OAuthProvider::Apple, client_id, secret, configured),
        ),
        apple_client_outcome(client_id, configured, Err(e)) == Err::<ClientModel, _>(e),
        client_urls_valid(OAuthProvider::Apple, configured) ==> apple_client_attempt(
            client_id,
            configured,
            Ok(secret),
        ) == Ok::<_, AppError<Seq<char>>>(
            Some(client_model(OAuthProvider::Apple, client_id, secret, configured)),
        ),
        !client_urls_valid(OAuthProvider::Apple, configured) ==> apple_client_attempt(
            client_id,
            configured,
            Ok(secret),
        ) == Ok::<Option<ClientModel>, AppError<Seq<char>>>(None),
        apple_client_attempt(client_id, configured, Err(e)) == Err::<Option<ClientModel>, _>(e),
{
}

/// A key is usable exactly where it is the base64 of an EC key.
pub proof fn law_usable_keys(private_key: Seq<char>)
    ensures
        usable_key(private_key) <==> exists|pem: Seq<u8>|
            crate::outside::base64_content(private_key) == Ok::<_, Seq<char>>(pem)
                && #[trigger] crate::outside::ec_private_key(pem) is Ok,
{
}

/// The state is the random token alone, or the token, a hyphen and the origin.
pub proof fn law_state_is_token_and_origin(csrf_token: Seq<char>, origin: Seq<char>)
    ensures
        sign_in_state(csrf_token, None) == csrf_token,
        sign_in_state(csrf_token, Some(origin)) == csrf_token + seq!['-'] + origin,
{
    reveal_strlit("-");
    assert("-"@ =~= seq!['-']);
}

/// The origin in a state is all that follows its first hyphen; a state without a hyphen
/// has none, nor has a missing state.
pub proof fn law_origin_follows_the_first_hyphen(head: Seq<char>, origin: Seq<char>)
    requires
        forall|i: int| 0 <= i < head.len() ==> #[trigger] head[i] != '-',
    ensures
        origin_in_state(Some(head + seq!['-'] + origin)) == Some(origin),
        origin_in_state(Some(head)) is None,
        origin_in_state(None) is None,
{
    crate::text::law_the_first_hyphen_splits(head, origin);
}

/// For every client and state the sign-in URL is the authorization URL of that client and
/// state for an authorization code, with the scopes and the further parameters of the
/// provider.
pub proof fn law_sign_in_asks_for_a_code(client: ClientModel, state: Seq<char>)
    ensures
        sign_in_url(client, OAuthProvider::Google, state) == crate::outside::authorization_url(
            client.client_id,
            client.auth_url,
            client.redirect_url,
            state,
            seq![
                "email"@,
                "openid"@,
                "https://www.googleapis.com/auth/youtube.readonly"@,
                "profile"@,
            ],
            "code"@,
            seq![("prompt"@, "consent"@), ("access_type"@, "offline"@)],
        ),
        sign_in_url(client, OAuthProvider::Discord, state) == crate::outside::authorization_url(
            client.client_id,
            client.auth_url,
            client.redirect_url,
            state,
            seq!["identify"@, "email"@],
            "code"@,
            Seq::<(Seq<char>, Seq<char>)>::empty(),
        ),
        sign_in_url(client, OAuthProvider::Apple, state) == crate::outside::authorization_url(
            client.client_id,
            client.auth_url,
            client.redirect_url,
            state,
            seq!["name"@, "email"@],
            "code"@,
            seq![("response_mode"@, "form_post"@)],
        ),
{
}

/// Each provider is asked for its scopes, and sent its further parameters.
pub proof fn law_scopes_and_parameters()
    ensures
        requested_scopes(OAuthProvider::Google) == seq![
            "email"@,
            "openid"@,
            "https://www.googleapis.com/auth/youtube.readonly"@,
            "profile"@,
        ],
        requested_scopes(OAuthProvider::Discord) == seq!["identify"@, "email"@],
        requested_scopes(OAuthProvider::Apple) == seq!["name"@, "email"@],
        further_parameters(OAuthProvider::Google) == seq![
            ("prompt"@, "consent"@),
            ("access_type"@, "offline"@),
        ],
        further_parameters(OAuthProvider::Discord).len() == 0,
        further_parameters(OAuthProvider::Apple) == seq![("response_mode"@, "form_post"@)],
{
}

/// The models of a profile and of Apple's answer hold each value in its place.
pub proof fn law_answers_keep_their_values(profile: UserProfile, tokens: AppleTokenResponse)
    ensures
        profile@.email == profile.email@,
        profile@.display_name == profile.display_name.deep_view(),
        profile@.avatar_url == profile.avatar_url.deep_view(),
        tokens@.access_token == tokens.access_token@,
        tokens@.token_type == tokens.token_type@,
        tokens@.expires_in == tokens.expires_in,
        tokens@.refresh_token == tokens.refresh_token.deep_view(),
        tokens@.id_token == tokens.id_token.deep_view(),
{
}

/// The model of an attempt to build a client says the same as the attempt.
pub proof fn law_attempts_keep_their_outcome(client: OAuthClient, e: AppError)
    ensures
        attempt_view(Ok(Some(client))) == Ok::<_, AppError<Seq<char>>>(Some(client@)),
        attempt_view(Ok(None)) == Ok::<Option<ClientModel>, AppError<Seq<char>>>(None),
        attempt_view(Err(e)) == Err::<Option<ClientModel>, _>(e@),
{
}

} // verus!
