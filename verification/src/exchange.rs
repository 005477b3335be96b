//! Trading an authorization code for tokens at Apple.
//!
//! The exchange runs in steps: each step says what to do next, and the server reports
//! what came of it.

use vstd::prelude::*;
use vstd::string::*;

use crate::errors::AppError;
use crate::oauth::{generate_apple_client_secret, AppleTokenResponse};
use crate::text::copied;

verus! {

/// The environment variables that the exchange reads, as far as they are set.
#[derive(Debug)]
pub struct AppleEnv<S = String> {
    /// `APPLE_OAUTH_CLIENT_ID`
    pub client_id: Option<S>,
    /// `APPLE_TEAM_ID`
    pub team_id: Option<S>,
    /// `APPLE_KEY_ID`
    pub key_id: Option<S>,
    /// `APPLE_PRIVATE_KEY`
    pub private_key: Option<S>,
    /// `APPLE_REDIRECT_URL`
    pub redirect_url: Option<S>,
}

impl View for AppleEnv {
    type V = AppleEnv<Seq<char>>;

    open spec fn view(&self) -> AppleEnv<Seq<char>> {
        AppleEnv {
            client_id: self.client_id.deep_view(),
            team_id: self.team_id.deep_view(),
            key_id: self.key_id.deep_view(),
            private_key: self.private_key.deep_view(),
            redirect_url: self.redirect_url.deep_view(),
        }
    }
}

/// What this application needs to identify itself to Apple.
#[derive(Debug)]
pub struct AppleCredentials<S = String> {
    pub client_id: S,
    pub team_id: S,
    pub key_id: S,
    pub private_key: S,
}

impl View for AppleCredentials {
    type V = AppleCredentials<Seq<char>>;

    open spec fn view(&self) -> AppleCredentials<Seq<char>> {
        AppleCredentials {
            client_id: self.client_id@,
            team_id: self.team_id@,
            key_id: self.key_id@,
            private_key: self.private_key@,
        }
    }
}

/// The request for tokens: it is posted to `url` as a JSON object of the other fields.
#[derive(Debug)]
pub struct AppleTokenRequest<S = String> {
    pub url: S,
    pub grant_type: S,
    pub code: S,
    pub redirect_uri: S,
    pub client_id: S,
    pub client_secret: S,
}

impl View for AppleTokenRequest {
    type V = AppleTokenRequest<Seq<char>>;

    open spec fn view(&self) -> AppleTokenRequest<Seq<char>> {
        AppleTokenRequest {
            url: self.url@,
            grant_type: self.grant_type@,
            code: self.code@,
            redirect_uri: self.redirect_uri@,
            client_id: self.client_id@,
            client_secret: self.client_secret@,
        }
    }
}

/// How far an exchange has come.
#[derive(Debug, Clone, Copy, PartialEq, Eq, Structural)]
pub enum CodeExchange {
    /// The request is on its way.
    Sending,
    /// Apple has answered.
    Reading,
    /// Nothing is left to do.
    Finished,
}

/// What to do next.
#[derive(Debug)]
pub enum ExchangeAction<S = String> {
    /// Post this request.
    Post(AppleTokenRequest<S>),
    /// Read the answer as JSON.
    ReadAnswer,
    /// The exchange succeeded.
    Done(AppleTokenResponse<S>),
    /// The exchange failed.
    Fail(AppError<S>),
}

impl View for ExchangeAction {
    type V = ExchangeAction<Seq<char>>;

    open spec fn view(&self) -> ExchangeAction<Seq<char>> {
        match self {
            ExchangeAction::Post(request) => ExchangeAction::Post(request@),
            ExchangeAction::ReadAnswer => ExchangeAction::ReadAnswer,
            ExchangeAction::Done(tokens) => ExchangeAction::Done(tokens@),
            ExchangeAction::Fail(e) => ExchangeAction::Fail(e@),
        }
    }
}

/// What came of an action; a failure carries its report.
#[derive(Debug)]
pub enum ExchangeEvent<S = String> {
    /// The request was posted and answered, or not.
    Posted(Result<(), S>),
    /// The answer was read, or could not be.
    AnswerRead(Result<AppleTokenResponse<S>, S>),
}

impl View for ExchangeEvent {
    type V = ExchangeEvent<Seq<char>>;

    open spec fn view(&self) -> ExchangeEvent<Seq<char>> {
        match self {
            ExchangeEvent::Posted(r) => ExchangeEvent::Posted(crate::errors::result_view(*r)),
            ExchangeEvent::AnswerRead(r) => ExchangeEvent::AnswerRead(
                crate::errors::result_view(*r),
            ),
        }
    }
}

/// The credentials in the environment, or the first that is missing.
pub open spec fn credentials_in(env: AppleEnv<Seq<char>>) -> Result<
    AppleCredentials<Seq<char>>,
    AppError<Seq<char>>,
> {
    match (env.client_id, env.team_id, env.key_id, env.private_key) {
        (Some(client_id), Some(team_id), Some(key_id), Some(private_key)) => Ok(
            AppleCredentials { client_id, team_id, key_id, private_key },
        ),
        (None, _, _, _) => Err(AppError::ExternalService("APPLE_OAUTH_CLIENT_ID not set"@)),
        (_, None, _, _) => Err(AppError::ExternalService("APPLE_TEAM_ID not set"@)),
        (_, _, None, _) => Err(AppError::ExternalService("APPLE_KEY_ID not set"@)),
        (_, _, _, None) => Err(AppError::ExternalService("APPLE_PRIVATE_KEY not set"@)),
    }
}

/// The request for tokens that goes with a code and a client secret.
pub open spec fn token_request(
    code: Seq<char>,
    client_id: Seq<char>,
    client_secret: Seq<char>,
    redirect_url: Option<Seq<char>>,
) -> AppleTokenRequest<Seq<char>> {
    AppleTokenRequest {
        url: "https://appleid.apple.com/auth/token"@,
        grant_type: "authorization_code"@,
        code,
        redirect_uri: match redirect_url {
            Some(url) => url,
            None => "https://coolify.nestfeed.app/api/auth/apple_callback"@,
        },
        client_id,
        client_secret,
    }
}

/// How an exchange begins, once the client secret is made or could not be.
pub open spec fn exchange_begins(
    code: Seq<char>,
    client_id: Seq<char>,
    redirect_url: Option<Seq<char>>,
    secret: Result<Seq<char>, AppError<Seq<char>>>,
) -> (CodeExchange, ExchangeAction<Seq<char>>) {
    match secret {
        Ok(s) => (
            CodeExchange::Sending,
            ExchangeAction::Post(token_request(code, client_id, s, redirect_url)),
        ),
        Err(e) => (CodeExchange::Finished, ExchangeAction::Fail(e)),
    }
}

/// How an exchange can begin in this environment: by a request with a client secret made
/// now, or by the failure that prevents it.
pub open spec fn exchange_can_begin(
    env: AppleEnv<Seq<char>>,
    code: Seq<char>,
    begun: (CodeExchange, ExchangeAction<Seq<char>>),
) -> bool {
    match credentials_in(env) {
        Err(e) => begun == (CodeExchange::Finished, ExchangeAction::<Seq<char>>::Fail(e)),
        Ok(c) => exists|secret: Result<Seq<char>, AppError<Seq<char>>>| #[trigger]
            crate::oauth::fresh_client_secret(
                c.team_id,
                c.client_id,
                c.key_id,
                c.private_key,
                secret,
            ) && begun == exchange_begins(code, c.client_id, env.redirect_url, secret),
    }
}

/// An event is accepted in the state that waits for it.
pub open spec fn exchange_accepts(
    state: CodeExchange,
    event: ExchangeEvent<Seq<char>>,
) -> bool {
    match event {
        ExchangeEvent::Posted(_) => state == CodeExchange::Sending,
        ExchangeEvent::AnswerRead(_) => state == CodeExchange::Reading,
    }
}

/// How an exchange goes on. The reports of failures stay inside.
pub open spec fn exchange_goes_on(event: ExchangeEvent<Seq<char>>) -> (
    CodeExchange,
    ExchangeAction<Seq<char>>,
) {
    match event {
        ExchangeEvent::Posted(Ok(_)) => (CodeExchange::Reading, ExchangeAction::ReadAnswer),
        ExchangeEvent::Posted(Err(_)) => (
            CodeExchange::Finished,
            ExchangeAction::Fail(
                AppError::ExternalService("Failed to exchange authorization code"@),
            ),
        ),
        ExchangeEvent::AnswerRead(Ok(tokens)) => (
            CodeExchange::Finished,
            ExchangeAction::Done(tokens),
        ),
        ExchangeEvent::AnswerRead(Err(_)) => (
            CodeExchange::Finished,
            ExchangeAction::Fail(AppError::ExternalService("Invalid token response"@)),
        ),
    }
}

/// The credentials in the environment, or the first that is missing.
pub fn apple_credentials(env: AppleEnv) -> (credentials: Result<AppleCredentials, AppError>)
    ensures
        crate::errors::result_view(credentials) == credentials_in(env@),
{
    let client_id: String = match env.client_id {
        Some(id) => id,
        None => {
            return Err(AppError::ExternalService("APPLE_OAUTH_CLIENT_ID not set".to_owned()));
        },
    };
    let team_id: String = match env.team_id {
        Some(id) => id,
        None => {
            return Err(AppError::ExternalService("APPLE_TEAM_ID not set".to_owned()));
        },
    };
    let key_id: String = match env.key_id {
        Some(id) => id,
        None => {
            return Err(AppError::ExternalService("APPLE_KEY_ID not set".to_owned()));
        },
    };
    let private_key: String = match env.private_key {
        Some(key) => key,
        None => {
            return Err(AppError::ExternalService("APPLE_PRIVATE_KEY not set".to_owned()));
        },
    };
    Ok(AppleCredentials { client_id, team_id, key_id, private_key })
}

impl CodeExchange {
    /// Begins an exchange for which the client secret is made, or could not be.
    pub fn begin(
        code: String,
        client_id: String,
        redirect_url: Option<String>,
        secret: Result<String, AppError>,
    ) -> (r: (CodeExchange, ExchangeAction))
        ensures
            (r.0, r.1@) == exchange_begins(
                code@,
                client_id@,
                redirect_url.deep_view(),
                crate::errors::result_view(secret),
            ),
    {
        match secret {
            Ok(client_secret) => (
                CodeExchange::Sending,
                ExchangeAction::Post(
                    AppleTokenRequest {
                        url: "https://appleid.apple.com/auth/token".to_owned(),
                        grant_type: "authorization_code".to_owned(),
                        code,
                        redirect_uri: match redirect_url {
                            Some(url) => url,
                            None => {
                                "https://coolify.nestfeed.app/api/auth/apple_callback".to_owned()
                            },
                        },
                        client_id,
                        client_secret,
                    },
                ),
            ),
            Err(e) => (CodeExchange::Finished, ExchangeAction::Fail(e)),
        }
    }

    /// Whether the event is one that the exchange waits for.
    pub fn accepts(&self, event: &ExchangeEvent) -> (accepted: bool)
        ensures
            accepted == exchange_accepts(*self, event@),
    {
        match event {
            ExchangeEvent::Posted(_) => match self {
                CodeExchange::Sending => true,
                _ => false,
            },
            ExchangeEvent::AnswerRead(_) => match self {
                CodeExchange::Reading => true,
                _ => false,
            },
        }
    }

    /// Goes on after an event.
    pub fn step(self, event: ExchangeEvent) -> (r: (CodeExchange, ExchangeAction))
        requires
            exchange_accepts(self, event@),
        ensures
            (r.0, r.1@) == exchange_goes_on(event@),
    {
        match event {
            ExchangeEvent::Posted(Ok(_)) => (CodeExchange::Reading, ExchangeAction::ReadAnswer),
            ExchangeEvent::Posted(Err(_)) => (
                CodeExchange::Finished,
                ExchangeAction::Fail(
                    AppError::ExternalService("Failed to exchange authorization code".to_owned()),
                ),
            ),
            ExchangeEvent::AnswerRead(Ok(tokens)) => (
                CodeExchange::Finished,
                ExchangeAction::Done(tokens),
            ),
            ExchangeEvent::AnswerRead(Err(_)) => (
                CodeExchange::Finished,
                ExchangeAction::Fail(
                    AppError::ExternalService("Invalid token response".to_owned()),
                ),
            ),
        }
    }
}

/// Begins to trade a code for tokens, with a client secret made now.
pub fn exchange_apple_code(env: AppleEnv, code: String) -> (r: (CodeExchange, ExchangeAction))
    ensures
        exchange_can_begin(env@, code@, (r.0, r.1@)),
{
    let redirect_url: Option<String> = copied(&env.redirect_url);
    match apple_credentials(env) {
        Ok(c) => {
            let secret: Result<String, AppError> = generate_apple_client_secret(
                c.team_id.as_str(),
                c.client_id.as_str(),
                c.key_id.as_str(),
                c.private_key.as_str(),
            );
            let ghost model = crate::errors::result_view(secret);
            let ghost known = c@;
            let r: (CodeExchange, ExchangeAction) = CodeExchange::begin(
                code,
                c.client_id,
                redirect_url,
                secret,
            );
            proof {
                let begun = (r.0, r.1@);
                assert(credentials_in(env@)->Ok_0 == known);
                assert(crate::oauth::fresh_client_secret(
                    known.team_id,
                    known.client_id,
                    known.key_id,
                    known.private_key,
                    model,
                ));
                assert(exchange_can_begin(env@, code@, begun));
            }
            r
        },
        Err(e) => (CodeExchange::Finished, ExchangeAction::Fail(e)),
    }
}

/// A request is posted only where all credentials are set. It carries the code and the
/// identifier of the application.
pub proof fn law_exchange_needs_all_credentials(
    env: AppleEnv<Seq<char>>,
    code: Seq<char>,
    begun: (CodeExchange, ExchangeAction<Seq<char>>),
)
    requires
        exchange_can_begin(env, code, begun),
    ensures
        begun.1 matches ExchangeAction::Post(request) ==> {
            &&& env.client_id == Some(request.client_id)
            &&& env.team_id is Some && env.key_id is Some && env.private_key is Some
            &&& request == token_request(
                code,
                request.client_id,
                request.client_secret,
                env.redirect_url,
            )
        },
{
}

/// A code is traded where the Apple client trades codes, and with the redirect URL that
/// the user was sent to Apple with.
pub proof fn law_exchange_matches_the_client(
    code: Seq<char>,
    client_id: Seq<char>,
    client_secret: Seq<char>,
    redirect_url: Option<Seq<char>>,
)
    ensures
        ({
            let request = token_request(code, client_id, client_secret, redirect_url);
            let client = crate::oauth::client_model(
                crate::oauth::OAuthProvider::Apple,
                client_id,
                client_secret,
                redirect_url,
            );
            &&& request.url == client.token_url
            &&& request.redirect_uri == client.redirect_url
        }),
{
}

/// An exchange ends with tokens only where Apple's answer held them, and nothing more is
/// done after an end.
pub proof fn law_tokens_come_from_apples_answer(
    state: CodeExchange,
    event: ExchangeEvent<Seq<char>>,
)
    requires
        exchange_accepts(state, event),
    ensures
        exchange_goes_on(event).1 matches ExchangeAction::Done(tokens) ==> state
            == CodeExchange::Reading && event == ExchangeEvent::AnswerRead(
            Ok::<_, Seq<char>>(tokens),
        ),
        exchange_goes_on(event).0 == CodeExchange::Finished <==> (exchange_goes_on(event).1 is Done
            || exchange_goes_on(event).1 is Fail),
        state != CodeExchange::Finished,
{
}

/// The first variable that is missing is reported, in the order client, team, key and
/// private key, and all four are the credentials where none is missing.
pub proof fn law_missing_credentials_are_reported(env: AppleEnv<Seq<char>>)
    ensures
        env.client_id is None ==> credentials_in(env) == Err::<AppleCredentials<Seq<char>>, _>(
            AppError::ExternalService("APPLE_OAUTH_CLIENT_ID not set"@),
        ),
        env.client_id is Some && env.team_id is None ==> credentials_in(env) == Err::<
            AppleCredentials<Seq<char>>,
            _,
        >(AppError::ExternalService("APPLE_TEAM_ID not set"@)),
        env.client_id is Some && env.team_id is Some && env.key_id is None ==> credentials_in(env)
            == Err::<AppleCredentials<Seq<char>>, _>(
            AppError::ExternalService("APPLE_KEY_ID not set"@),
        ),
        env.client_id is Some && env.team_id is Some && env.key_id is Some && env.private_key is None
            ==> credentials_in(env) == Err::<AppleCredentials<Seq<char>>, _>(
            AppError::ExternalService("APPLE_PRIVATE_KEY not set"@),
        ),
        env.client_id is Some && env.team_id is Some && env.key_id is Some && env.private_key is Some
            ==> credentials_in(env) == Ok::<_, AppError<Seq<char>>>(
            AppleCredentials {
                client_id: env.client_id->0,
                team_id: env.team_id->0,
                key_id: env.key_id->0,
                private_key: env.private_key->0,
            },
        ),
{
}

/// An exchange with a secret posts the code, the identifier and the secret to Apple, and
/// the redirect URL that is configured or else the callback. Without a secret it ends with
/// the failure at once.
pub proof fn law_code_is_posted_to_apple(
    code: Seq<char>,
    client_id: Seq<char>,
    secret: Seq<char>,
    redirect_url: Seq<char>,
    configured: Option<Seq<char>>,
    e: AppError<Seq<char>>,
)
    ensures
        exchange_begins(code, client_id, Some(redirect_url), Ok(secret)) == (
            CodeExchange::Sending,
            ExchangeAction::Post(
                AppleTokenRequest {
                    url: "https://appleid.apple.com/auth/token"@,
                    grant_type: "authorization_code"@,
                    code,
                    redirect_uri: redirect_url,
                    client_id,
                    client_secret: secret,
                },
            ),
        ),
        exchange_begins(code, client_id, None, Ok(secret)) == (
            CodeExchange::Sending,
            ExchangeAction::Post(
                AppleTokenRequest {
                    url: "https://appleid.apple.com/auth/token"@,
                    grant_type: "authorization_code"@,
                    code,
                    redirect_uri: "https://coolify.nestfeed.app/api/auth/apple_callback"@,
                    client_id,
                    client_secret: secret,
                },
            ),
        ),
        exchange_begins(code, client_id, configured, Err(e)) == (
            CodeExchange::Finished,
            ExchangeAction::<Seq<char>>::Fail(e),
        ),
{
}

/// A posted request leads to the reading of the answer, and an answer to its tokens. A
/// failure ends the exchange with a fixed report.
pub proof fn law_exchange_steps(tokens: AppleTokenResponse<Seq<char>>, e: Seq<char>)
    ensures
        exchange_goes_on(ExchangeEvent::Posted(Ok(()))) == (
            CodeExchange::Reading,
            ExchangeAction::<Seq<char>>::ReadAnswer,
        ),
        exchange_goes_on(ExchangeEvent::Posted(Err(e))) == (
            CodeExchange::Finished,
            ExchangeAction::Fail(
                AppError::ExternalService("Failed to exchange authorization code"@),
            ),
        ),
        exchange_goes_on(ExchangeEvent::AnswerRead(Ok(tokens))) == (
            CodeExchange::Finished,
            ExchangeAction::Done(tokens),
        ),
        exchange_goes_on(ExchangeEvent::AnswerRead(Err(e))) == (
            CodeExchange::Finished,
            ExchangeAction::Fail(AppError::ExternalService("Invalid token response"@)),
        ),
{
}

/// While a request is on its way only word of it is awaited, and then only the answer.
pub proof fn law_exchange_waits_for_one_event(
    posted: Result<(), Seq<char>>,
    read: Result<AppleTokenResponse<Seq<char>>, Seq<char>>,
)
    ensures
        exchange_accepts(CodeExchange::Sending, ExchangeEvent::Posted(posted)),
        !exchange_accepts(CodeExchange::Sending, ExchangeEvent::AnswerRead(read)),
        exchange_accepts(CodeExchange::Reading, ExchangeEvent::AnswerRead(read)),
        !exchange_accepts(CodeExchange::Reading, ExchangeEvent::Posted(posted)),
        !exchange_accepts(CodeExchange::Finished, ExchangeEvent::Posted(posted)),
        !exchange_accepts(CodeExchange::Finished, ExchangeEvent::AnswerRead(read)),
{
}

/// In an environment with all credentials an exchange begins with a secret made for the
/// team, the application and the key of that environment; in any other it ends at once.
pub proof fn law_exchange_uses_the_environment(
    env: AppleEnv<Seq<char>>,
    code: Seq<char>,
    begun: (CodeExchange, ExchangeAction<Seq<char>>),
)
    requires
        exchange_can_begin(env, code, begun),
    ensures
        env.client_id is Some && env.team_id is Some && env.key_id is Some && env.private_key is Some
            ==> exists|secret: Result<Seq<char>, AppError<Seq<char>>>| #[trigger]
            crate::oauth::fresh_client_secret(
                env.team_id->0,
                env.client_id->0,
                env.key_id->0,
                env.private_key->0,
                secret,
            ) && begun == exchange_begins(code, env.client_id->0, env.redirect_url, secret),
        env.client_id is None || env.team_id is None || env.key_id is None || env.private_key is None
            ==> begun.0 == CodeExchange::Finished && begun.1 is Fail,
{
}

/// The models of the environment, the credentials and the request hold each value in its
/// place.
pub proof fn law_requests_keep_their_values(
    env: AppleEnv,
    credentials: AppleCredentials,
    request: AppleTokenRequest,
)
    ensures
        env@.client_id == env.client_id.deep_view(),
        env@.team_id == env.team_id.deep_view(),
        env@.key_id == env.key_id.deep_view(),
        env@.private_key == env.private_key.deep_view(),
        env@.redirect_url == env.redirect_url.deep_view(),
        credentials@.client_id == credentials.client_id@,
        credentials@.team_id == credentials.team_id@,
        credentials@.key_id == credentials.key_id@,
        credentials@.private_key == credentials.private_key@,
        request@.url == request.url@,
        request@.grant_type == request.grant_type@,
        request@.code == request.code@,
        request@.redirect_uri == request.redirect_uri@,
        request@.client_id == request.client_id@,
        request@.client_secret == request.client_secret@,
{
}

/// The models of actions and events hold what these hold.
pub proof fn law_exchange_models(
    request: AppleTokenRequest,
    tokens: AppleTokenResponse,
    e: AppError,
    report: String,
)
    ensures
        ExchangeAction::Post(request)@ == ExchangeAction::Post(request@),
        ExchangeAction::<String>::ReadAnswer@ == ExchangeAction::<Seq<char>>::ReadAnswer,
        ExchangeAction::Done(tokens)@ == ExchangeAction::Done(tokens@),
        ExchangeAction::Fail(e)@ == ExchangeAction::Fail(e@),
        ExchangeEvent::<String>::Posted(Ok(()))@ matches ExchangeEvent::Posted(Ok(_)),
        ExchangeEvent::Posted(Err(report))@ == ExchangeEvent::Posted(Err(report@)),
        ExchangeEvent::<String>::AnswerRead(Ok(tokens))@ == ExchangeEvent::<Seq<char>>::AnswerRead(
            Ok(tokens@),
        ),
        ExchangeEvent::AnswerRead(Err(report))@ == ExchangeEvent::AnswerRead(Err(report@)),
{
}

} // verus!
