//! Keeping the session of a user who signed in with a provider.
//!
//! The update runs in steps: each step says what to do next, and the server reports what
//! came of it. The user is looked up by e-mail address and created where there is none.

use vstd::pervasive::unreached;
use vstd::prelude::*;
use vstd::string::*;

use crate::errors::AppError;
use crate::oauth::OAuthProvider;
use crate::outside::{calendar_holds, random_uuid};

verus! {

/// What is to be kept of a sign-in. `expires_at` counts seconds since the start of 1970.
#[derive(Debug)]
pub struct SignedIn<S = String> {
    pub email: S,
    pub access_token: S,
    pub expires_at: i64,
    pub refresh_token: S,
    pub provider: OAuthProvider,
    pub original_email: S,
}

impl View for SignedIn {
    type V = SignedIn<Seq<char>>;

    open spec fn view(&self) -> SignedIn<Seq<char>> {
        SignedIn {
            email: self.email@,
            access_token: self.access_token@,
            expires_at: self.expires_at,
            refresh_token: self.refresh_token@,
            provider: self.provider,
            original_email: self.original_email@,
        }
    }
}

/// A session as it is stored, one for each user and provider.
#[derive(Debug)]
pub struct SessionRow<S = String> {
    pub user_id: S,
    pub session_id: S,
    pub refresh_token: S,
    pub expires_at: i64,
    pub provider: S,
    pub original_email: S,
}

impl View for SessionRow {
    type V = SessionRow<Seq<char>>;

    open spec fn view(&self) -> SessionRow<Seq<char>> {
        SessionRow {
            user_id: self.user_id@,
            session_id: self.session_id@,
            refresh_token: self.refresh_token@,
            expires_at: self.expires_at,
            provider: self.provider@,
            original_email: self.original_email@,
        }
    }
}

/// Which values of a session that is stored already for the user and the provider give way
/// to the new ones.
#[derive(Debug, Clone, Copy, PartialEq, Eq, Structural)]
pub struct ReplacedValues {
    pub session_id: bool,
    pub refresh_token: bool,
    pub expires_at: bool,
    pub original_email: bool,
}

/// How far an update has come.
#[derive(Debug)]
pub enum SessionUpdate<S = String> {
    /// The user is being looked up.
    FindingUser(SignedIn<S>),
    /// The user is being created with this identifier.
    CreatingUser { sign_in: SignedIn<S>, user_id: S },
    /// The session is being stored.
    Saving,
    /// Nothing is left to do.
    Finished,
}

impl View for SessionUpdate {
    type V = SessionUpdate<Seq<char>>;

    open spec fn view(&self) -> SessionUpdate<Seq<char>> {
        match self {
            SessionUpdate::FindingUser(sign_in) => SessionUpdate::FindingUser(sign_in@),
            SessionUpdate::CreatingUser { sign_in, user_id } => SessionUpdate::CreatingUser {
                sign_in: sign_in@,
                user_id: user_id@,
            },
            SessionUpdate::Saving => SessionUpdate::Saving,
            SessionUpdate::Finished => SessionUpdate::Finished,
        }
    }
}

/// What to do next.
#[derive(Debug)]
pub enum SessionAction<S = String> {
    /// Look up the identifier of the user with this e-mail address.
    FindUser { email: S },
    /// Create a user; `is_sso_user` says whether they sign in through a provider.
    CreateUser { id: S, email: S, is_sso_user: bool },
    /// Store the session. Where there is one already for the user and the provider, only
    /// the values in `replaced` change.
    SaveSession { row: SessionRow<S>, replaced: ReplacedValues },
    /// The session is stored.
    Done,
    /// The update failed.
    Fail(AppError<S>),
}

impl View for SessionAction {
    type V = SessionAction<Seq<char>>;

    open spec fn view(&self) -> SessionAction<Seq<char>> {
        match self {
            SessionAction::FindUser { email } => SessionAction::FindUser { email: email@ },
            SessionAction::CreateUser { id, email, is_sso_user } => SessionAction::CreateUser {
                id: id@,
                email: email@,
                is_sso_user: *is_sso_user,
            },
            SessionAction::SaveSession { row, replaced } => SessionAction::SaveSession {
                row: row@,
                replaced: *replaced,
            },
            SessionAction::Done => SessionAction::Done,
            SessionAction::Fail(e) => SessionAction::Fail(e@),
        }
    }
}

/// What came of an action; a failure carries the database's report.
#[derive(Debug)]
pub enum SessionEvent<S = String> {
    /// The user was found, or there is none, or the lookup failed.
    UserLookedUp(Result<Option<S>, S>),
    /// The user was created, or not.
    UserCreated(Result<(), S>),
    /// The session was stored, or not.
    SessionSaved(Result<(), S>),
}

impl View for SessionEvent {
    type V = SessionEvent<Seq<char>>;

    open spec fn view(&self) -> SessionEvent<Seq<char>> {
        match self {
            SessionEvent::UserLookedUp(Ok(found)) => SessionEvent::UserLookedUp(
                Ok(found.deep_view()),
            ),
            SessionEvent::UserLookedUp(Err(e)) => SessionEvent::UserLookedUp(Err(e@)),
            SessionEvent::UserCreated(r) => SessionEvent::UserCreated(
                crate::errors::result_view(*r),
            ),
            SessionEvent::SessionSaved(r) => SessionEvent::SessionSaved(
                crate::errors::result_view(*r),
            ),
        }
    }
}

/// The session of a user after a sign-in: the access token identifies it.
pub open spec fn session_row(sign_in: SignedIn<Seq<char>>, user_id: Seq<char>) -> SessionRow<
    Seq<char>,
> {
    SessionRow {
        user_id,
        session_id: sign_in.access_token,
        refresh_token: sign_in.refresh_token,
        expires_at: sign_in.expires_at,
        provider: crate::oauth::provider_name(sign_in.provider),
        original_email: sign_in.original_email,
    }
}

/// A new sign-in replaces all of an earlier session but the address that it came with.
pub open spec fn replaced_by_sign_in() -> ReplacedValues {
    ReplacedValues {
        session_id: true,
        refresh_token: true,
        expires_at: true,
        original_email: false,
    }
}

/// The session is stored for this user.
pub open spec fn session_to_save(sign_in: SignedIn<Seq<char>>, user_id: Seq<char>) -> SessionAction<
    Seq<char>,
> {
    SessionAction::SaveSession {
        row: session_row(sign_in, user_id),
        replaced: replaced_by_sign_in(),
    }
}

/// What is stored after a row was saved, `existing` being what was stored before for the
/// same user and provider.
pub open spec fn stored_session(
    existing: Option<SessionRow<Seq<char>>>,
    row: SessionRow<Seq<char>>,
    replaced: ReplacedValues,
) -> SessionRow<Seq<char>> {
    match existing {
        None => row,
        Some(before) => SessionRow {
            user_id: before.user_id,
            session_id: if replaced.session_id {
                row.session_id
            } else {
                before.session_id
            },
            refresh_token: if replaced.refresh_token {
                row.refresh_token
            } else {
                before.refresh_token
            },
            expires_at: if replaced.expires_at {
                row.expires_at
            } else {
                before.expires_at
            },
            provider: before.provider,
            original_email: if replaced.original_email {
                row.original_email
            } else {
                before.original_email
            },
        },
    }
}

/// The event says that the user is known, so the session can be stored.
pub open spec fn user_known(event: SessionEvent<Seq<char>>) -> bool {
    match event {
        SessionEvent::UserLookedUp(Ok(Some(_))) => true,
        SessionEvent::UserCreated(Ok(_)) => true,
        _ => false,
    }
}

/// An event is accepted in the state that waits for it. A session can be stored only
/// where the calendar holds the time at which it expires.
pub open spec fn session_accepts(
    state: SessionUpdate<Seq<char>>,
    event: SessionEvent<Seq<char>>,
) -> bool {
    match (state, event) {
        (SessionUpdate::FindingUser(sign_in), SessionEvent::UserLookedUp(_)) => user_known(event)
            ==> crate::outside::calendar_seconds(sign_in.expires_at),
        (
            SessionUpdate::CreatingUser { sign_in, .. },
            SessionEvent::UserCreated(_),
        ) => user_known(event) ==> crate::outside::calendar_seconds(sign_in.expires_at),
        (SessionUpdate::Saving, SessionEvent::SessionSaved(_)) => true,
        _ => false,
    }
}

/// A user has to be created, so an identifier is needed.
pub open spec fn needs_identifier(event: SessionEvent<Seq<char>>) -> bool {
    event == SessionEvent::<Seq<char>>::UserLookedUp(Ok(None))
}

/// How an update begins.
pub open spec fn session_begins(sign_in: SignedIn<Seq<char>>) -> (
    SessionUpdate<Seq<char>>,
    SessionAction<Seq<char>>,
) {
    (SessionUpdate::FindingUser(sign_in), SessionAction::FindUser { email: sign_in.email })
}

/// How an update goes on; `fresh_id` is the identifier of a user who has to be created.
pub open spec fn session_goes_on(
    state: SessionUpdate<Seq<char>>,
    event: SessionEvent<Seq<char>>,
    fresh_id: Seq<char>,
) -> (SessionUpdate<Seq<char>>, SessionAction<Seq<char>>) {
    match event {
        SessionEvent::UserLookedUp(Ok(Some(user_id))) => (
            SessionUpdate::Saving,
            session_to_save(state->FindingUser_0, user_id),
        ),
        SessionEvent::UserLookedUp(Ok(None)) => (
            SessionUpdate::CreatingUser { sign_in: state->FindingUser_0, user_id: fresh_id },
            SessionAction::CreateUser {
                id: fresh_id,
                email: state->FindingUser_0.email,
                is_sso_user: true,
            },
        ),
        SessionEvent::UserLookedUp(Err(e)) => (
            SessionUpdate::Finished,
            SessionAction::Fail(
                AppError::Database { message: "Failed to fetch user by email"@, cause: Some(e) },
            ),
        ),
        SessionEvent::UserCreated(Ok(_)) => (
            SessionUpdate::Saving,
            session_to_save(state->CreatingUser_sign_in, state->CreatingUser_user_id),
        ),
        SessionEvent::UserCreated(Err(e)) => (
            SessionUpdate::Finished,
            SessionAction::Fail(
                AppError::Database { message: "Failed to create user"@, cause: Some(e) },
            ),
        ),
        SessionEvent::SessionSaved(Ok(_)) => (SessionUpdate::Finished, SessionAction::Done),
        SessionEvent::SessionSaved(Err(e)) => (
            SessionUpdate::Finished,
            SessionAction::Fail(
                AppError::Database {
                    message: "Failed to upsert user session: "@ + e,
                    cause: None,
                },
            ),
        ),
    }
}

/// Has the session of a user stored after a sign-in.
fn save_for(sign_in: SignedIn, user_id: String) -> (action: SessionAction)
    ensures
        action@ == session_to_save(sign_in@, user_id@),
{
    SessionAction::SaveSession {
        row: SessionRow {
            user_id,
            session_id: sign_in.access_token,
            refresh_token: sign_in.refresh_token,
            expires_at: sign_in.expires_at,
            provider: sign_in.provider.as_str().to_owned(),
            original_email: sign_in.original_email,
        },
        replaced: ReplacedValues {
            session_id: true,
            refresh_token: true,
            expires_at: true,
            original_email: false,
        },
    }
}

/// Begins to keep the session of a user who signed in.
pub fn update_user_session(sign_in: SignedIn) -> (r: (SessionUpdate, SessionAction))
    ensures
        (r.0@, r.1@) == session_begins(sign_in@),
{
    let email: String = sign_in.email.clone();
    (SessionUpdate::FindingUser(sign_in), SessionAction::FindUser { email })
}

impl SessionUpdate {
    /// Whether the event is one that the update waits for, and can go on from.
    pub fn accepts(&self, event: &SessionEvent) -> (accepted: bool)
        ensures
            accepted == session_accepts(self@, event@),
    {
        match (self, event) {
            (SessionUpdate::FindingUser(sign_in), SessionEvent::UserLookedUp(found)) => {
                match found {
                    Ok(Some(_)) => calendar_holds(sign_in.expires_at),
                    _ => true,
                }
            },
            (SessionUpdate::CreatingUser { sign_in, .. }, SessionEvent::UserCreated(created)) => {
                match created {
                    Ok(_) => calendar_holds(sign_in.expires_at),
                    Err(_) => true,
                }
            },
            (SessionUpdate::Saving, SessionEvent::SessionSaved(_)) => true,
            _ => false,
        }
    }

    /// Goes on after an event; `fresh_id` is the identifier of a user who has to be
    /// created.
    pub fn step_with_id(self, event: SessionEvent, fresh_id: String) -> (r: (
        SessionUpdate,
        SessionAction,
    ))
        requires
            session_accepts(self@, event@),
        ensures
            (r.0@, r.1@) == session_goes_on(self@, event@, fresh_id@),
    {
        let failure: AppError = match (self, event) {
            (
                SessionUpdate::FindingUser(sign_in),
                SessionEvent::UserLookedUp(Ok(Some(user_id))),
            ) => {
                return (SessionUpdate::Saving, save_for(sign_in, user_id));
            },
            (SessionUpdate::FindingUser(sign_in), SessionEvent::UserLookedUp(Ok(None))) => {
                let email: String = sign_in.email.clone();
                let id: String = fresh_id.clone();
                return (
                    SessionUpdate::CreatingUser { sign_in, user_id: fresh_id },
                    SessionAction::CreateUser { id, email, is_sso_user: true },
                );
            },
            (_, SessionEvent::UserLookedUp(Err(e))) => AppError::Database {
                message: "Failed to fetch user by email".to_owned(),
                cause: Some(e),
            },
            (
                SessionUpdate::CreatingUser { sign_in, user_id },
                SessionEvent::UserCreated(Ok(_)),
            ) => {
                return (SessionUpdate::Saving, save_for(sign_in, user_id));
            },
            (_, SessionEvent::UserCreated(Err(e))) => AppError::Database {
                message: "Failed to create user".to_owned(),
                cause: Some(e),
            },
            (_, SessionEvent::SessionSaved(Ok(_))) => {
                return (SessionUpdate::Finished, SessionAction::Done);
            },
            (_, SessionEvent::SessionSaved(Err(e))) => AppError::Database {
                message: "Failed to upsert user session: ".to_owned().concat(e.as_str()),
                cause: None,
            },
            _ => unreached(),
        };
        (SessionUpdate::Finished, SessionAction::Fail(failure))
    }

    /// Goes on after an event. A user who has to be created gets a random identifier.
    pub fn step(self, event: SessionEvent) -> (r: (SessionUpdate, SessionAction))
        requires
            session_accepts(self@, event@),
        ensures
            exists|fresh_id: Seq<char>|
                (needs_identifier(event@) ==> crate::outside::uuid_shaped(fresh_id)) && (
                r.0@,
                r.1@,
                ) == #[trigger] session_goes_on(self@, event@, fresh_id),
    {
        let fresh_id: String = match event {
            SessionEvent::UserLookedUp(Ok(None)) => random_uuid(),
            _ => String::new(),
        };
        self.step_with_id(event, fresh_id)
    }
}

/// Where an update stands after these events, each with the identifier that was at hand.
pub open spec fn session_after(
    sign_in: SignedIn<Seq<char>>,
    events: Seq<(SessionEvent<Seq<char>>, Seq<char>)>,
) -> (SessionUpdate<Seq<char>>, SessionAction<Seq<char>>)
    decreases events.len(),
{
    if events.len() == 0 {
        session_begins(sign_in)
    } else {
        session_goes_on(
            session_after(sign_in, events.drop_last()).0,
            events.last().0,
            events.last().1,
        )
    }
}

/// Each of these events came when the update waited for it.
pub open spec fn session_events_accepted(
    sign_in: SignedIn<Seq<char>>,
    events: Seq<(SessionEvent<Seq<char>>, Seq<char>)>,
) -> bool
    decreases events.len(),
{
    events.len() == 0 || (session_events_accepted(sign_in, events.drop_last())
        && session_accepts(session_after(sign_in, events.drop_last()).0, events.last().0))
}

/// An update asks for a user to be created only after the lookup found none, and stores
/// only the session of the sign-in that it began with, for the user who was found or for
/// the one whose creation was confirmed.
pub proof fn law_session_is_stored_for_the_right_user(
    sign_in: SignedIn<Seq<char>>,
    events: Seq<(SessionEvent<Seq<char>>, Seq<char>)>,
)
    requires
        session_events_accepted(sign_in, events),
    ensures
        session_after(sign_in, events).1 matches SessionAction::CreateUser {
            id,
            email,
            is_sso_user,
        } ==> {
            &&& is_sso_user
            &&& events.len() == 1
            &&& events[0] == (SessionEvent::UserLookedUp(Ok::<_, Seq<char>>(None)), id)
            &&& email == sign_in.email
        },
        session_after(sign_in, events).1 matches SessionAction::SaveSession { row, .. } ==> {
            ||| events.len() == 1 && events[0].0 == SessionEvent::UserLookedUp(
                Ok::<_, Seq<char>>(Some(row.user_id)),
            ) && row == session_row(sign_in, row.user_id)
            ||| events.len() == 2 && events[0] == (
                SessionEvent::UserLookedUp(Ok::<_, Seq<char>>(None)),
                row.user_id,
            ) && (events[1].0 matches SessionEvent::UserCreated(Ok(_)))
                && row == session_row(sign_in, row.user_id)
        },
    decreases events.len(),
{
    lemma_session_states(sign_in, events);
    if events.len() > 0 {
        lemma_session_states(sign_in, events.drop_last());
        if events.len() == 2 {
            assert(events.drop_last()[0] == events[0]);
        }
    }
}

/// An update ends with success only if the session of the sign-in was stored.
pub proof fn law_done_means_stored(
    sign_in: SignedIn<Seq<char>>,
    events: Seq<(SessionEvent<Seq<char>>, Seq<char>)>,
)
    requires
        session_events_accepted(sign_in, events),
        session_after(sign_in, events).1 is Done,
    ensures
        events.last().0 matches SessionEvent::SessionSaved(Ok(_)),
        session_after(sign_in, events.drop_last()).1 matches SessionAction::SaveSession { row, .. }
            && row == session_row(sign_in, row.user_id),
{
    lemma_session_states(sign_in, events);
    lemma_session_states(sign_in, events.drop_last());
    law_session_is_stored_for_the_right_user(sign_in, events.drop_last());
}

/// Whatever session is saved, the address that the first sign-in of the user with the
/// provider came with stays; the tokens and the expiry are those of this sign-in. Where
/// nothing was stored, all of it is stored.
pub proof fn law_first_address_is_kept(
    sign_in: SignedIn<Seq<char>>,
    events: Seq<(SessionEvent<Seq<char>>, Seq<char>)>,
    existing: Option<SessionRow<Seq<char>>>,
)
    requires
        session_events_accepted(sign_in, events),
        session_after(sign_in, events).1 is SaveSession,
    ensures
        ({
            let save = session_after(sign_in, events).1;
            let stored = stored_session(
                existing,
                save->SaveSession_row,
                save->SaveSession_replaced,
            );
            &&& stored.session_id == sign_in.access_token
            &&& stored.refresh_token == sign_in.refresh_token
            &&& stored.expires_at == sign_in.expires_at
            &&& stored.original_email == match existing {
                Some(before) => before.original_email,
                None => sign_in.original_email,
            }
            &&& existing is None ==> stored == save->SaveSession_row
        }),
{
    lemma_session_states(sign_in, events);
    if events.len() > 0 {
        lemma_session_states(sign_in, events.drop_last());
    }
}

/// What each state of an update says of the events before it.
proof fn lemma_session_states(
    sign_in: SignedIn<Seq<char>>,
    events: Seq<(SessionEvent<Seq<char>>, Seq<char>)>,
)
    requires
        session_events_accepted(sign_in, events),
    ensures
        match session_after(sign_in, events).0 {
            SessionUpdate::FindingUser(kept) => events.len() == 0 && kept == sign_in,
            SessionUpdate::CreatingUser { sign_in: kept, user_id } => kept == sign_in
                && events.len() == 1 && events[0] == (
                SessionEvent::UserLookedUp(Ok::<_, Seq<char>>(None)),
                user_id,
            ),
            SessionUpdate::Saving => session_after(sign_in, events).1 is SaveSession,
            SessionUpdate::Finished => true,
        },
    decreases events.len(),
{
    if events.len() > 0 {
        lemma_session_states(sign_in, events.drop_last());
    }
}

/// A user who was found gets the session at once. One who was not is created first, under
/// the identifier at hand, as a user who signs in through a provider, and gets the session
/// once that is confirmed.
pub proof fn law_session_steps(
    sign_in: SignedIn<Seq<char>>,
    user_id: Seq<char>,
    fresh_id: Seq<char>,
    provider: Seq<char>,
)
    requires
        sign_in.provider == OAuthProvider::Google ==> provider == "google"@,
        sign_in.provider == OAuthProvider::Discord ==> provider == "discord"@,
        sign_in.provider == OAuthProvider::Apple ==> provider == "apple"@,
    ensures
        session_begins(sign_in) == (
            SessionUpdate::FindingUser(sign_in),
            SessionAction::FindUser { email: sign_in.email },
        ),
        session_goes_on(
            SessionUpdate::FindingUser(sign_in),
            SessionEvent::UserLookedUp(Ok(Some(user_id))),
            fresh_id,
        ) == (
            SessionUpdate::<Seq<char>>::Saving,
            SessionAction::SaveSession {
                row: SessionRow {
                    user_id,
                    session_id: sign_in.access_token,
                    refresh_token: sign_in.refresh_token,
                    expires_at: sign_in.expires_at,
                    provider,
                    original_email: sign_in.original_email,
                },
                replaced: ReplacedValues {
                    session_id: true,
                    refresh_token: true,
                    expires_at: true,
                    original_email: false,
                },
            },
        ),
        session_goes_on(
            SessionUpdate::FindingUser(sign_in),
            SessionEvent::UserLookedUp(Ok(None)),
            fresh_id,
        ) == (
            SessionUpdate::CreatingUser { sign_in, user_id: fresh_id },
            SessionAction::CreateUser { id: fresh_id, email: sign_in.email, is_sso_user: true },
        ),
        session_goes_on(
            SessionUpdate::CreatingUser { sign_in, user_id },
            SessionEvent::UserCreated(Ok(())),
            fresh_id,
        ) == (
            SessionUpdate::<Seq<char>>::Saving,
            SessionAction::SaveSession {
                row: SessionRow {
                    user_id,
                    session_id: sign_in.access_token,
                    refresh_token: sign_in.refresh_token,
                    expires_at: sign_in.expires_at,
                    provider,
                    original_email: sign_in.original_email,
                },
                replaced: ReplacedValues {
                    session_id: true,
                    refresh_token: true,
                    expires_at: true,
                    original_email: false,
                },
            },
        ),
        session_goes_on(SessionUpdate::Saving, SessionEvent::SessionSaved(Ok(())), fresh_id) == (
            SessionUpdate::<Seq<char>>::Finished,
            SessionAction::<Seq<char>>::Done,
        ),
{
}

/// What is reported where the database fails.
pub proof fn law_session_failures(
    state: SessionUpdate<Seq<char>>,
    e: Seq<char>,
    fresh_id: Seq<char>,
)
    ensures
        session_goes_on(state, SessionEvent::UserLookedUp(Err(e)), fresh_id) == (
            SessionUpdate::<Seq<char>>::Finished,
            SessionAction::Fail(
                AppError::Database { message: "Failed to fetch user by email"@, cause: Some(e) },
            ),
        ),
        session_goes_on(state, SessionEvent::UserCreated(Err(e)), fresh_id) == (
            SessionUpdate::<Seq<char>>::Finished,
            SessionAction::Fail(
                AppError::Database { message: "Failed to create user"@, cause: Some(e) },
            ),
        ),
        session_goes_on(state, SessionEvent::SessionSaved(Err(e)), fresh_id) == (
            SessionUpdate::<Seq<char>>::Finished,
            SessionAction::Fail(
                AppError::Database {
                    message: "Failed to upsert user session: "@ + e,
                    cause: None,
                },
            ),
        ),
{
}

/// Only a user who has to be created needs an identifier.
pub proof fn law_created_users_need_an_identifier(event: SessionEvent<Seq<char>>)
    ensures
        needs_identifier(event) <==> (event matches SessionEvent::UserLookedUp(Ok(None))),
{
}

/// An update waits for the lookup, then for the creation where there is one, then for the
/// storing. It can go on to the storing only where the session expires in the years -9999
/// to 9999, and can always take word of a failure.
pub proof fn law_session_waits_for_one_event(
    sign_in: SignedIn<Seq<char>>,
    user_id: Seq<char>,
    e: Seq<char>,
)
    ensures
        session_accepts(
            SessionUpdate::FindingUser(sign_in),
            SessionEvent::UserLookedUp(Ok(Some(user_id))),
        ) <==> -377_705_116_800 <= sign_in.expires_at <= 253_402_300_799,
        session_accepts(
            SessionUpdate::FindingUser(sign_in),
            SessionEvent::UserLookedUp(Ok(None)),
        ),
        session_accepts(SessionUpdate::FindingUser(sign_in), SessionEvent::UserLookedUp(Err(e))),
        session_accepts(
            SessionUpdate::CreatingUser { sign_in, user_id },
            SessionEvent::UserCreated(Ok(())),
        ) <==> -377_705_116_800 <= sign_in.expires_at <= 253_402_300_799,
        session_accepts(
            SessionUpdate::CreatingUser { sign_in, user_id },
            SessionEvent::UserCreated(Err(e)),
        ),
        session_accepts(SessionUpdate::Saving, SessionEvent::SessionSaved(Ok(()))),
        session_accepts(SessionUpdate::Saving, SessionEvent::SessionSaved(Err(e))),
        forall|event: SessionEvent<Seq<char>>|
            !(event is UserLookedUp) ==> !#[trigger] session_accepts(
                SessionUpdate::FindingUser(sign_in),
                event,
            ),
        forall|event: SessionEvent<Seq<char>>|
            !(event is UserCreated) ==> !#[trigger] session_accepts(
                SessionUpdate::CreatingUser { sign_in, user_id },
                event,
            ),
        forall|event: SessionEvent<Seq<char>>|
            !(event is SessionSaved) ==> !#[trigger] session_accepts(SessionUpdate::Saving, event),
        forall|event: SessionEvent<Seq<char>>|
            !#[trigger] session_accepts(SessionUpdate::Finished, event),
{
}

/// The models of a sign-in and of a stored session hold each value in its place.
pub proof fn law_sessions_keep_their_values(sign_in: SignedIn, row: SessionRow)
    ensures
        sign_in@.email == sign_in.email@,
        sign_in@.access_token == sign_in.access_token@,
        sign_in@.expires_at == sign_in.expires_at,
        sign_in@.refresh_token == sign_in.refresh_token@,
        sign_in@.provider == sign_in.provider,
        sign_in@.original_email == sign_in.original_email@,
        row@.user_id == row.user_id@,
        row@.session_id == row.session_id@,
        row@.refresh_token == row.refresh_token@,
        row@.expires_at == row.expires_at,
        row@.provider == row.provider@,
        row@.original_email == row.original_email@,
{
}

/// The models of states, actions and events hold what these hold.
pub proof fn law_session_models(
    sign_in: SignedIn,
    row: SessionRow,
    replaced: ReplacedValues,
    id: String,
    email: String,
    is_sso_user: bool,
    found: Option<String>,
    report: String,
    e: AppError,
)
    ensures
        SessionUpdate::FindingUser(sign_in)@ == SessionUpdate::FindingUser(sign_in@),
        (SessionUpdate::CreatingUser { sign_in, user_id: id })@ == (SessionUpdate::CreatingUser {
            sign_in: sign_in@,
            user_id: id@,
        }),
        SessionUpdate::<String>::Saving@ == SessionUpdate::<Seq<char>>::Saving,
        SessionUpdate::<String>::Finished@ == SessionUpdate::<Seq<char>>::Finished,
        (SessionAction::FindUser { email })@ == (SessionAction::FindUser { email: email@ }),
        (SessionAction::CreateUser { id, email, is_sso_user })@ == (SessionAction::CreateUser {
            id: id@,
            email: email@,
            is_sso_user,
        }),
        (SessionAction::SaveSession { row, replaced })@ == (SessionAction::SaveSession {
            row: row@,
            replaced,
        }),
        SessionAction::<String>::Done@ == SessionAction::<Seq<char>>::Done,
        SessionAction::Fail(e)@ == SessionAction::Fail(e@),
        SessionEvent::<String>::UserLookedUp(Ok(found))@ == SessionEvent::<Seq<char>>::UserLookedUp(
            Ok(found.deep_view()),
        ),
        SessionEvent::UserLookedUp(Err(report))@ == SessionEvent::UserLookedUp(Err(report@)),
        SessionEvent::<String>::UserCreated(Ok(()))@ matches SessionEvent::UserCreated(Ok(_)),
        SessionEvent::UserCreated(Err(report))@ == SessionEvent::UserCreated(Err(report@)),
        SessionEvent::<String>::SessionSaved(Ok(()))@ matches SessionEvent::SessionSaved(Ok(_)),
        SessionEvent::SessionSaved(Err(report))@ == SessionEvent::SessionSaved(Err(report@)),
{
}

} // verus!
