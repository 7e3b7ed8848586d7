//! The session of the bot with its server: what is kept of it between
//! runs, and how a run comes by it.
//!
//! A run that finds the record of an earlier session restores it, cursor
//! included. A run that finds none logs in and keeps a new record, without
//! cursor. The record is rewritten as a whole whenever the cursor moves.

use vstd::prelude::*;
use rand::Rng;
use crate::error::Error;
use crate::text::is_ascii_alphanumeric;

verus! {

/// The length of the passphrase that protects the local store.
pub const PASSPHRASE_LENGTH: usize = 32;

/// The length of the name of the directory that holds the local store.
pub const STORE_NAME_LENGTH: usize = 7;

/// What is needed to build the client again.
#[derive(Clone, Debug, PartialEq, Eq)]
pub struct ClientSession {
    /// The URL of the homeserver of the user.
    pub homeserver: String,
    /// The path of the local store.
    pub db_path: String,
    /// The passphrase of the local store.
    pub passphrase: String,
}

/// The credential that the server gave at login.
#[derive(Clone, Debug, PartialEq, Eq)]
pub struct UserSession {
    pub user_id: String,
    pub device_id: String,
    pub access_token: String,
    pub refresh_token: Option<String>,
}

/// The record that is kept of a session.
#[derive(Clone, Debug, PartialEq, Eq)]
pub struct FullSession {
    /// What is needed to build the client again.
    pub client_session: ClientSession,
    /// The credential.
    pub user_session: UserSession,
    /// The place after the last round of synchronization that completed.
    pub sync_token: Option<String>,
}

/// A record as a value.
pub struct FullSessionView {
    pub homeserver: Seq<char>,
    pub db_path: Seq<char>,
    pub passphrase: Seq<char>,
    pub user_id: Seq<char>,
    pub device_id: Seq<char>,
    pub access_token: Seq<char>,
    pub refresh_token: Option<Seq<char>>,
    pub sync_token: Option<Seq<char>>,
}

impl View for FullSession {
    type V = FullSessionView;

    open spec fn view(&self) -> FullSessionView {
        FullSessionView {
            homeserver: self.client_session.homeserver@,
            db_path: self.client_session.db_path@,
            passphrase: self.client_session.passphrase@,
            user_id: self.user_session.user_id@,
            device_id: self.user_session.device_id@,
            access_token: self.user_session.access_token@,
            refresh_token: self.user_session.refresh_token.deep_view(),
            sync_token: self.sync_token.deep_view(),
        }
    }
}

impl FullSessionView {
    /// The record with another cursor and nothing else changed.
    pub open spec fn with_sync_token(self, sync_token: Option<Seq<char>>) -> FullSessionView {
        FullSessionView {
            homeserver: self.homeserver,
            db_path: self.db_path,
            passphrase: self.passphrase,
            user_id: self.user_id,
            device_id: self.device_id,
            access_token: self.access_token,
            refresh_token: self.refresh_token,
            sync_token,
        }
    }
}

impl FullSession {
    /// The record of a session that has just been opened: it has no cursor
    /// yet.
    pub fn new(client_session: ClientSession, user_session: UserSession) -> (r: FullSession)
        ensures
            r.client_session == client_session,
            r.user_session == user_session,
            r.sync_token.is_none(),
    {
        FullSession { client_session, user_session, sync_token: None }
    }

    /// The record after a round of synchronization: the cursor is
    /// `sync_token`, the rest is as before.
    pub fn with_sync_token(self, sync_token: String) -> (r: FullSession)
        ensures
            r@ == self@.with_sync_token(Some(sync_token@)),
            r.client_session == self.client_session,
            r.user_session == self.user_session,
    {
        FullSession {
            client_session: self.client_session,
            user_session: self.user_session,
            sync_token: Some(sync_token),
        }
    }
}

/// How a run comes by its session.
#[derive(Clone, Copy, Debug, PartialEq, Eq, Structural)]
pub enum StartupRoute {
    /// From the record of an earlier session.
    Restore,
    /// By logging in.
    Login,
}

/// How a run comes by its session: from the record if there is one.
pub fn startup_route(session_exists: bool) -> (r: StartupRoute)
    ensures
        r == if session_exists {
            StartupRoute::Restore
        } else {
            StartupRoute::Login
        },
{
    if session_exists {
        StartupRoute::Restore
    } else {
        StartupRoute::Login
    }
}

/// The record of the earlier session as it was read, or the failure to read
/// it.
pub fn restored_session(parsed: Option<FullSession>) -> (r: Result<FullSession, Error>)
    ensures
        r == match parsed {
            Some(session) => Ok::<FullSession, Error>(session),
            None => Err::<FullSession, Error>(Error::SessionCorrupt),
        },
{
    match parsed {
        Some(session) => Ok(session),
        None => Err(Error::SessionCorrupt),
    }
}

/// What a run that restores `session` starts from: the cursor of the
/// record where the server accepts its credential.
pub open spec fn restore_cursor(session: FullSessionView, accepted: bool) -> Result<
    Option<Seq<char>>,
    Error,
> {
    if accepted {
        Ok(session.sync_token)
    } else {
        Err(Error::AuthExpired)
    }
}

/// What a restored session starts from, once the server has answered: the
/// cursor that the record holds, or the failure where the server refused the
/// credential.
pub fn restore_outcome(session: &FullSession, accepted: bool) -> (r: Result<Option<String>, Error>)
    ensures
        match r {
            Ok(cursor) => restore_cursor(session@, accepted) == Ok::<Option<Seq<char>>, Error>(
                cursor.deep_view(),
            ),
            Err(error) => restore_cursor(session@, accepted) == Err::<Option<Seq<char>>, Error>(
                error,
            ),
        },
{
    if accepted {
        match &session.sync_token {
            Some(token) => Ok(Some(token.clone())),
            None => Ok(None),
        }
    } else {
        Err(Error::AuthExpired)
    }
}

/// What follows an attempt to log in.
#[derive(Clone, Copy, Debug, PartialEq, Eq, Structural)]
pub enum LoginStep {
    /// The session is open: keep its record.
    Persist,
    /// Ask for the password again and try once more.
    PromptAgain,
    /// Give up with this failure.
    Abort(Error),
}

/// What follows an attempt to log in: a password from the configuration
/// that the server refuses is not tried twice; one that was typed is asked
/// for again.
pub fn after_login_attempt(succeeded: bool, password_configured: bool) -> (r: LoginStep)
    ensures
        r == if succeeded {
            LoginStep::Persist
        } else if password_configured {
            LoginStep::Abort(Error::AuthFailed)
        } else {
            LoginStep::PromptAgain
        },
{
    if succeeded {
        LoginStep::Persist
    } else if password_configured {
        LoginStep::Abort(Error::AuthFailed)
    } else {
        LoginStep::PromptAgain
    }
}

/// What a new local store is made with.
#[derive(Clone, Debug, PartialEq, Eq)]
pub struct StoreSecrets {
    /// The passphrase of the store.
    pub passphrase: String,
    /// The name of the directory of the store, below the data directory.
    pub store_name: String,
}

/// Every character is an ASCII letter or digit.
pub open spec fn is_alphanumeric_text(s: Seq<char>) -> bool {
    forall|i: int| 0 <= i < s.len() ==> is_ascii_alphanumeric(#[trigger] s[i])
}

/// Draws `count` characters from `rand::distributions::Alphanumeric` with
/// the generator of the thread (`rand::thread_rng`, `Rng::sample_iter`).
/// The contract says what holds of every draw: the text has `count`
/// characters, each of them an ASCII letter or digit.
#[verifier::external_body]
fn random_alphanumeric(count: usize) -> (r: String)
    ensures
        r@.len() == count,
        is_alphanumeric_text(r@),
{
    rand::thread_rng().sample_iter(rand::distributions::Alphanumeric).take(count).map(
        char::from,
    ).collect()
}

/// Draws the passphrase and the directory name of a new local store.
pub fn fresh_store_secrets() -> (r: StoreSecrets)
    ensures
        r.passphrase@.len() == PASSPHRASE_LENGTH,
        is_alphanumeric_text(r.passphrase@),
        r.store_name@.len() == STORE_NAME_LENGTH,
        is_alphanumeric_text(r.store_name@),
{
    let passphrase: String = random_alphanumeric(PASSPHRASE_LENGTH);
    let store_name: String = random_alphanumeric(STORE_NAME_LENGTH);
    StoreSecrets { passphrase, store_name }
}

/// A record read again gives the cursor that was written into it: a run
/// whose credential the server accepts starts from that cursor, and writing
/// the cursor changed nothing else of the record.
pub proof fn lemma_cursor_round_trip(session: FullSessionView, sync_token: Seq<char>)
    ensures
        restore_cursor(session.with_sync_token(Some(sync_token)), true) == Ok::<
            Option<Seq<char>>,
            Error,
        >(Some(sync_token)),
        restore_cursor(session, true) == Ok::<Option<Seq<char>>, Error>(session.sync_token),
        session.with_sync_token(Some(sync_token)).with_sync_token(session.sync_token) == session,
{
}

} // verus!
