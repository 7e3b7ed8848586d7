use matrix_sed::config::{AccountConfig, PasswordSource};
use matrix_sed::error::Error;
use matrix_sed::session::{
    after_login_attempt, fresh_store_secrets, restore_outcome, restored_session, startup_route,
    ClientSession, FullSession, LoginStep, StartupRoute, UserSession, PASSPHRASE_LENGTH,
    STORE_NAME_LENGTH,
};

fn client_session() -> ClientSession {
    ClientSession {
        homeserver: "https://example.org".to_string(),
        db_path: "/data/matrix-sed/a1b2c3d".to_string(),
        passphrase: "0123456789abcdefghijklmnopqrstuv".to_string(),
    }
}

fn user_session() -> UserSession {
    UserSession {
        user_id: "@bot:example.org".to_string(),
        device_id: "DEVICE".to_string(),
        access_token: "token".to_string(),
        refresh_token: None,
    }
}

fn config(password: Option<&str>) -> AccountConfig {
    AccountConfig {
        server: "https://example.org".to_string(),
        username: "bot".to_string(),
        password: password.map(|p| p.to_string()),
        delete_other_devices: false,
    }
}

#[test]
fn new_session_has_no_cursor() {
    let session = FullSession::new(client_session(), user_session());
    assert_eq!(session.client_session, client_session());
    assert_eq!(session.user_session, user_session());
    assert_eq!(session.sync_token, None);
}

#[test]
fn cursor_is_written_and_nothing_else() {
    let session = FullSession::new(client_session(), user_session());
    let after = session.with_sync_token("s1".to_string());
    assert_eq!(after.sync_token, Some("s1".to_string()));
    assert_eq!(after.client_session, client_session());
    assert_eq!(after.user_session, user_session());
    let later = after.with_sync_token("s2".to_string());
    assert_eq!(later.sync_token, Some("s2".to_string()));
}

#[test]
fn restored_cursor_is_the_one_that_was_written() {
    let session = FullSession::new(client_session(), user_session());
    assert_eq!(restore_outcome(&session, true), Ok(None));
    let after = session.with_sync_token("s1".to_string());
    let read_again = restored_session(Some(after.clone())).unwrap();
    assert_eq!(read_again, after);
    assert_eq!(restore_outcome(&read_again, true), Ok(Some("s1".to_string())));
}

#[test]
fn unreadable_record_is_corrupt() {
    assert_eq!(restored_session(None), Err(Error::SessionCorrupt));
}

#[test]
fn refused_credential_is_expired() {
    let session = FullSession::new(client_session(), user_session()).with_sync_token("s".to_string());
    assert_eq!(restore_outcome(&session, false), Err(Error::AuthExpired));
}

#[test]
fn startup_restores_where_a_record_exists() {
    assert_eq!(startup_route(true), StartupRoute::Restore);
    assert_eq!(startup_route(false), StartupRoute::Login);
}

#[test]
fn login_attempts() {
    assert_eq!(after_login_attempt(true, true), LoginStep::Persist);
    assert_eq!(after_login_attempt(true, false), LoginStep::Persist);
    assert_eq!(after_login_attempt(false, true), LoginStep::Abort(Error::AuthFailed));
    assert_eq!(after_login_attempt(false, false), LoginStep::PromptAgain);
}

#[test]
fn store_secrets_are_letters_and_digits() {
    let secrets = fresh_store_secrets();
    assert_eq!(PASSPHRASE_LENGTH, 32);
    assert_eq!(STORE_NAME_LENGTH, 7);
    assert_eq!(secrets.passphrase.chars().count(), 32);
    assert_eq!(secrets.store_name.chars().count(), 7);
    assert!(secrets.passphrase.chars().all(|c| c.is_ascii_alphanumeric()));
    assert!(secrets.store_name.chars().all(|c| c.is_ascii_alphanumeric()));
}

#[test]
fn store_secrets_differ_from_draw_to_draw() {
    let first = fresh_store_secrets();
    let second = fresh_store_secrets();
    assert_ne!(first.passphrase, second.passphrase);
}

#[test]
fn password_comes_from_the_configuration_or_the_terminal() {
    assert!(config(Some("secret")).password_configured());
    assert!(!config(None).password_configured());
    assert_eq!(
        config(Some("secret")).password_source(),
        PasswordSource::Configured("secret".to_string())
    );
    assert_eq!(config(None).password_source(), PasswordSource::Prompt);
}
