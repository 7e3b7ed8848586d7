//! What the bot is told when it is started.

use vstd::prelude::*;

verus! {

/// The account that the bot runs as.
#[derive(Clone, Debug, PartialEq, Eq)]
pub struct AccountConfig {
    /// URL of the homeserver to connect to.
    pub server: String,
    /// User name of the bot.
    pub username: String,
    /// Password of the bot; asked for at the terminal where it is left out.
    pub password: Option<String>,
    /// Delete the devices of the account other than the one in use.
    pub delete_other_devices: bool,
}

/// Where a password comes from.
#[derive(Clone, Debug, PartialEq, Eq)]
pub enum PasswordSource {
    /// From the configuration.
    Configured(String),
    /// From whoever sits at the terminal.
    Prompt,
}

impl AccountConfig {
    /// Tells whether the configuration holds a password.
    pub fn password_configured(&self) -> (r: bool)
        ensures
            r == self.password.is_some(),
    {
        self.password.is_some()
    }

    /// Where the password for the next attempt comes from: the
    /// configuration if it holds one, the terminal otherwise.
    pub fn password_source(&self) -> (r: PasswordSource)
        ensures
            match r {
                PasswordSource::Configured(p) => self.password == Some(p),
                PasswordSource::Prompt => self.password.is_none(),
            },
    {
        match &self.password {
            Some(p) => PasswordSource::Configured(p.clone()),
            None => PasswordSource::Prompt,
        }
    }
}

} // verus!
