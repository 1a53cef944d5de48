//! Where the host and the token come from: the environment first, the
//! positional arguments after it.

use vstd::prelude::*;
use crate::model::{opt_text, texts};

verus! {

/// Why the dashboard could not start.
#[derive(Clone, Copy, Debug, PartialEq, Eq, Structural)]
pub enum StartupConfigError {
    /// Neither the environment nor the arguments name a host.
    MissingHost,
    /// Neither the environment nor the arguments hold a token.
    MissingToken,
    /// The host does not make a URL.
    InvalidHost,
}

/// The host to ask and the token to present.
#[derive(Clone, Debug, PartialEq, Eq)]
pub struct Settings {
    pub host: String,
    pub token: String,
}

/// What the settings say.
pub struct SettingsView {
    pub host: Seq<char>,
    pub token: Seq<char>,
}

impl View for Settings {
    type V = SettingsView;

    open spec fn view(&self) -> SettingsView {
        SettingsView { host: self.host@, token: self.token@ }
    }
}

/// The settings that the environment and the positional arguments give. A
/// value from the environment wins. A value that the environment lacks is
/// the next positional argument not yet used, the host before the token.
pub open spec fn resolved(
    env_host: Option<Seq<char>>,
    env_token: Option<Seq<char>>,
    arguments: Seq<Seq<char>>,
) -> Result<SettingsView, StartupConfigError> {
    match env_host {
        Some(host) => match env_token {
            Some(token) => Ok(SettingsView { host, token }),
            None => if arguments.len() >= 1 {
                Ok(SettingsView { host, token: arguments[0] })
            } else {
                Err(StartupConfigError::MissingToken)
            },
        },
        None => if arguments.len() == 0 {
            Err(StartupConfigError::MissingHost)
        } else {
            match env_token {
                Some(token) => Ok(SettingsView { host: arguments[0], token }),
                None => if arguments.len() >= 2 {
                    Ok(SettingsView { host: arguments[0], token: arguments[1] })
                } else {
                    Err(StartupConfigError::MissingToken)
                },
            }
        },
    }
}

/// The settings as plain values, or the failure.
pub open spec fn settings_view(result: Result<Settings, StartupConfigError>) -> Result<
    SettingsView,
    StartupConfigError,
> {
    match result {
        Ok(settings) => Ok(settings@),
        Err(error) => Err(error),
    }
}

/// The name of the environment variable that holds the host.
pub fn host_variable() -> (name: &'static str)
    ensures
        name@ == "ISOLA_HOST"@,
{
    "ISOLA_HOST"
}

/// The name of the environment variable that holds the token.
pub fn token_variable() -> (name: &'static str)
    ensures
        name@ == "ISOLA_TOKEN"@,
{
    "ISOLA_TOKEN"
}

/// Resolves the host and the token from the values found in the environment
/// and the positional arguments, those after the program's name.
pub fn resolve(env_host: Option<String>, env_token: Option<String>, arguments: &Vec<String>) -> (result:
    Result<Settings, StartupConfigError>)
    ensures
        settings_view(result) == resolved(
            opt_text(env_host),
            opt_text(env_token),
            texts(arguments@),
        ),
{
    let mut used: usize = 0;
    let host = match env_host {
        Some(host) => host,
        None => {
            if arguments.len() == 0 {
                return Err(StartupConfigError::MissingHost);
            }
            used = 1;
            arguments[0].clone()
        },
    };
    let token = match env_token {
        Some(token) => token,
        None => {
            if arguments.len() <= used {
                return Err(StartupConfigError::MissingToken);
            }
            arguments[used].clone()
        },
    };
    Ok(Settings { host, token })
}

} // verus!
