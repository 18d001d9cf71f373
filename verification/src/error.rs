//! The ways in which the client can fail, and what the user is told.

use vstd::prelude::*;
use vstd::string::StringExecFns;

verus! {

/// A value that the configuration must supply.
#[derive(Clone, Copy, Debug, PartialEq, Eq, Structural)]
pub enum ConfigKey {
    ClientId,
    ClientSecret,
    AuthUrl,
    TokenUrl,
    RedirectUrl,
    DefaultTaskList,
}

/// Why an operation could not be completed.
#[derive(Clone, Copy, Debug, PartialEq, Eq, Structural)]
pub enum Error {
    /// A required configuration value is absent.
    ConfigMissing(ConfigKey),
    /// A configured endpoint is not a URL.
    InvalidEndpointUrl(ConfigKey),
    /// No credential has been persisted.
    NotAuthenticated,
    /// The token manager was asked for a token before anyone authenticated.
    NoCredential,
    /// The persisted credential cannot be read back.
    CorruptCredential,
    /// The credential could not be written to disk.
    StoreFailed,
    /// The provider rejected the authorization code or the refresh, or the
    /// callback did not carry the anti-forgery token of this session.
    AuthorizationFailed,
    /// The task service answered 401 again after the one refresh and retry.
    Unauthorized,
    /// The transport failed.
    NetworkError,
    /// The task service answered with a status that is neither success nor 401.
    RemoteFailure(u16),
    /// No remote task list has the requested name.
    TaskListNotFound,
    /// The user did not complete the authorization in time.
    AuthenticationTimedOut,
    /// The command line asks neither to list tasks nor to create one.
    NothingToDo,
}

/// The exit code of a run that succeeded.
pub const EXIT_SUCCESS: i32 = 0;

/// The exit code of a run that ended with an error.
pub const EXIT_FAILURE: i32 = 1;

/// The exit code of the process: zero on success, and the same non-zero
/// code for every error, since none of them can be recovered from.
pub fn exit_code(outcome: Result<(), Error>) -> (code: i32)
    ensures
        code == if outcome.is_ok() {
            EXIT_SUCCESS
        } else {
            EXIT_FAILURE
        },
{
    match outcome {
        Ok(()) => EXIT_SUCCESS,
        Err(_) => EXIT_FAILURE,
    }
}

impl ConfigKey {
    /// The name of the environment variable that supplies this value.
    pub open spec fn spec_name(self) -> Seq<char> {
        match self {
            ConfigKey::ClientId => "CLIENT_ID"@,
            ConfigKey::ClientSecret => "CLIENT_SECRET"@,
            ConfigKey::AuthUrl => "AUTH_URL"@,
            ConfigKey::TokenUrl => "TOKEN_URL"@,
            ConfigKey::RedirectUrl => "REDIRECT_URL"@,
            ConfigKey::DefaultTaskList => "DEFAULT_TASK_LIST"@,
        }
    }

    /// The name of the environment variable that supplies this value.
    pub fn name(self) -> (text: &'static str)
        ensures
            text@ == self.spec_name(),
    {
        match self {
            ConfigKey::ClientId => "CLIENT_ID",
            ConfigKey::ClientSecret => "CLIENT_SECRET",
            ConfigKey::AuthUrl => "AUTH_URL",
            ConfigKey::TokenUrl => "TOKEN_URL",
            ConfigKey::RedirectUrl => "REDIRECT_URL",
            ConfigKey::DefaultTaskList => "DEFAULT_TASK_LIST",
        }
    }
}

impl Error {
    /// The sentence shown to the user, without the name of a configuration value.
    pub open spec fn spec_headline(self) -> Seq<char> {
        match self {
            Error::ConfigMissing(_) => "missing configuration value: "@,
            Error::InvalidEndpointUrl(_) => "not a valid endpoint URL: "@,
            Error::NotAuthenticated => "not authenticated: no token has been saved"@,
            Error::NoCredential => "no credential to refresh: authenticate first"@,
            Error::CorruptCredential => "the saved token cannot be read"@,
            Error::StoreFailed => "the token could not be saved"@,
            Error::AuthorizationFailed => "the identity provider refused the authorization"@,
            Error::Unauthorized => "the task service refused the token"@,
            Error::NetworkError => "the request could not be sent"@,
            Error::RemoteFailure(_) => "the task service reported an error"@,
            Error::TaskListNotFound => "no task list has that name"@,
            Error::AuthenticationTimedOut => "authentication timed out"@,
            Error::NothingToDo => "nothing to do: give the text of a task or ask for the list"@,
        }
    }

    /// The whole message: the headline, then the configuration value it is about, if any.
    pub open spec fn spec_message(self) -> Seq<char> {
        match self {
            Error::ConfigMissing(key) => self.spec_headline() + key.spec_name(),
            Error::InvalidEndpointUrl(key) => self.spec_headline() + key.spec_name(),
            _ => self.spec_headline(),
        }
    }

    fn headline(self) -> (text: &'static str)
        ensures
            text@ == self.spec_headline(),
    {
        match self {
            Error::ConfigMissing(_) => "missing configuration value: ",
            Error::InvalidEndpointUrl(_) => "not a valid endpoint URL: ",
            Error::NotAuthenticated => "not authenticated: no token has been saved",
            Error::NoCredential => "no credential to refresh: authenticate first",
            Error::CorruptCredential => "the saved token cannot be read",
            Error::StoreFailed => "the token could not be saved",
            Error::AuthorizationFailed => "the identity provider refused the authorization",
            Error::Unauthorized => "the task service refused the token",
            Error::NetworkError => "the request could not be sent",
            Error::RemoteFailure(_) => "the task service reported an error",
            Error::TaskListNotFound => "no task list has that name",
            Error::AuthenticationTimedOut => "authentication timed out",
            Error::NothingToDo => "nothing to do: give the text of a task or ask for the list",
        }
    }

    /// A short, plain message for the user.
    pub fn message(self) -> (text: String)
        ensures
            text@ == self.spec_message(),
    {
        let mut text = String::from_str(self.headline());
        match self {
            Error::ConfigMissing(key) => {
                text.append(key.name());
            },
            Error::InvalidEndpointUrl(key) => {
                text.append(key.name());
            },
            _ => {},
        }
        text
    }
}

} // verus!
