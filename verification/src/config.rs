//! The configuration, built once at startup from the values that the
//! environment supplies and handed on explicitly.

use crate::error::{ConfigKey, Error};
use crate::text::optional_text;
use vstd::prelude::*;

verus! {

/// Whether `url::Url::parse` accepts the text as an absolute URL.
pub uninterp spec fn is_url(text: Seq<char>) -> bool;

/// Calls `url::Url::parse`, as re-exported by `oauth2`, and says whether it
/// succeeded. The endpoint types of `oauth2` accept exactly these texts.
#[verifier::external_body]
pub(crate) fn parses_as_url(text: &str) -> (accepted: bool)
    ensures
        accepted == is_url(text@),
{
    oauth2::url::Url::parse(text).is_ok()
}

/// What a [`Config`] holds, as mathematical values.
pub struct ConfigView {
    pub client_id: Seq<char>,
    pub client_secret: Seq<char>,
    pub auth_url: Seq<char>,
    pub token_url: Seq<char>,
    pub redirect_url: Seq<char>,
    pub default_task_list: Seq<char>,
}

/// The values as the environment supplied them, each present or absent.
pub struct RawConfig {
    pub client_id: Option<String>,
    pub client_secret: Option<String>,
    pub auth_url: Option<String>,
    pub token_url: Option<String>,
    pub redirect_url: Option<String>,
    pub default_task_list: Option<String>,
}

/// A complete configuration whose three endpoints are URLs.
#[derive(Debug)]
pub struct Config {
    client_id: String,
    client_secret: String,
    auth_url: String,
    token_url: String,
    redirect_url: String,
    default_task_list: String,
}

/// The first of the three endpoints that was not accepted as a URL, in the
/// order authorization, token, redirect.
pub open spec fn spec_first_invalid(auth: bool, token: bool, redirect: bool) -> Option<ConfigKey> {
    if !auth {
        Some(ConfigKey::AuthUrl)
    } else if !token {
        Some(ConfigKey::TokenUrl)
    } else if !redirect {
        Some(ConfigKey::RedirectUrl)
    } else {
        None
    }
}

/// Names the first endpoint that was not accepted as a URL, given for each
/// of the three whether it was.
pub fn first_invalid_endpoint(auth: bool, token: bool, redirect: bool) -> (key: Option<ConfigKey>)
    ensures
        key == spec_first_invalid(auth, token, redirect),
{
    if !auth {
        Some(ConfigKey::AuthUrl)
    } else if !token {
        Some(ConfigKey::TokenUrl)
    } else if !redirect {
        Some(ConfigKey::RedirectUrl)
    } else {
        None
    }
}

impl RawConfig {
    /// The value supplied for a key.
    pub open spec fn value(&self, key: ConfigKey) -> Option<Seq<char>> {
        match key {
            ConfigKey::ClientId => optional_text(self.client_id),
            ConfigKey::ClientSecret => optional_text(self.client_secret),
            ConfigKey::AuthUrl => optional_text(self.auth_url),
            ConfigKey::TokenUrl => optional_text(self.token_url),
            ConfigKey::RedirectUrl => optional_text(self.redirect_url),
            ConfigKey::DefaultTaskList => optional_text(self.default_task_list),
        }
    }

    /// The first absent value, in the order in which the keys are declared.
    pub open spec fn first_missing(&self) -> Option<ConfigKey> {
        if self.client_id.is_none() {
            Some(ConfigKey::ClientId)
        } else if self.client_secret.is_none() {
            Some(ConfigKey::ClientSecret)
        } else if self.auth_url.is_none() {
            Some(ConfigKey::AuthUrl)
        } else if self.token_url.is_none() {
            Some(ConfigKey::TokenUrl)
        } else if self.redirect_url.is_none() {
            Some(ConfigKey::RedirectUrl)
        } else if self.default_task_list.is_none() {
            Some(ConfigKey::DefaultTaskList)
        } else {
            None
        }
    }

    /// The first endpoint that is not a URL, where all values are present.
    pub open spec fn first_invalid(&self) -> Option<ConfigKey>
        recommends
            self.first_missing().is_none(),
    {
        spec_first_invalid(
            is_url(self.auth_url.unwrap()@),
            is_url(self.token_url.unwrap()@),
            is_url(self.redirect_url.unwrap()@),
        )
    }

    /// What [`Config::from_values`] makes of the values: a missing value is
    /// reported before an invalid one.
    pub open spec fn outcome(&self) -> Result<ConfigView, Error> {
        match self.first_missing() {
            Some(key) => Err(Error::ConfigMissing(key)),
            None => match self.first_invalid() {
                Some(key) => Err(Error::InvalidEndpointUrl(key)),
                None => Ok(
                    ConfigView {
                        client_id: self.client_id.unwrap()@,
                        client_secret: self.client_secret.unwrap()@,
                        auth_url: self.auth_url.unwrap()@,
                        token_url: self.token_url.unwrap()@,
                        redirect_url: self.redirect_url.unwrap()@,
                        default_task_list: self.default_task_list.unwrap()@,
                    },
                ),
            },
        }
    }
}

impl View for Config {
    type V = ConfigView;

    closed spec fn view(&self) -> ConfigView {
        ConfigView {
            client_id: self.client_id@,
            client_secret: self.client_secret@,
            auth_url: self.auth_url@,
            token_url: self.token_url@,
            redirect_url: self.redirect_url@,
            default_task_list: self.default_task_list@,
        }
    }
}

impl ConfigView {
    /// The three endpoints are URLs.
    pub open spec fn valid(self) -> bool {
        &&& is_url(self.auth_url)
        &&& is_url(self.token_url)
        &&& is_url(self.redirect_url)
    }
}

impl Config {
    #[verifier::type_invariant]
    spec fn endpoints_are_urls(&self) -> bool {
        self@.valid()
    }

    /// Builds the configuration, or fails fast: with `ConfigMissing` for the
    /// first absent value, else with `InvalidEndpointUrl` for the first
    /// endpoint that is not a URL.
    pub fn from_values(raw: RawConfig) -> (built: Result<Config, Error>)
        ensures
            match built {
                Ok(config) => raw.outcome() == Ok::<ConfigView, Error>(config@) && config@.valid(),
                Err(error) => raw.outcome() == Err::<ConfigView, Error>(error),
            },
    {
        let RawConfig {
            client_id,
            client_secret,
            auth_url,
            token_url,
            redirect_url,
            default_task_list,
        } = raw;
        let client_id = match client_id {
            Some(text) => text,
            None => { return Err(Error::ConfigMissing(ConfigKey::ClientId)); },
        };
        let client_secret = match client_secret {
            Some(text) => text,
            None => { return Err(Error::ConfigMissing(ConfigKey::ClientSecret)); },
        };
        let auth_url = match auth_url {
            Some(text) => text,
            None => { return Err(Error::ConfigMissing(ConfigKey::AuthUrl)); },
        };
        let token_url = match token_url {
            Some(text) => text,
            None => { return Err(Error::ConfigMissing(ConfigKey::TokenUrl)); },
        };
        let redirect_url = match redirect_url {
            Some(text) => text,
            None => { return Err(Error::ConfigMissing(ConfigKey::RedirectUrl)); },
        };
        let default_task_list = match default_task_list {
            Some(text) => text,
            None => { return Err(Error::ConfigMissing(ConfigKey::DefaultTaskList)); },
        };
        let invalid = first_invalid_endpoint(
            parses_as_url(auth_url.as_str()),
            parses_as_url(token_url.as_str()),
            parses_as_url(redirect_url.as_str()),
        );
        match invalid {
            Some(key) => Err(Error::InvalidEndpointUrl(key)),
            None => Ok(
                Config {
                    client_id,
                    client_secret,
                    auth_url,
                    token_url,
                    redirect_url,
                    default_task_list,
                },
            ),
        }
    }

    /// The identifier under which the client is registered with the provider.
    pub fn client_id(&self) -> (text: &String)
        ensures
            text@ == self@.client_id,
    {
        &self.client_id
    }

    /// The secret of the client.
    pub fn client_secret(&self) -> (text: &String)
        ensures
            text@ == self@.client_secret,
    {
        &self.client_secret
    }

    /// The authorization endpoint: a URL.
    pub fn auth_url(&self) -> (text: &String)
        ensures
            text@ == self@.auth_url,
            is_url(text@),
    {
        proof {
            use_type_invariant(self);
        }
        &self.auth_url
    }

    /// The token endpoint: a URL.
    pub fn token_url(&self) -> (text: &String)
        ensures
            text@ == self@.token_url,
            is_url(text@),
    {
        proof {
            use_type_invariant(self);
        }
        &self.token_url
    }

    /// The redirect endpoint, on which the callback listener is reached: a URL.
    pub fn redirect_url(&self) -> (text: &String)
        ensures
            text@ == self@.redirect_url,
            is_url(text@),
    {
        proof {
            use_type_invariant(self);
        }
        &self.redirect_url
    }

    /// The name of the task list that is used where none is selected.
    pub fn default_task_list(&self) -> (text: &String)
        ensures
            text@ == self@.default_task_list,
    {
        &self.default_task_list
    }
}

} // verus!
