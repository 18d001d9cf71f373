//! The state of one authentication: who asks, where, for what, and the
//! anti-forgery token that ties the provider's redirect to this request.
//! It lives for one flow and is never persisted.

use crate::config::{is_url, Config};
use crate::error::{ConfigKey, Error};
use crate::text::{optional_text, texts};
use oauth2::basic::BasicClient;
use oauth2::{AuthUrl, ClientId, CsrfToken, RedirectUrl, Scope};
use vstd::prelude::*;

verus! {

/// The URL that `oauth2` builds for an authorization-code request of this
/// client, with these scopes and this `state` parameter.
pub uninterp spec fn authorization_url_text(
    client_id: Seq<char>,
    auth_url: Seq<char>,
    redirect_url: Seq<char>,
    scopes: Seq<Seq<char>>,
    state: Seq<char>,
) -> Seq<char>;

/// Builds a `BasicClient` and calls `authorize_url`, `add_scopes` and `url`
/// on it. The endpoint types refuse exactly what `url::Url::parse` refuses;
/// the URL that comes out depends on the five arguments alone.
#[verifier::external_body]
fn build_authorization_url(
    client_id: &str,
    auth_url: &str,
    redirect_url: &str,
    scopes: &Vec<String>,
    state: &str,
) -> (url: Option<String>)
    ensures
        url.is_some() == (is_url(auth_url@) && is_url(redirect_url@)),
        match url {
            Some(text) => text@ == authorization_url_text(
                client_id@,
                auth_url@,
                redirect_url@,
                texts(scopes@),
                state@,
            ),
            None => true,
        },
{
    let auth = AuthUrl::new(auth_url.to_owned()).ok()?;
    let redirect = RedirectUrl::new(redirect_url.to_owned()).ok()?;
    let client = BasicClient::new(ClientId::new(client_id.to_owned()), None, auth, None)
        .set_redirect_uri(redirect);
    let token = CsrfToken::new(state.to_owned());
    let wanted = scopes.iter().map(|scope| Scope::new(scope.clone()));
    let (url, _) = client.authorize_url(|| token).add_scopes(wanted).url();
    Some(url.to_string())
}

/// The host and the port that `url::Url` reads from a text: the port that
/// the URL names, else the default port of its scheme. `None` where the text
/// is no URL, or the URL has no host, or neither a port nor a scheme with a
/// default port.
pub uninterp spec fn url_host_and_port(text: Seq<char>) -> Option<(Seq<char>, u16)>;

/// Calls `url::Url::parse`, as re-exported by `oauth2`, and hands out what
/// `host_str` and `port_or_known_default` give for the URL. Host and port
/// depend on the text alone.
#[verifier::external_body]
fn host_and_port(text: &str) -> (target: Option<(String, u16)>)
    ensures
        match target {
            Some((host, port)) => url_host_and_port(text@) == Some((host@, port)),
            None => url_host_and_port(text@).is_none(),
        },
{
    let url = oauth2::url::Url::parse(text).ok()?;
    Some((url.host_str()?.to_owned(), url.port_or_known_default()?))
}

/// The length of a fresh anti-forgery token: 16 bytes in base64 without padding.
pub const STATE_LENGTH: usize = 22;

/// Calls `CsrfToken::new_random`, which draws 16 random bytes and encodes
/// them in URL-safe base64 without padding: five groups of three bytes give
/// twenty characters, and the last byte two more. Of the token itself, which
/// is random, nothing is claimed.
#[verifier::external_body]
fn random_state() -> (state: String)
    ensures
        state@.len() == STATE_LENGTH,
{
    CsrfToken::new_random().secret().clone()
}

/// The scopes that the client asks for: offline access, which brings the
/// refresh token, and reading and writing the user's tasks, shared ones too.
pub open spec fn spec_requested_scopes() -> Seq<Seq<char>> {
    seq![
        "offline_access"@,
        "https://graph.microsoft.com/Tasks.ReadWrite"@,
        "https://graph.microsoft.com/Tasks.ReadWrite.Shared"@,
    ]
}

/// The scopes that the client asks for.
pub fn requested_scopes() -> (scopes: Vec<String>)
    ensures
        texts(scopes@) == spec_requested_scopes(),
{
    let mut scopes: Vec<String> = Vec::new();
    scopes.push("offline_access".to_owned());
    scopes.push("https://graph.microsoft.com/Tasks.ReadWrite".to_owned());
    scopes.push("https://graph.microsoft.com/Tasks.ReadWrite.Shared".to_owned());
    scopes
}

/// Where the callback listener is bound.
#[derive(Debug)]
pub struct ListenerAddress {
    pub host: String,
    pub port: u16,
}

/// What an [`AuthSession`] holds, as mathematical values.
pub struct AuthSessionView {
    pub client_id: Seq<char>,
    pub client_secret: Seq<char>,
    pub authorization_endpoint: Seq<char>,
    pub token_endpoint: Seq<char>,
    pub redirect_endpoint: Seq<char>,
    pub requested_scopes: Seq<Seq<char>>,
    pub csrf_token: Seq<char>,
}

/// The state of one authentication.
#[derive(Debug)]
pub struct AuthSession {
    client_id: String,
    client_secret: String,
    authorization_endpoint: String,
    token_endpoint: String,
    redirect_endpoint: String,
    requested_scopes: Vec<String>,
    csrf_token: String,
}

impl AuthSessionView {
    /// The endpoints are URLs, and the scopes are those of
    /// [`spec_requested_scopes`].
    pub open spec fn valid(self) -> bool {
        &&& is_url(self.authorization_endpoint)
        &&& is_url(self.token_endpoint)
        &&& is_url(self.redirect_endpoint)
        &&& self.requested_scopes == spec_requested_scopes()
    }

    /// The URL to which the user is sent.
    pub open spec fn authorization_url(self) -> Seq<char> {
        authorization_url_text(
            self.client_id,
            self.authorization_endpoint,
            self.redirect_endpoint,
            self.requested_scopes,
            self.csrf_token,
        )
    }

    /// Whether the `state` parameter of a redirect is the token of this session.
    pub open spec fn accepts(self, state: Option<Seq<char>>) -> bool {
        state == Some(self.csrf_token)
    }
}

impl View for AuthSession {
    type V = AuthSessionView;

    closed spec fn view(&self) -> AuthSessionView {
        AuthSessionView {
            client_id: self.client_id@,
            client_secret: self.client_secret@,
            authorization_endpoint: self.authorization_endpoint@,
            token_endpoint: self.token_endpoint@,
            redirect_endpoint: self.redirect_endpoint@,
            requested_scopes: texts(self.requested_scopes@),
            csrf_token: self.csrf_token@,
        }
    }
}

impl AuthSession {
    #[verifier::type_invariant]
    spec fn inv(&self) -> bool {
        self@.valid()
    }

    /// What a session takes from the configuration.
    pub open spec fn follows(&self, config: &Config) -> bool {
        &&& self@.client_id == config@.client_id
        &&& self@.client_secret == config@.client_secret
        &&& self@.authorization_endpoint == config@.auth_url
        &&& self@.token_endpoint == config@.token_url
        &&& self@.redirect_endpoint == config@.redirect_url
        &&& self@.valid()
    }

    /// A session with the given anti-forgery token.
    pub fn with_state(config: &Config, csrf_token: String) -> (session: AuthSession)
        ensures
            session.follows(config),
            session@.csrf_token == csrf_token@,
    {
        AuthSession {
            client_id: config.client_id().clone(),
            client_secret: config.client_secret().clone(),
            authorization_endpoint: config.auth_url().clone(),
            token_endpoint: config.token_url().clone(),
            redirect_endpoint: config.redirect_url().clone(),
            requested_scopes: requested_scopes(),
            csrf_token,
        }
    }

    /// A session with a fresh random anti-forgery token, which is never empty.
    pub fn begin(config: &Config) -> (session: AuthSession)
        ensures
            session.follows(config),
            session@.csrf_token.len() == STATE_LENGTH,
    {
        AuthSession::with_state(config, random_state())
    }

    /// The URL to which the user is sent to authorize the client.
    pub fn authorization_url(&self) -> (url: String)
        ensures
            url@ == self@.authorization_url(),
    {
        proof {
            use_type_invariant(self);
        }
        let built = build_authorization_url(
            self.client_id.as_str(),
            self.authorization_endpoint.as_str(),
            self.redirect_endpoint.as_str(),
            &self.requested_scopes,
            self.csrf_token.as_str(),
        );
        match built {
            Some(url) => url,
            None => String::new(),
        }
    }

    /// Where the callback listener is bound: the host and the port of the
    /// redirect endpoint. A redirect endpoint that names neither is refused
    /// as `InvalidEndpointUrl`.
    pub fn listener_address(&self) -> (address: Result<ListenerAddress, Error>)
        ensures
            match address {
                Ok(found) => url_host_and_port(self@.redirect_endpoint) == Some(
                    (found.host@, found.port),
                ),
                Err(error) => error == Error::InvalidEndpointUrl(ConfigKey::RedirectUrl)
                    && url_host_and_port(self@.redirect_endpoint).is_none(),
            },
    {
        match host_and_port(self.redirect_endpoint.as_str()) {
            Some((host, port)) => Ok(ListenerAddress { host, port }),
            None => Err(Error::InvalidEndpointUrl(ConfigKey::RedirectUrl)),
        }
    }

    /// Whether the `state` parameter of a redirect is the token of this
    /// session. A redirect without one is not accepted.
    pub fn accepts(&self, state: &Option<String>) -> (accepted: bool)
        ensures
            accepted == self@.accepts(optional_text(*state)),
    {
        match state {
            Some(text) => *text == self.csrf_token,
            None => false,
        }
    }

    /// The identifier of the client.
    pub fn client_id(&self) -> (text: &String)
        ensures
            text@ == self@.client_id,
    {
        &self.client_id
    }

    /// The secret of the client.
    pub fn client_secret(&self) -> (text: &String)
        ensures
            text@ == self@.client_secret,
    {
        &self.client_secret
    }

    /// The endpoint to which the user is sent.
    pub fn authorization_endpoint(&self) -> (text: &String)
        ensures
            text@ == self@.authorization_endpoint,
    {
        &self.authorization_endpoint
    }

    /// The endpoint at which a code is exchanged for a token.
    pub fn token_endpoint(&self) -> (text: &String)
        ensures
            text@ == self@.token_endpoint,
    {
        &self.token_endpoint
    }

    /// The endpoint to which the provider sends the user back.
    pub fn redirect_endpoint(&self) -> (text: &String)
        ensures
            text@ == self@.redirect_endpoint,
    {
        &self.redirect_endpoint
    }

    /// The anti-forgery token of this session.
    pub fn csrf_token(&self) -> (text: &String)
        ensures
            text@ == self@.csrf_token,
    {
        &self.csrf_token
    }

    /// The scopes that this session asks for.
    pub fn requested_scopes(&self) -> (scopes: &Vec<String>)
        ensures
            texts(scopes@) == self@.requested_scopes,
    {
        &self.requested_scopes
    }
}

} // verus!
