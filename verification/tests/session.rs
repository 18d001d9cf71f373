use todo_cli::config::{Config, RawConfig};
use todo_cli::error::{ConfigKey, Error};
use todo_cli::session::{requested_scopes, AuthSession, STATE_LENGTH};

fn config_with_redirect(redirect_url: &str) -> Config {
    Config::from_values(RawConfig {
        client_id: Some("client 1".to_string()),
        client_secret: Some("s3cret".to_string()),
        auth_url: Some("https://login.example.com/authorize?tenant=common".to_string()),
        token_url: Some("https://login.example.com/token".to_string()),
        redirect_url: Some(redirect_url.to_string()),
        default_task_list: Some("Tasks".to_string()),
    })
    .unwrap()
}

fn config() -> Config {
    config_with_redirect("http://localhost:8000/auth")
}

#[test]
fn scopes_include_offline_access_and_task_access() {
    let scopes = requested_scopes();
    assert_eq!(
        scopes,
        vec![
            "offline_access".to_string(),
            "https://graph.microsoft.com/Tasks.ReadWrite".to_string(),
            "https://graph.microsoft.com/Tasks.ReadWrite.Shared".to_string(),
        ]
    );
}

#[test]
fn session_takes_its_values_from_the_configuration() {
    let session = AuthSession::with_state(&config(), "state-1".to_string());
    assert_eq!(session.client_id(), "client 1");
    assert_eq!(session.client_secret(), "s3cret");
    assert_eq!(
        session.authorization_endpoint(),
        "https://login.example.com/authorize?tenant=common"
    );
    assert_eq!(session.token_endpoint(), "https://login.example.com/token");
    assert_eq!(session.redirect_endpoint(), "http://localhost:8000/auth");
    assert_eq!(session.csrf_token(), "state-1");
    assert_eq!(session.requested_scopes(), &requested_scopes());
}

#[test]
fn authorization_url_carries_the_request() {
    let session = AuthSession::with_state(&config(), "state-1".to_string());
    let url = session.authorization_url();
    assert_eq!(
        url,
        "https://login.example.com/authorize?tenant=common&response_type=code\
         &client_id=client+1&state=state-1\
         &redirect_uri=http%3A%2F%2Flocalhost%3A8000%2Fauth\
         &scope=offline_access\
         +https%3A%2F%2Fgraph.microsoft.com%2FTasks.ReadWrite\
         +https%3A%2F%2Fgraph.microsoft.com%2FTasks.ReadWrite.Shared"
    );
}

#[test]
fn authorization_url_depends_on_the_state() {
    let first = AuthSession::with_state(&config(), "one".to_string()).authorization_url();
    let again = AuthSession::with_state(&config(), "one".to_string()).authorization_url();
    let other = AuthSession::with_state(&config(), "two".to_string()).authorization_url();
    assert_eq!(first, again);
    assert_ne!(first, other);
    assert!(other.contains("state=two"));
}

#[test]
fn fresh_sessions_have_fresh_tokens() {
    let first = AuthSession::begin(&config());
    let second = AuthSession::begin(&config());
    assert_eq!(first.csrf_token().chars().count(), STATE_LENGTH);
    assert_eq!(second.csrf_token().chars().count(), STATE_LENGTH);
    assert_eq!(STATE_LENGTH, 22);
    assert_ne!(first.csrf_token(), second.csrf_token());
    assert!(first.authorization_url().contains(first.csrf_token().as_str()));
}

#[test]
fn only_the_sessions_token_is_accepted() {
    let session = AuthSession::with_state(&config(), "state-1".to_string());
    assert!(session.accepts(&Some("state-1".to_string())));
    assert!(!session.accepts(&Some("state-2".to_string())));
    assert!(!session.accepts(&Some(String::new())));
    assert!(!session.accepts(&None));
}

#[test]
fn listener_is_bound_where_the_redirect_endpoint_points() {
    let session = AuthSession::with_state(&config(), "s".to_string());
    let address = session.listener_address().unwrap();
    assert_eq!(address.host, "localhost");
    assert_eq!(address.port, 8000);

    let config = config_with_redirect("https://127.0.0.1/auth");
    let address = AuthSession::with_state(&config, "s".to_string()).listener_address().unwrap();
    assert_eq!(address.host, "127.0.0.1");
    assert_eq!(address.port, 443);
}

#[test]
fn redirect_endpoint_without_host_cannot_be_listened_on() {
    let config = config_with_redirect("mailto:someone@example.com");
    let address = AuthSession::with_state(&config, "s".to_string()).listener_address();
    assert_eq!(address.unwrap_err(), Error::InvalidEndpointUrl(ConfigKey::RedirectUrl));
    let config = config_with_redirect("custom://host/auth");
    let address = AuthSession::with_state(&config, "s".to_string()).listener_address();
    assert_eq!(address.unwrap_err(), Error::InvalidEndpointUrl(ConfigKey::RedirectUrl));
}
