use todo_cli::config::{Config, RawConfig};
use todo_cli::error::{exit_code, ConfigKey, Error};

fn complete() -> RawConfig {
    RawConfig {
        client_id: Some("client-1".to_string()),
        client_secret: Some("s3cret".to_string()),
        auth_url: Some("https://login.example.com/authorize".to_string()),
        token_url: Some("https://login.example.com/token".to_string()),
        redirect_url: Some("http://localhost:8000/auth".to_string()),
        default_task_list: Some("Tasks".to_string()),
    }
}

#[test]
fn complete_configuration_is_accepted() {
    let config = Config::from_values(complete()).unwrap();
    assert_eq!(config.client_id(), "client-1");
    assert_eq!(config.client_secret(), "s3cret");
    assert_eq!(config.auth_url(), "https://login.example.com/authorize");
    assert_eq!(config.token_url(), "https://login.example.com/token");
    assert_eq!(config.redirect_url(), "http://localhost:8000/auth");
    assert_eq!(config.default_task_list(), "Tasks");
}

#[test]
fn each_missing_value_is_named() {
    let mut raw = complete();
    raw.client_id = None;
    assert_eq!(Config::from_values(raw).unwrap_err(), Error::ConfigMissing(ConfigKey::ClientId));
    let mut raw = complete();
    raw.client_secret = None;
    assert_eq!(
        Config::from_values(raw).unwrap_err(),
        Error::ConfigMissing(ConfigKey::ClientSecret)
    );
    let mut raw = complete();
    raw.auth_url = None;
    assert_eq!(Config::from_values(raw).unwrap_err(), Error::ConfigMissing(ConfigKey::AuthUrl));
    let mut raw = complete();
    raw.token_url = None;
    assert_eq!(Config::from_values(raw).unwrap_err(), Error::ConfigMissing(ConfigKey::TokenUrl));
    let mut raw = complete();
    raw.redirect_url = None;
    assert_eq!(
        Config::from_values(raw).unwrap_err(),
        Error::ConfigMissing(ConfigKey::RedirectUrl)
    );
    let mut raw = complete();
    raw.default_task_list = None;
    assert_eq!(
        Config::from_values(raw).unwrap_err(),
        Error::ConfigMissing(ConfigKey::DefaultTaskList)
    );
}

#[test]
fn first_missing_value_is_reported() {
    let mut raw = complete();
    raw.token_url = None;
    raw.client_secret = None;
    assert_eq!(
        Config::from_values(raw).unwrap_err(),
        Error::ConfigMissing(ConfigKey::ClientSecret)
    );
}

#[test]
fn missing_is_reported_before_invalid() {
    let mut raw = complete();
    raw.auth_url = Some("not a url".to_string());
    raw.default_task_list = None;
    assert_eq!(
        Config::from_values(raw).unwrap_err(),
        Error::ConfigMissing(ConfigKey::DefaultTaskList)
    );
}

#[test]
fn each_invalid_endpoint_is_named() {
    let mut raw = complete();
    raw.auth_url = Some("not a url".to_string());
    assert_eq!(
        Config::from_values(raw).unwrap_err(),
        Error::InvalidEndpointUrl(ConfigKey::AuthUrl)
    );
    let mut raw = complete();
    raw.token_url = Some("/relative/path".to_string());
    assert_eq!(
        Config::from_values(raw).unwrap_err(),
        Error::InvalidEndpointUrl(ConfigKey::TokenUrl)
    );
    let mut raw = complete();
    raw.redirect_url = Some(String::new());
    assert_eq!(
        Config::from_values(raw).unwrap_err(),
        Error::InvalidEndpointUrl(ConfigKey::RedirectUrl)
    );
    let mut raw = complete();
    raw.token_url = Some("nonsense".to_string());
    raw.redirect_url = Some("nonsense".to_string());
    assert_eq!(
        Config::from_values(raw).unwrap_err(),
        Error::InvalidEndpointUrl(ConfigKey::TokenUrl)
    );
}

#[test]
fn keys_name_their_environment_variables() {
    assert_eq!(ConfigKey::ClientId.name(), "CLIENT_ID");
    assert_eq!(ConfigKey::ClientSecret.name(), "CLIENT_SECRET");
    assert_eq!(ConfigKey::AuthUrl.name(), "AUTH_URL");
    assert_eq!(ConfigKey::TokenUrl.name(), "TOKEN_URL");
    assert_eq!(ConfigKey::RedirectUrl.name(), "REDIRECT_URL");
    assert_eq!(ConfigKey::DefaultTaskList.name(), "DEFAULT_TASK_LIST");
}

#[test]
fn messages_are_short_and_plain() {
    assert_eq!(
        Error::ConfigMissing(ConfigKey::TokenUrl).message(),
        "missing configuration value: TOKEN_URL"
    );
    assert_eq!(
        Error::InvalidEndpointUrl(ConfigKey::AuthUrl).message(),
        "not a valid endpoint URL: AUTH_URL"
    );
    assert_eq!(Error::NotAuthenticated.message(), "not authenticated: no token has been saved");
    assert_eq!(Error::NoCredential.message(), "no credential to refresh: authenticate first");
    assert_eq!(Error::CorruptCredential.message(), "the saved token cannot be read");
    assert_eq!(Error::StoreFailed.message(), "the token could not be saved");
    assert_eq!(
        Error::AuthorizationFailed.message(),
        "the identity provider refused the authorization"
    );
    assert_eq!(Error::Unauthorized.message(), "the task service refused the token");
    assert_eq!(Error::NetworkError.message(), "the request could not be sent");
    assert_eq!(Error::RemoteFailure(500).message(), "the task service reported an error");
    assert_eq!(Error::TaskListNotFound.message(), "no task list has that name");
    assert_eq!(Error::AuthenticationTimedOut.message(), "authentication timed out");
    assert_eq!(
        Error::NothingToDo.message(),
        "nothing to do: give the text of a task or ask for the list"
    );
}

#[test]
fn exit_code_is_zero_only_on_success() {
    assert_eq!(exit_code(Ok(())), 0);
    assert_eq!(exit_code(Err(Error::NetworkError)), 1);
    assert_eq!(exit_code(Err(Error::ConfigMissing(ConfigKey::ClientId))), 1);
    assert_eq!(exit_code(Err(Error::NotAuthenticated)), 1);
}
