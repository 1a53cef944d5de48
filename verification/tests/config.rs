use isola::config::{host_variable, resolve, token_variable, Settings, StartupConfigError};

fn text(s: &str) -> String {
    String::from(s)
}

#[test]
fn environment_variables_have_their_names() {
    assert_eq!(host_variable(), "ISOLA_HOST");
    assert_eq!(token_variable(), "ISOLA_TOKEN");
}

#[test]
fn environment_wins_over_arguments() {
    let arguments: Vec<String> = vec![text("arg-one"), text("arg-two")];
    assert_eq!(
        resolve(Some(text("env-host")), Some(text("env-token")), &arguments),
        Ok(Settings { host: text("env-host"), token: text("env-token") })
    );
}

#[test]
fn arguments_fill_in_for_a_bare_environment() {
    let arguments: Vec<String> = vec![text("arg-one"), text("arg-two")];
    assert_eq!(
        resolve(None, None, &arguments),
        Ok(Settings { host: text("arg-one"), token: text("arg-two") })
    );
}

#[test]
fn token_is_the_first_argument_when_the_host_is_in_the_environment() {
    let arguments: Vec<String> = vec![text("arg-one"), text("arg-two")];
    assert_eq!(
        resolve(Some(text("env-host")), None, &arguments),
        Ok(Settings { host: text("env-host"), token: text("arg-one") })
    );
}

#[test]
fn host_is_the_first_argument_when_the_token_is_in_the_environment() {
    let arguments: Vec<String> = vec![text("arg-one")];
    assert_eq!(
        resolve(None, Some(text("env-token")), &arguments),
        Ok(Settings { host: text("arg-one"), token: text("env-token") })
    );
}

#[test]
fn missing_host_is_a_startup_failure() {
    let arguments: Vec<String> = Vec::new();
    assert_eq!(resolve(None, None, &arguments), Err(StartupConfigError::MissingHost));
    assert_eq!(
        resolve(None, Some(text("env-token")), &arguments),
        Err(StartupConfigError::MissingHost)
    );
}

#[test]
fn missing_token_is_a_startup_failure() {
    let none: Vec<String> = Vec::new();
    assert_eq!(
        resolve(Some(text("env-host")), None, &none),
        Err(StartupConfigError::MissingToken)
    );
    let one: Vec<String> = vec![text("arg-one")];
    assert_eq!(resolve(None, None, &one), Err(StartupConfigError::MissingToken));
}
