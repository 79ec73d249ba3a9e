use greetui::config::{Config, ConfigError};
use greetui::state::{App, GreetAlign};

fn defaults() -> Config {
    App::default().config
}

#[test]
fn defaults_are_valid() {
    assert_eq!(defaults().validate(), Ok(()));
}

#[test]
fn issue_and_greeting_refused() {
    let mut c = defaults();
    c.issue = true;
    c.greeting = Some("Hi".to_string());
    assert_eq!(c.validate(), Err(ConfigError::IssueAndGreeting));
}

#[test]
fn user_session_needs_remember() {
    let mut c = defaults();
    c.remember_user_session = true;
    assert_eq!(c.validate(), Err(ConfigError::UserSessionWithoutRemember));
}

#[test]
fn session_and_user_session_refused() {
    let mut c = defaults();
    c.remember = true;
    c.remember_session = true;
    c.remember_user_session = true;
    assert_eq!(c.validate(), Err(ConfigError::SessionAndUserSession));
}

#[test]
fn env_needs_cmd() {
    let mut c = defaults();
    c.env = vec!["A=1".to_string()];
    assert_eq!(c.validate(), Err(ConfigError::EnvWithoutCmd));
}

#[test]
fn first_malformed_env_reported() {
    let mut c = defaults();
    c.cmd = Some("sway".to_string());
    c.env = vec!["A=1".to_string(), "BROKEN".to_string(), "ALSO".to_string()];
    assert_eq!(c.validate(), Err(ConfigError::MalformedEnv("BROKEN".to_string())));
    c.env = vec!["A=1".to_string(), "B=".to_string()];
    assert_eq!(c.validate(), Ok(()));
}

#[test]
fn empty_asterisks_char_refused() {
    let mut c = defaults();
    c.asterisks = true;
    c.asterisks_char = String::new();
    assert_eq!(c.validate(), Err(ConfigError::EmptyAsterisksChar));
    c.asterisks = false;
    assert_eq!(c.validate(), Ok(()));
}

#[test]
fn duplicate_keybindings_refused() {
    let mut c = defaults();
    c.kb_shutdown = Some(c.kb_power);
    assert_eq!(c.validate(), Err(ConfigError::DuplicateKeybindings));
    let mut c = defaults();
    c.kb_shutdown = Some(5);
    c.kb_reboot = Some(6);
    assert_eq!(c.validate(), Ok(()));
    c.kb_hibernate = Some(6);
    assert_eq!(c.validate(), Err(ConfigError::DuplicateKeybindings));
}

#[test]
fn greet_align_checked_and_parsed() {
    let mut c = defaults();
    assert_eq!(c.greet_align_parsed(), GreetAlign::Center);
    c.greet_align = "left".to_string();
    assert_eq!(c.validate(), Ok(()));
    assert_eq!(c.greet_align_parsed(), GreetAlign::Left);
    c.greet_align = "right".to_string();
    assert_eq!(c.greet_align_parsed(), GreetAlign::Right);
    c.greet_align = "middle".to_string();
    assert_eq!(c.validate(), Err(ConfigError::InvalidGreetAlign));
    assert_eq!(c.greet_align_parsed(), GreetAlign::Center);
}

#[test]
fn first_broken_rule_wins() {
    let mut c = defaults();
    c.issue = true;
    c.greeting = Some("Hi".to_string());
    c.remember_user_session = true;
    c.greet_align = "nowhere".to_string();
    assert_eq!(c.validate(), Err(ConfigError::IssueAndGreeting));
}
