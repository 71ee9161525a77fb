use backend::config::{Config, ConfigError};

fn s(v: &str) -> Option<String> {
    Some(v.to_string())
}

#[test]
fn defaults_fill_what_is_missing() {
    let c = Config::load(None, None, None, None, None, None, None).unwrap();
    assert_eq!(c.rust_port, 8080);
    assert_eq!(c.max_sessions, 2);
    assert_eq!(c.svelte_url, "http://localhost:5173");
    assert_eq!(c.from_email_server, "ohdear");
}

#[test]
fn given_values_win() {
    let c = Config::load(s("9000"), s("https://x"), s("+5"), s("a@b"), s("smtp"), s("pw"), s("tok")).unwrap();
    assert_eq!(c.rust_port, 9000);
    assert_eq!(c.svelte_url, "https://x");
    assert_eq!(c.max_sessions, 5);
    assert_eq!(c.from_email, "a@b");
    assert_eq!(c.from_email_password, "pw");
    assert_eq!(c.api_token, "tok");
}

#[test]
fn bad_numbers_are_refused() {
    assert_eq!(Config::load(s("70000"), None, None, None, None, None, None).err(), Some(ConfigError::InvalidPort));
    assert_eq!(Config::load(s("http"), None, None, None, None, None, None).err(), Some(ConfigError::InvalidPort));
    assert_eq!(Config::load(None, None, s("256"), None, None, None, None).err(), Some(ConfigError::InvalidMaxSessions));
    assert_eq!(Config::load(None, None, s(""), None, None, None, None).err(), Some(ConfigError::InvalidMaxSessions));
}
