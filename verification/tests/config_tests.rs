use ha_companion::config::{default_true, Config, ConfigError};

fn sample() -> Config {
    Config::from_stored(
        Some("http://homeassistant.local:8123".to_string()),
        None,
        Some("laptop".to_string()),
        true,
        false,
        "/tmp/ha/config.toml",
    )
}

#[test]
fn default_preference_is_on() {
    assert!(default_true());
}

#[test]
fn stored_valid_url_is_kept() {
    let c = sample();
    assert_eq!(c.url.as_deref(), Some("http://homeassistant.local:8123"));
    assert_eq!(c.token, None);
    assert_eq!(c.device_name.as_deref(), Some("laptop"));
    assert!(c.auto_update);
    assert!(!c.notifications_enabled);
    assert_eq!(c.path(), "/tmp/ha/config.toml");
}

#[test]
fn stored_invalid_url_is_dropped() {
    let c = Config::from_stored(
        Some("not a url".to_string()),
        Some("tok".to_string()),
        None,
        true,
        true,
        "cfg.toml",
    );
    assert_eq!(c.url, None);
    assert_eq!(c.token.as_deref(), Some("tok"));
}

#[test]
fn update_url_accepts_valid_url() {
    let mut c = sample();
    assert_eq!(c.update_url("https://example.org/ha"), Ok(()));
    assert_eq!(c.url.as_deref(), Some("https://example.org/ha"));
}

#[test]
fn update_url_refuses_invalid_url_and_keeps_old() {
    let mut c = sample();
    let res = c.update_url("example.org");
    assert_eq!(res, Err(ConfigError::InvalidUrl));
    assert_eq!(res.unwrap_err().message(), "Invalid URL format");
    assert_eq!(c.url.as_deref(), Some("http://homeassistant.local:8123"));
}

#[test]
fn update_url_refuses_empty_text() {
    let mut c = sample();
    assert!(c.update_url("").is_err());
}

#[test]
fn token_is_read_back() {
    let mut c = sample();
    assert!(!c.is_configured());
    assert_eq!(c.credentials(), None);
    c.update_token("abc.def");
    assert_eq!(c.token.as_deref(), Some("abc.def"));
    assert!(c.is_configured());
    assert_eq!(
        c.credentials(),
        Some(("http://homeassistant.local:8123".to_string(), "abc.def".to_string()))
    );
    assert_eq!(c.url.as_deref(), Some("http://homeassistant.local:8123"));
}

#[test]
fn token_without_url_is_not_configured() {
    let mut c = Config::from_stored(None, None, None, true, true, "p");
    c.update_token("t");
    assert!(!c.is_configured());
    assert!(!c.has_url());
}

#[test]
fn prefs_are_read_back() {
    let mut c = sample();
    c.update_prefs(None, false, true);
    let p = c.prefs();
    assert_eq!(p.device_name, None);
    assert!(!p.auto_update);
    assert!(p.notifications_enabled);
    assert!(c.notifications_on());
    assert!(!c.auto_update_on());
    assert_eq!(c.url.as_deref(), Some("http://homeassistant.local:8123"));
}

#[test]
fn navigation_url_needs_a_parsing_url() {
    let c = sample();
    assert_eq!(c.navigation_url().as_deref(), Some("http://homeassistant.local:8123"));
    let mut d = sample();
    d.url = Some("bad url".to_string());
    assert_eq!(d.navigation_url(), None);
    d.url = None;
    assert_eq!(d.navigation_url(), None);
}

#[test]
fn getters_return_stored_values() {
    let mut c = sample();
    assert_eq!(c.url().as_deref(), Some("http://homeassistant.local:8123"));
    assert_eq!(c.token(), None);
    c.update_token("x");
    assert_eq!(c.token().as_deref(), Some("x"));
}
