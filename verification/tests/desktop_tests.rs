use ha_companion::config::Config;
use ha_companion::desktop::{
    startup_plan, update_status_message, url_save_error_message, window_action, UpdateCheck,
    WindowAction, WindowEvent, RECONNECT_DELAY_SECS,
};

fn config(url: Option<&str>, token: Option<&str>, auto: bool) -> Config {
    Config::from_stored(
        url.map(|u| u.to_string()),
        token.map(|t| t.to_string()),
        None,
        auto,
        true,
        "c.toml",
    )
}

#[test]
fn closing_main_window_hides_when_configured() {
    let c = config(Some("http://h"), None, true);
    assert!(matches!(
        window_action("main", &WindowEvent::CloseRequested, &c),
        WindowAction::HideInsteadOfClose
    ));
}

#[test]
fn closing_main_window_exits_when_unconfigured() {
    let c = config(None, None, true);
    assert!(matches!(window_action("main", &WindowEvent::CloseRequested, &c), WindowAction::Exit(0)));
}

#[test]
fn other_windows_are_left_alone() {
    let c = config(Some("http://h"), None, true);
    assert!(matches!(window_action("config", &WindowEvent::CloseRequested, &c), WindowAction::Nothing));
    assert!(matches!(window_action("config", &WindowEvent::Focused(false), &c), WindowAction::Nothing));
}

#[test]
fn losing_focus_hides_main_window() {
    let c = config(Some("http://h"), None, true);
    assert!(matches!(window_action("main", &WindowEvent::Focused(false), &c), WindowAction::Hide));
    assert!(matches!(window_action("main", &WindowEvent::Focused(true), &c), WindowAction::Nothing));
    assert!(matches!(window_action("main", &WindowEvent::Other, &c), WindowAction::Nothing));
    let d = config(None, None, true);
    assert!(matches!(window_action("main", &WindowEvent::Focused(false), &d), WindowAction::Nothing));
}

#[test]
fn startup_without_url_shows_config_window() {
    let p = startup_plan(&config(None, Some("t"), false));
    assert!(p.show_config_window);
    assert_eq!(p.navigate_to, None);
    assert_eq!(p.listen, None);
    assert!(!p.check_for_updates);
}

#[test]
fn startup_with_credentials_listens_and_navigates() {
    let p = startup_plan(&config(Some("https://ha.example"), Some("tok"), true));
    assert!(!p.show_config_window);
    assert_eq!(p.navigate_to.as_deref(), Some("https://ha.example"));
    assert_eq!(p.listen, Some(("https://ha.example".to_string(), "tok".to_string())));
    assert!(p.check_for_updates);
}

#[test]
fn update_messages() {
    assert_eq!(
        update_status_message(&UpdateCheck::Available("2.0.1".to_string())),
        "Update available: 2.0.1"
    );
    assert_eq!(update_status_message(&UpdateCheck::UpToDate), "You are on the latest version.");
    assert_eq!(
        update_status_message(&UpdateCheck::Unsupported),
        "Updates not supported on this platform."
    );
}

#[test]
fn save_error_message() {
    assert_eq!(url_save_error_message("disk full"), "Unable to update config: \ndisk full");
}

#[test]
fn reconnect_delay_is_ten_seconds() {
    assert_eq!(RECONNECT_DELAY_SECS, 10);
}
