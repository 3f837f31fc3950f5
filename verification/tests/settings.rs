use cm_launcher::settings::{
    default_auth_mode, default_true, load_settings, AppSettings, AuthMode, Theme,
};

#[test]
fn fresh_settings() {
    let s = AppSettings::initial(AuthMode::Steam);
    assert_eq!(s.auth_mode, AuthMode::Steam);
    assert_eq!(s.theme, Theme::Default);
    assert!(s.notification_servers.is_empty());
    assert!(s.fullscreen_overlay);
    assert!(default_true());
    assert_eq!(default_auth_mode(true), AuthMode::Steam);
    assert_eq!(default_auth_mode(false), AuthMode::CmSs13);
}

#[test]
fn notifications_are_toggled_like_a_set() {
    let mut s = AppSettings::initial(AuthMode::CmSs13);
    s.toggle_server_notifications("A".to_string(), true);
    s.toggle_server_notifications("B".to_string(), true);
    s.toggle_server_notifications("A".to_string(), true);
    assert!(s.has_notification("A"));
    assert!(s.has_notification("B"));
    assert!(!s.has_notification("a"));
    assert_eq!(s.notification_servers.len(), 2);
    s.toggle_server_notifications("A".to_string(), false);
    assert!(!s.has_notification("A"));
    assert!(s.has_notification("B"));
    s.toggle_server_notifications("C".to_string(), false);
    assert_eq!(s.notification_servers, vec!["B".to_string()]);
}

#[test]
fn single_settings_are_set() {
    let mut s = AppSettings::initial(AuthMode::CmSs13);
    s.set_auth_mode(AuthMode::Byond);
    s.set_theme(Theme::Ntos);
    s.set_fullscreen_overlay(false);
    assert_eq!(s.auth_mode, AuthMode::Byond);
    assert_eq!(s.theme, Theme::Ntos);
    assert!(!s.fullscreen_overlay);
}

#[test]
fn defaults_stand_in_for_unusable_files() {
    let parsed = || {
        let mut s = AppSettings::initial(AuthMode::Byond);
        s.set_theme(Theme::Ntos);
        Some(s)
    };
    let s = load_settings(Some("{\"auth_mode\":\"byond\"}"), parsed(), AuthMode::Steam);
    assert_eq!(s.auth_mode, AuthMode::Byond);
    assert_eq!(s.theme, Theme::Ntos);
    for contents in [None, Some(""), Some("  \n\t ")] {
        let s = load_settings(contents, parsed(), AuthMode::Steam);
        assert_eq!(s.auth_mode, AuthMode::Steam);
        assert_eq!(s.theme, Theme::Default);
    }
    let s = load_settings(Some("not json"), None, AuthMode::CmSs13);
    assert_eq!(s.auth_mode, AuthMode::CmSs13);
    assert!(s.fullscreen_overlay);
}
