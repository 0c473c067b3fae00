use kc_songbook::LogLevel;
use kc_songbook::Platform;
use kc_songbook::Plugin;
use kc_songbook::TitleBarStyle;
use kc_songbook::startup_config;
use kc_songbook::startup_failure_message;
use kc_songbook::window_config;

#[test]
fn macos_window_has_overlay_title_bar_and_empty_title() {
    let c = window_config(Platform::MacOs);
    assert_eq!(c.title_bar, TitleBarStyle::Overlay);
    assert_eq!(c.title.as_deref(), Some(""));
    assert_eq!(c.label, "main");
    assert_eq!(c.resizable, Some(true));
    assert!(c.centered);
}

#[test]
fn other_desktop_window_has_name_title_and_standard_title_bar() {
    let c = window_config(Platform::OtherDesktop);
    assert_eq!(c.title_bar, TitleBarStyle::Standard);
    assert_eq!(c.title.as_deref(), Some("KC Songbook"));
    assert_eq!(c.label, "main");
    assert_eq!(c.resizable, Some(true));
    assert!(c.centered);
}

#[test]
fn mobile_window_is_minimal() {
    let c = window_config(Platform::Mobile);
    assert_eq!(c.label, "main");
    assert_eq!(c.title, None);
    assert_eq!(c.title_bar, TitleBarStyle::Standard);
    assert_eq!(c.geometry, None);
    assert_eq!(c.resizable, None);
    assert!(!c.centered);
}

#[test]
fn desktop_geometry_is_fixed() {
    for p in [Platform::MacOs, Platform::OtherDesktop] {
        let c = window_config(p);
        let g = c.geometry.expect("desktop builds set explicit geometry");
        assert_eq!(g.width, 1024);
        assert_eq!(g.height, 768);
        assert_eq!(g.min_width, 400);
        assert_eq!(g.min_height, 300);
    }
}

#[test]
fn every_platform_registers_the_same_three_plugins() {
    for p in [Platform::MacOs, Platform::OtherDesktop, Platform::Mobile] {
        let c = startup_config(p);
        assert_eq!(c.plugins.len(), 3);
        assert_eq!(
            c.plugins,
            vec![Plugin::Dialog, Plugin::Http, Plugin::Log { level: LogLevel::Info }],
        );
    }
}

#[test]
fn startup_window_matches_the_platform_window() {
    let c = startup_config(Platform::OtherDesktop);
    let w = window_config(Platform::OtherDesktop);
    assert_eq!(c.window.title, w.title);
    assert_eq!(c.window.title_bar, w.title_bar);
    assert_eq!(c.window.geometry, w.geometry);
    assert_eq!(c.window.label, w.label);
}

#[test]
fn failure_message_is_fixed() {
    assert_eq!(startup_failure_message(), "error while running tauri application");
}

#[test]
fn desktop_detection() {
    assert!(Platform::MacOs.is_desktop());
    assert!(Platform::OtherDesktop.is_desktop());
    assert!(!Platform::Mobile.is_desktop());
}
