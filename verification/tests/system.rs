use focusflow::notification::{
    change_notification, emit_failure, trigger_reload, ChangeNotification, CHANGE_EVENT,
};
use focusflow::kind::WatchedFile;
use focusflow::system::{get_system_info, system_info, SystemInfo, DEFAULT_LOCALE};

#[test]
fn system_info_defaults_the_locale() {
    assert_eq!(
        system_info("linux", "x86_64", None),
        SystemInfo {
            os: "linux".to_string(),
            version: "x86_64".to_string(),
            locale: "en-US".to_string(),
        }
    );
    assert_eq!(DEFAULT_LOCALE, "en-US");
}

#[test]
fn system_info_keeps_a_locale_that_was_found() {
    assert_eq!(
        system_info("macos", "aarch64", Some("de-CH".to_string())),
        SystemInfo {
            os: "macos".to_string(),
            version: "aarch64".to_string(),
            locale: "de-CH".to_string(),
        }
    );
    assert_eq!(system_info("", "", Some(String::new())).locale, "");
}

#[test]
fn get_system_info_reports_the_machine_s_locale() {
    let info = get_system_info("linux", "x86_64");
    assert_eq!(info.os, "linux");
    assert_eq!(info.version, "x86_64");
    let expected = sys_locale::get_locale().unwrap_or_else(|| "en-US".to_string());
    assert_eq!(info.locale, expected);
    assert!(!info.locale.is_empty());
}

#[test]
fn change_notification_carries_the_identifier() {
    assert_eq!(CHANGE_EVENT, "data-file-changed");
    for (file, id) in [
        (WatchedFile::Active, "active"),
        (WatchedFile::Archive, "archive"),
        (WatchedFile::PomodoroHistory, "pomodoro_history"),
        (WatchedFile::Legacy, "legacy"),
    ] {
        assert_eq!(
            change_notification(file),
            ChangeNotification { event: "data-file-changed", payload: id.to_string() }
        );
    }
}

#[test]
fn trigger_reload_has_the_watcher_s_shape() {
    for file in
        [WatchedFile::Active, WatchedFile::Archive, WatchedFile::PomodoroHistory, WatchedFile::Legacy]
    {
        assert_eq!(trigger_reload(file.identifier()), change_notification(file));
    }
    assert_eq!(
        trigger_reload("anything at all"),
        ChangeNotification { event: "data-file-changed", payload: "anything at all".to_string() }
    );
}

#[test]
fn emit_failure_names_the_reason() {
    assert_eq!(emit_failure("window closed"), "Failed to emit event: window closed");
}
