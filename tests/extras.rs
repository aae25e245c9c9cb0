use ufactory_studio::commands::ping;
use ufactory_studio::i18n::AppLanguage;
use ufactory_studio::logline::{log_line, starts_with};
use ufactory_studio::updates::{UpdateFailure, UpdateMetadata};

#[test]
fn ping_echoes_target() {
    assert_eq!(ping(42, 7), Ok(42));
    assert_eq!(ping(-1, 0), Ok(-1));
}

#[test]
fn prefix_check() {
    assert!(starts_with("webview:main", "webview"));
    assert!(starts_with("abc", ""));
    assert!(!starts_with("web", "webview"));
    assert!(!starts_with("Webview", "webview"));
}

#[test]
fn log_lines_by_target() {
    assert_eq!(
        log_line("2024-01-02", "03:04:05", "INFO", "tool_service_stdout::x", "hi"),
        "[2024-01-02][03:04:05][🥑python] hi"
    );
    assert_eq!(
        log_line("2024-01-02", "03:04:05", "WARN", "webview", "page"),
        "[2024-01-02][03:04:05][✨frontend][WARN] page"
    );
    assert_eq!(
        log_line("2024-01-02", "03:04:05", "ERROR", "app::udp", "boom"),
        "[2024-01-02][03:04:05][ERROR][app::udp] boom"
    );
}

#[test]
fn update_failure_messages() {
    assert_eq!(
        UpdateFailure::Check.message(AppLanguage::EnUs, "timeout"),
        "Check for updates failed: timeout"
    );
    assert_eq!(
        UpdateFailure::BadUrl.message(AppLanguage::ZhCn, "x"),
        "解析更新URL失败: x"
    );
    assert_eq!(UpdateFailure::UpdaterInit.text(AppLanguage::EnUs), "Failed to initialize updater");
}

#[test]
fn found_update_is_available() {
    let m = UpdateMetadata::found("1.0.0".into(), "1.1.0".into(), None, Some("notes".into()));
    assert!(m.available);
    assert_eq!(m.current_version, "1.0.0");
    assert_eq!(m.version, "1.1.0");
    assert_eq!(m.date, None);
    assert_eq!(m.body.as_deref(), Some("notes"));
}
