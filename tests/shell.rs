use ufactory_studio::i18n::{
    detect_language, is_english_tag, system_language, tr, AppLanguage, LanguageSettings,
};
use ufactory_studio::menu::{
    menu_command, menu_config_candidates, shortcut_action, shortcut_bindings, shortcut_fires,
    I18nKey, KeyCode, MenuCommand, ShortcutAction, ShortcutKey,
};
use ufactory_studio::monitor::MonitorConfig;
use ufactory_studio::response::Response;
use ufactory_studio::updates::{release_manifest_url, LanguageText, UpdateChannel};

#[test]
fn default_language_is_chinese() {
    assert_eq!(AppLanguage::default(), AppLanguage::ZhCn);
    assert_eq!(detect_language(&LanguageSettings::new()), AppLanguage::ZhCn);
}

#[test]
fn language_codes() {
    assert_eq!(AppLanguage::ZhCn.code(), "zh_CN");
    assert_eq!(AppLanguage::EnUs.code(), "en_US");
    assert_eq!(AppLanguage::ZhCn.page_tag(), "cn");
    assert_eq!(AppLanguage::EnUs.page_tag(), "en");
}

#[test]
fn stored_language_is_read_back() {
    assert_eq!(AppLanguage::from_stored(Some("en_US")), AppLanguage::EnUs);
    assert_eq!(AppLanguage::from_stored(Some("zh_CN")), AppLanguage::ZhCn);
    assert_eq!(AppLanguage::from_stored(Some("fr_FR")), AppLanguage::ZhCn);
    assert_eq!(AppLanguage::from_stored(None), AppLanguage::ZhCn);
}

#[test]
fn settings_follow_init_and_set() {
    let mut s = LanguageSettings::new();
    s.init_from_stored(Some("en_US"));
    assert_eq!(detect_language(&s), AppLanguage::EnUs);
    s.set(AppLanguage::ZhCn);
    assert_eq!(detect_language(&s), AppLanguage::ZhCn);
}

#[test]
fn tr_picks_by_language() {
    assert_eq!(tr(AppLanguage::ZhCn, "切换语言", "Switch Language"), "切换语言");
    assert_eq!(tr(AppLanguage::EnUs, "切换语言", "Switch Language"), "Switch Language");
}

#[test]
fn english_tag_needs_en_prefix() {
    assert!(is_english_tag("en_us.utf-8"));
    assert!(is_english_tag("en"));
    assert!(!is_english_tag("e"));
    assert!(!is_english_tag("EN_US"));
    assert!(!is_english_tag("zh_cn"));
}

#[test]
fn system_language_lowercases_before_matching() {
    let v = vec![None, Some("EN_US.UTF-8".to_string()), None];
    assert_eq!(system_language(&v), AppLanguage::EnUs);
}

#[test]
fn system_language_looks_past_other_locales() {
    let v = vec![Some("zh_CN.UTF-8".to_string()), None, Some("en_GB".to_string())];
    assert_eq!(system_language(&v), AppLanguage::EnUs);
    let v = vec![Some("de_DE".to_string()), None, Some("C".to_string())];
    assert_eq!(system_language(&v), AppLanguage::ZhCn);
    assert_eq!(system_language(&vec![None, None, None]), AppLanguage::ZhCn);
}

#[test]
fn menu_ids_map_to_commands() {
    assert_eq!(menu_command("language_zh_CN"), MenuCommand::SwitchLanguage(AppLanguage::ZhCn));
    assert_eq!(menu_command("language_en_US"), MenuCommand::SwitchLanguage(AppLanguage::EnUs));
    assert_eq!(menu_command("window_standard_size"), MenuCommand::Resize { width: 1280, height: 768 });
    assert_eq!(menu_command("window_min_size"), MenuCommand::Resize { width: 1080, height: 648 });
    assert_eq!(menu_command("window_minimize"), MenuCommand::Minimize);
    assert_eq!(menu_command("window_fullscreen"), MenuCommand::ToggleFullscreen);
    assert_eq!(menu_command("tool_search"), MenuCommand::OpenSearch);
    assert_eq!(menu_command("tool_check_updates"), MenuCommand::CheckUpdates);
    assert_eq!(menu_command("tool_refresh_page"), MenuCommand::RefreshPage);
    assert_eq!(menu_command("tool_open_devtools"), MenuCommand::OpenDevtools);
    assert_eq!(menu_command("help_about"), MenuCommand::Forward);
    assert_eq!(menu_command(""), MenuCommand::Forward);
}

#[test]
fn menu_label_follows_language() {
    let k = I18nKey { zh_cn: "窗口".to_string(), en_us: "Window".to_string() };
    assert_eq!(k.text(AppLanguage::ZhCn), "窗口");
    assert_eq!(k.text(AppLanguage::EnUs), "Window");
}

#[test]
fn menu_config_search_order() {
    assert_eq!(
        menu_config_candidates(),
        vec![
            "menu_config.json".to_string(),
            "src-tauri/src/packages/menu/menu_config.json".to_string(),
            "src/packages/menu/menu_config.json".to_string(),
        ]
    );
}

#[test]
fn shortcuts_map_to_actions() {
    let ca = |key| ShortcutKey { ctrl_alt: true, key };
    assert_eq!(shortcut_action(ca(KeyCode::KeyR)), Some(ShortcutAction::StandardSize));
    assert_eq!(shortcut_action(ca(KeyCode::KeyM)), Some(ShortcutAction::Minimize));
    assert_eq!(shortcut_action(ca(KeyCode::KeyF)), Some(ShortcutAction::OpenSearch));
    assert_eq!(shortcut_action(ca(KeyCode::F5)), Some(ShortcutAction::RefreshPage));
    assert_eq!(shortcut_action(ca(KeyCode::KeyI)), Some(ShortcutAction::OpenDevtools));
    assert_eq!(shortcut_action(ca(KeyCode::KeyL)), Some(ShortcutAction::OpenLogFolder));
    assert_eq!(shortcut_action(ca(KeyCode::F11)), None);
    let plain = ShortcutKey { ctrl_alt: false, key: KeyCode::F11 };
    assert_eq!(shortcut_action(plain), Some(ShortcutAction::ToggleFullscreen));
    assert_eq!(shortcut_action(ShortcutKey { ctrl_alt: false, key: KeyCode::KeyR }), None);
}

#[test]
fn every_binding_has_an_action() {
    let b = shortcut_bindings();
    assert_eq!(b.len(), 7);
    for k in &b {
        assert!(shortcut_action(*k).is_some());
    }
    assert!(shortcut_fires(false));
    assert!(!shortcut_fires(true));
}

#[test]
fn monitor_defaults() {
    let c = MonitorConfig::default();
    assert_eq!(c.process_name, "tool_service");
    assert_eq!(c.interval_ms, 3000);
}

#[test]
fn release_urls() {
    assert_eq!(
        release_manifest_url("1.2.0"),
        "https://github.com/garmin954/uf-studio-client/releases/download/v1.2.0/latest.json"
    );
    assert_eq!(
        UpdateChannel::Stable.endpoint(),
        "https://github.com/garmin954/uf-studio-client/releases/latest/download/latest.json"
    );
    assert_eq!(
        UpdateChannel::Beta.endpoint(),
        "http://192.168.1.19/releases/xarm/xarm_tool/releases_beta.json"
    );
    let t = LanguageText { cn: "说明".to_string(), en: "notes".to_string() };
    assert_eq!(t.text(AppLanguage::EnUs), "notes");
}

#[test]
fn responses() {
    let ok: Response<i64> = Response::success(5);
    assert_eq!((ok.code, ok.data, ok.msg.as_str()), (0, Some(5), "success"));
    let err: Response<i64> = Response::error("boom");
    assert_eq!((err.code, err.data, err.msg.as_str()), (-1, None, "boom"));
    let custom = Response::new(7, Some("x"), "done");
    assert_eq!((custom.code, custom.data, custom.msg.as_str()), (7, Some("x"), "done"));
    let from_err: Response<i64> = Response::from_result(Err("bad".to_string()));
    assert_eq!((from_err.code, from_err.msg.as_str()), (-1, "bad"));
    let from_ok: Response<i64> = Response::from_result(Ok(9));
    assert_eq!((from_ok.code, from_ok.data), (0, Some(9)));
}
