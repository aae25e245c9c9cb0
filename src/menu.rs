use vstd::prelude::*;

use crate::i18n::AppLanguage;

verus! {

/// The application menu as configured: its submenus in order.
pub struct MenuConfig {
    pub submenus: Vec<SubmenuConfig>,
}

/// One submenu: its title, whether it is enabled, and its items in order.
pub struct SubmenuConfig {
    pub label: I18nKey,
    pub enabled: bool,
    pub items: Vec<MenuItemConfig>,
}

/// One menu item: the id its events carry, its title, whether it is enabled, and an
/// optional keyboard accelerator.
pub struct MenuItemConfig {
    pub id: String,
    pub label: I18nKey,
    pub enabled: bool,
    pub accelerator: Option<String>,
}

/// A title in each interface language.
pub struct I18nKey {
    pub zh_cn: String,
    pub en_us: String,
}

impl I18nKey {
    /// The title in `lang`.
    pub fn text(&self, lang: AppLanguage) -> (r: String)
        ensures
            r@ == (if lang == AppLanguage::ZhCn {
                self.zh_cn@
            } else {
                self.en_us@
            }),
    {
        crate::i18n::tr(lang, self.zh_cn.as_str(), self.en_us.as_str()).to_owned()
    }
}

/// The places, relative to the executable's directory and then to the working directory,
/// where the menu configuration is looked for, in order.
pub fn menu_config_candidates() -> (r: Vec<String>)
    ensures
        r@.len() == 3,
        r@[0]@ == "menu_config.json"@,
        r@[1]@ == "src-tauri/src/packages/menu/menu_config.json"@,
        r@[2]@ == "src/packages/menu/menu_config.json"@,
{
    let mut r: Vec<String> = Vec::new();
    r.push("menu_config.json".to_owned());
    r.push("src-tauri/src/packages/menu/menu_config.json".to_owned());
    r.push("src/packages/menu/menu_config.json".to_owned());
    r
}

/// What a click on a menu item asks for.
#[derive(PartialEq, Eq, Structural, Clone, Copy, Debug)]
pub enum MenuCommand {
    /// Ask for confirmation, then switch the interface language.
    SwitchLanguage(AppLanguage),
    /// Leave full screen, set the window to this logical size, center and focus it.
    Resize { width: u32, height: u32 },
    Minimize,
    ToggleFullscreen,
    /// Navigate the page to the search page.
    OpenSearch,
    /// Tell the page to check for updates.
    CheckUpdates,
    RefreshPage,
    OpenDevtools,
    /// Hand the item's id to the page unchanged.
    Forward,
}

/// The command of the menu item with id `id`.
pub open spec fn menu_command_spec(id: Seq<char>) -> MenuCommand {
    if id == "language_zh_CN"@ {
        MenuCommand::SwitchLanguage(AppLanguage::ZhCn)
    } else if id == "language_en_US"@ {
        MenuCommand::SwitchLanguage(AppLanguage::EnUs)
    } else if id == "window_standard_size"@ {
        MenuCommand::Resize { width: 1280, height: 768 }
    } else if id == "window_min_size"@ {
        MenuCommand::Resize { width: 1080, height: 648 }
    } else if id == "window_minimize"@ {
        MenuCommand::Minimize
    } else if id == "window_fullscreen"@ {
        MenuCommand::ToggleFullscreen
    } else if id == "tool_search"@ {
        MenuCommand::OpenSearch
    } else if id == "tool_check_updates"@ {
        MenuCommand::CheckUpdates
    } else if id == "tool_refresh_page"@ {
        MenuCommand::RefreshPage
    } else if id == "tool_open_devtools"@ {
        MenuCommand::OpenDevtools
    } else {
        MenuCommand::Forward
    }
}

/// Looks up the command of the menu item with id `id`.
pub fn menu_command(id: &str) -> (r: MenuCommand)
    ensures
        r == menu_command_spec(id@),
{
    let id = id.to_owned();
    if id == "language_zh_CN".to_owned() {
        MenuCommand::SwitchLanguage(AppLanguage::ZhCn)
    } else if id == "language_en_US".to_owned() {
        MenuCommand::SwitchLanguage(AppLanguage::EnUs)
    } else if id == "window_standard_size".to_owned() {
        MenuCommand::Resize { width: 1280, height: 768 }
    } else if id == "window_min_size".to_owned() {
        MenuCommand::Resize { width: 1080, height: 648 }
    } else if id == "window_minimize".to_owned() {
        MenuCommand::Minimize
    } else if id == "window_fullscreen".to_owned() {
        MenuCommand::ToggleFullscreen
    } else if id == "tool_search".to_owned() {
        MenuCommand::OpenSearch
    } else if id == "tool_check_updates".to_owned() {
        MenuCommand::CheckUpdates
    } else if id == "tool_refresh_page".to_owned() {
        MenuCommand::RefreshPage
    } else if id == "tool_open_devtools".to_owned() {
        MenuCommand::OpenDevtools
    } else {
        MenuCommand::Forward
    }
}

/// A key that the global shortcuts use.
#[derive(PartialEq, Eq, Structural, Clone, Copy, Debug, Hash)]
pub enum KeyCode {
    KeyR,
    KeyM,
    KeyF,
    KeyI,
    KeyL,
    F5,
    F11,
}

/// A global shortcut: a key, with or without Ctrl+Alt held.
#[derive(PartialEq, Eq, Structural, Clone, Copy, Debug, Hash)]
pub struct ShortcutKey {
    pub ctrl_alt: bool,
    pub key: KeyCode,
}

/// What a global shortcut asks for.
#[derive(PartialEq, Eq, Structural, Clone, Copy, Debug)]
pub enum ShortcutAction {
    /// Set the window to its standard logical size.
    StandardSize,
    Minimize,
    ToggleFullscreen,
    OpenSearch,
    RefreshPage,
    OpenDevtools,
    /// Open the folder that holds the application's logs.
    OpenLogFolder,
}

/// The action bound to shortcut `k`, if any.
pub open spec fn shortcut_action_spec(k: ShortcutKey) -> Option<ShortcutAction> {
    if !k.ctrl_alt {
        if k.key == KeyCode::F11 {
            Some(ShortcutAction::ToggleFullscreen)
        } else {
            None
        }
    } else {
        match k.key {
            KeyCode::KeyR => Some(ShortcutAction::StandardSize),
            KeyCode::KeyM => Some(ShortcutAction::Minimize),
            KeyCode::KeyF => Some(ShortcutAction::OpenSearch),
            KeyCode::F5 => Some(ShortcutAction::RefreshPage),
            KeyCode::KeyI => Some(ShortcutAction::OpenDevtools),
            KeyCode::KeyL => Some(ShortcutAction::OpenLogFolder),
            KeyCode::F11 => None,
        }
    }
}

/// Looks up the action bound to shortcut `k`.
pub fn shortcut_action(k: ShortcutKey) -> (r: Option<ShortcutAction>)
    ensures
        r == shortcut_action_spec(k),
{
    if !k.ctrl_alt {
        if k.key == KeyCode::F11 {
            Some(ShortcutAction::ToggleFullscreen)
        } else {
            None
        }
    } else {
        match k.key {
            KeyCode::KeyR => Some(ShortcutAction::StandardSize),
            KeyCode::KeyM => Some(ShortcutAction::Minimize),
            KeyCode::KeyF => Some(ShortcutAction::OpenSearch),
            KeyCode::F5 => Some(ShortcutAction::RefreshPage),
            KeyCode::KeyI => Some(ShortcutAction::OpenDevtools),
            KeyCode::KeyL => Some(ShortcutAction::OpenLogFolder),
            KeyCode::F11 => None,
        }
    }
}

/// The shortcuts to register while the window has focus: each has an action, and
/// each bound shortcut is listed once.
pub fn shortcut_bindings() -> (r: Vec<ShortcutKey>)
    ensures
        forall|i: int| 0 <= i < r@.len() ==> shortcut_action_spec(#[trigger] r@[i]) is Some,
        forall|k: ShortcutKey| shortcut_action_spec(k) is Some ==> r@.contains(k),
        r@.no_duplicates(),
{
    let mut r: Vec<ShortcutKey> = Vec::new();
    r.push(ShortcutKey { ctrl_alt: true, key: KeyCode::KeyR });
    r.push(ShortcutKey { ctrl_alt: true, key: KeyCode::KeyM });
    r.push(ShortcutKey { ctrl_alt: false, key: KeyCode::F11 });
    r.push(ShortcutKey { ctrl_alt: true, key: KeyCode::KeyF });
    r.push(ShortcutKey { ctrl_alt: true, key: KeyCode::F5 });
    r.push(ShortcutKey { ctrl_alt: true, key: KeyCode::KeyI });
    r.push(ShortcutKey { ctrl_alt: true, key: KeyCode::KeyL });
    proof {
        assert forall|k: ShortcutKey| shortcut_action_spec(k) is Some implies r@.contains(k) by {
            if k.ctrl_alt {
                match k.key {
                    KeyCode::KeyR => assert(r@[0] == k),
                    KeyCode::KeyM => assert(r@[1] == k),
                    KeyCode::KeyF => assert(r@[3] == k),
                    KeyCode::F5 => assert(r@[4] == k),
                    KeyCode::KeyI => assert(r@[5] == k),
                    KeyCode::KeyL => assert(r@[6] == k),
                    KeyCode::F11 => {},
                }
            } else {
                assert(r@[2] == k);
            }
        }
    }
    r
}

/// A shortcut acts when its key is released, not when it is pressed.
pub fn shortcut_fires(pressed: bool) -> (r: bool)
    ensures
        r == !pressed,
{
    !pressed
}

} // verus!
