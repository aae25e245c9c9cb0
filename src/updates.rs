use vstd::prelude::*;
use vstd::string::StringExecFns;

use crate::i18n::AppLanguage;

verus! {

/// A published release, as its manifest describes it: `notes` is itself a JSON text
/// that reads as `Notes`.
pub struct Release {
    pub notes: String,
}

/// A text in Chinese and in English.
pub struct LanguageText {
    pub cn: String,
    pub en: String,
}

/// The release notes of one version.
pub struct Notes {
    pub force_update: bool,
    pub description: LanguageText,
    pub content: LanguageText,
}

impl LanguageText {
    /// The text in `lang`.
    pub fn text(&self, lang: AppLanguage) -> (r: String)
        ensures
            r@ == (if lang == AppLanguage::ZhCn {
                self.cn@
            } else {
                self.en@
            }),
    {
        crate::i18n::tr(lang, self.cn.as_str(), self.en.as_str()).to_owned()
    }
}

/// Where the release manifest of a version is published.
pub open spec fn release_manifest_url_spec(version: Seq<char>) -> Seq<char> {
    "https://github.com/garmin954/uf-studio-client/releases/download/v"@ + version
        + "/latest.json"@
}

/// The address of the release manifest of `version` (written without its leading `v`).
pub fn release_manifest_url(version: &str) -> (r: String)
    ensures
        r@ == release_manifest_url_spec(version@),
{
    let base = "https://github.com/garmin954/uf-studio-client/releases/download/v".to_owned();
    base.concat(version).concat("/latest.json")
}

/// Where the application looks for updates.
#[derive(PartialEq, Eq, Structural, Clone, Copy, Debug)]
pub enum UpdateChannel {
    Beta,
    Stable,
}

pub open spec fn endpoint_spec(c: UpdateChannel) -> Seq<char> {
    match c {
        UpdateChannel::Beta => "http://192.168.1.19/releases/xarm/xarm_tool/releases_beta.json"@,
        UpdateChannel::Stable => "https://github.com/garmin954/uf-studio-client/releases/latest/download/latest.json"@,
    }
}

impl UpdateChannel {
    /// The address of the channel's update manifest.
    pub fn endpoint(&self) -> (r: String)
        ensures
            r@ == endpoint_spec(*self),
    {
        match self {
            UpdateChannel::Beta => "http://192.168.1.19/releases/xarm/xarm_tool/releases_beta.json".to_owned(),
            UpdateChannel::Stable => "https://github.com/garmin954/uf-studio-client/releases/latest/download/latest.json".to_owned(),
        }
    }
}

/// What a check for updates found when a newer version is published.
pub struct UpdateMetadata {
    pub available: bool,
    pub current_version: String,
    pub version: String,
    pub date: Option<String>,
    pub body: Option<String>,
}

impl UpdateMetadata {
    /// The metadata of an available update.
    pub fn found(
        current_version: String,
        version: String,
        date: Option<String>,
        body: Option<String>,
    ) -> (r: Self)
        ensures
            r.available,
            r.current_version == current_version,
            r.version == version,
            r.date == date,
            r.body == body,
    {
        UpdateMetadata { available: true, current_version, version, date, body }
    }
}

/// The step of an update check that failed.
#[derive(PartialEq, Eq, Structural, Clone, Copy, Debug)]
pub enum UpdateFailure {
    /// The channel's address could not be parsed.
    BadUrl,
    /// The updater could not be built.
    UpdaterInit,
    /// Asking the server failed.
    Check,
}

pub open spec fn update_failure_text(f: UpdateFailure, lang: AppLanguage) -> Seq<char> {
    match (f, lang) {
        (UpdateFailure::BadUrl, AppLanguage::ZhCn) => "解析更新URL失败"@,
        (UpdateFailure::BadUrl, AppLanguage::EnUs) => "Failed to parse update URL"@,
        (UpdateFailure::UpdaterInit, AppLanguage::ZhCn) => "无法初始化更新器"@,
        (UpdateFailure::UpdaterInit, AppLanguage::EnUs) => "Failed to initialize updater"@,
        (UpdateFailure::Check, AppLanguage::ZhCn) => "检查更新失败"@,
        (UpdateFailure::Check, AppLanguage::EnUs) => "Check for updates failed"@,
    }
}

impl UpdateFailure {
    /// The description of the failed step in `lang`.
    pub fn text(&self, lang: AppLanguage) -> (r: String)
        ensures
            r@ == update_failure_text(*self, lang),
    {
        let t = match self {
            UpdateFailure::BadUrl => crate::i18n::tr(lang, "解析更新URL失败", "Failed to parse update URL"),
            UpdateFailure::UpdaterInit => crate::i18n::tr(lang, "无法初始化更新器", "Failed to initialize updater"),
            UpdateFailure::Check => crate::i18n::tr(lang, "检查更新失败", "Check for updates failed"),
        };
        t.to_owned()
    }

    /// The message reported for the failed step: its description, then `: ` and the
    /// cause.
    pub fn message(&self, lang: AppLanguage, cause: &str) -> (r: String)
        ensures
            r@ == update_failure_text(*self, lang) + ": "@ + cause@,
    {
        self.text(lang).concat(": ").concat(cause)
    }
}

} // verus!
