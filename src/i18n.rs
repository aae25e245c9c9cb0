use vstd::prelude::*;

verus! {

/// The languages the interface can be shown in.
#[derive(PartialEq, Eq, Structural, Clone, Copy, Debug)]
pub enum AppLanguage {
    ZhCn,
    EnUs,
}

impl Default for AppLanguage {
    /// Simplified Chinese.
    fn default() -> (r: Self)
        ensures
            r == AppLanguage::ZhCn,
    {
        AppLanguage::ZhCn
    }
}

/// The code under which a language is stored in the settings.
pub open spec fn language_code(l: AppLanguage) -> Seq<char> {
    match l {
        AppLanguage::ZhCn => "zh_CN"@,
        AppLanguage::EnUs => "en_US"@,
    }
}

/// The short tag under which the web page keeps the language.
pub open spec fn page_tag(l: AppLanguage) -> Seq<char> {
    match l {
        AppLanguage::ZhCn => "cn"@,
        AppLanguage::EnUs => "en"@,
    }
}

/// The language a stored setting selects: a known code selects its language,
/// anything else (or nothing) the default.
pub open spec fn stored_language(value: Option<Seq<char>>) -> AppLanguage {
    match value {
        Some(v) => if v == "en_US"@ {
            AppLanguage::EnUs
        } else {
            AppLanguage::ZhCn
        },
        None => AppLanguage::ZhCn,
    }
}

/// `s` begins with `en`.
pub open spec fn english_tag(s: Seq<char>) -> bool {
    s.len() >= 2 && s[0] == 'e' && s[1] == 'n'
}

/// What `str::to_lowercase` makes of a text.
pub uninterp spec fn lowercase_of(s: Seq<char>) -> Seq<char>;

/// The language that the locale variables select: English when one of them is set and,
/// lower-cased, begins with `en`; Chinese otherwise.
pub open spec fn environment_language(values: Seq<Option<String>>) -> AppLanguage {
    if exists|i: int|
        0 <= i < values.len() && #[trigger] values[i] is Some && english_tag(
            lowercase_of(values[i]->Some_0@),
        ) {
        AppLanguage::EnUs
    } else {
        AppLanguage::ZhCn
    }
}

/// Relies on `str::to_lowercase`, whose result depends on the text alone.
#[verifier::external_body]
fn to_lowercase(s: &str) -> (r: String)
    ensures
        r@ == lowercase_of(s@),
{
    s.to_lowercase()
}

impl AppLanguage {
    /// The code stored in the settings: `zh_CN` or `en_US`.
    pub fn code(&self) -> (r: String)
        ensures
            r@ == language_code(*self),
    {
        match self {
            AppLanguage::ZhCn => "zh_CN".to_owned(),
            AppLanguage::EnUs => "en_US".to_owned(),
        }
    }

    /// The tag kept by the web page: `cn` or `en`.
    pub fn page_tag(&self) -> (r: String)
        ensures
            r@ == page_tag(*self),
    {
        match self {
            AppLanguage::ZhCn => "cn".to_owned(),
            AppLanguage::EnUs => "en".to_owned(),
        }
    }

    /// The language a stored setting selects; an unknown or missing value gives the default.
    pub fn from_stored(value: Option<&str>) -> (r: AppLanguage)
        ensures
            r == stored_language(
                match value {
                    Some(v) => Some(v@),
                    None => None,
                },
            ),
    {
        match value {
            Some(v) => {
                if v.to_owned() == "en_US".to_owned() {
                    AppLanguage::EnUs
                } else {
                    AppLanguage::ZhCn
                }
            },
            None => AppLanguage::ZhCn,
        }
    }
}

/// Whether a lower-cased locale value names English.
pub fn is_english_tag(lowered: &str) -> (r: bool)
    ensures
        r == english_tag(lowered@),
{
    let n = lowered.unicode_len();
    if n < 2 {
        false
    } else {
        lowered.get_char(0) == 'e' && lowered.get_char(1) == 'n'
    }
}

/// The language that the locale variables (`LC_ALL`, `LANGUAGE`, `LANG`, each read or
/// not) select: English when one of them, lower-cased, begins with `en`.
pub fn system_language(values: &Vec<Option<String>>) -> (r: AppLanguage)
    ensures
        r == environment_language(values@),
{
    let mut i: usize = 0;
    while i < values.len()
        invariant
            i <= values@.len(),
            forall|k: int|
                0 <= k < i ==> !(#[trigger] values@[k] is Some && english_tag(
                    lowercase_of(values@[k]->Some_0@),
                )),
        decreases values@.len() - i,
    {
        match &values[i] {
            Some(v) => {
                let lowered = to_lowercase(v.as_str());
                if is_english_tag(lowered.as_str()) {
                    return AppLanguage::EnUs;
                }
            },
            None => {},
        }
        i = i + 1;
    }
    AppLanguage::ZhCn
}

/// The interface language of the running application: read once from the stored
/// settings at start-up, changed only through `set`.
pub struct LanguageSettings {
    current: AppLanguage,
}

impl LanguageSettings {
    pub closed spec fn current_spec(&self) -> AppLanguage {
        self.current
    }

    /// Settings holding the default language.
    pub fn new() -> (r: Self)
        ensures
            r.current_spec() == AppLanguage::ZhCn,
    {
        LanguageSettings { current: AppLanguage::ZhCn }
    }

    /// Takes the language from the stored setting `value`.
    pub fn init_from_stored(&mut self, value: Option<&str>)
        ensures
            final(self).current_spec() == stored_language(
                match value {
                    Some(v) => Some(v@),
                    None => None,
                },
            ),
    {
        self.current = AppLanguage::from_stored(value);
    }

    /// Switches to `lang`.
    pub fn set(&mut self, lang: AppLanguage)
        ensures
            final(self).current_spec() == lang,
    {
        self.current = lang;
    }
}

/// The current interface language.
pub fn detect_language(settings: &LanguageSettings) -> (r: AppLanguage)
    ensures
        r == settings.current_spec(),
{
    settings.current
}

/// The text for `lang`: `zh` in Chinese, `en` in English.
pub fn tr<'a>(lang: AppLanguage, zh: &'a str, en: &'a str) -> (r: &'a str)
    ensures
        r == (if lang == AppLanguage::ZhCn {
            zh
        } else {
            en
        }),
{
    match lang {
        AppLanguage::ZhCn => zh,
        AppLanguage::EnUs => en,
    }
}

} // verus!
