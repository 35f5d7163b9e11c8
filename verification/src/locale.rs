//! Locale metadata and the catalogue of localised interface texts.

use vstd::prelude::*;
use crate::tables::{
    ARABIC, BRAZILIAN_PORTUGUESE, CZECH, ENGLISH, FRENCH, GERMAN, HINDI, ITALIAN, JAPANESE, KOREAN, NORWEGIAN, PERSIAN, POLISH, RUSSIAN, SERBIAN, SIMPLIFIED_CHINESE, SPANISH, THAI, TRADITIONAL_CHINESE, TURKISH, UKRAINIAN,
};
use crate::text::str_eq;

verus! {

/// A language the client ships a catalogue for.
#[derive(Clone, Copy, Debug, PartialEq, Eq, Structural)]
pub enum Locale {
    Arabic,
    Czech,
    German,
    English,
    Spanish,
    Persian,
    French,
    Hindi,
    Italian,
    Japanese,
    Korean,
    Norwegian,
    Polish,
    BrazilianPortuguese,
    Russian,
    Serbian,
    Thai,
    Turkish,
    Ukrainian,
    SimplifiedChinese,
    TraditionalChinese,
}

impl Default for Locale {
    fn default() -> (res: Self)
        ensures
            res == Locale::English,
    {
        Locale::English
    }
}

/// Every supported locale, in the order the language menu lists them.
pub const ALL_LOCALES: [Locale; 21] = [
    Locale::Arabic,
    Locale::Czech,
    Locale::German,
    Locale::English,
    Locale::Spanish,
    Locale::Persian,
    Locale::French,
    Locale::Hindi,
    Locale::Italian,
    Locale::Japanese,
    Locale::Korean,
    Locale::Norwegian,
    Locale::Polish,
    Locale::BrazilianPortuguese,
    Locale::Russian,
    Locale::Serbian,
    Locale::Thai,
    Locale::Turkish,
    Locale::Ukrainian,
    Locale::SimplifiedChinese,
    Locale::TraditionalChinese,
];

/// Aliases that short UI names resolve to before a catalogue lookup.
pub const UI_COPY_SOURCES: [(&'static str, &'static str); 25] = [
    ("drop", "sender.dropFilesHere"),
    ("start", "sender.startSharing"),
    ("stop", "sender.stopSharing"),
    ("save", "receiver.saveToFolder"),
    ("receive_action", "receive"),
    ("copy", "sender.copyToClipboard"),
    ("new", "transfer.newTransfer"),
    ("path_selected_file", "sender.fileSelected"),
    ("path_selected_folder", "sender.folderSelected"),
    ("preparing", "sender.preparingForTransport"),
    ("listening", "sender.listeningForConnection"),
    ("sharing", "sender.sharingInProgress"),
    ("stopping", "sender.stoppingTransmission"),
    ("ticket_copied", "sender.copyToClipboard"),
    ("connecting", "receiver.connectingToSender"),
    ("downloading", "receiver.downloadingInProgress"),
    ("download_completed", "receiver.downloadCompleted"),
    ("receive_failed", "errors.receiveFailed"),
    ("transfer_completed", "sender.transferCompleted"),
    ("transfer_failed", "errors.sharingFailed"),
    ("finalizing", "transfer.complete"),
    ("open_folder", "receiver.openFolder"),
    ("transfer_complete", "transfer.complete"),
    ("failed", "transfer.failed"),
    ("try_again", "transfer.tryAgain"),
];

/// The value of the first entry of `table` whose key is `key`, if any.
pub open spec fn table_get(table: Seq<(&'static str, &'static str)>, key: Seq<char>) -> Option<
    &'static str,
>
    decreases table.len(),
{
    if table.len() == 0 {
        None
    } else if table[0].0@ == key {
        Some(table[0].1)
    } else {
        table_get(table.drop_first(), key)
    }
}

/// The first lookup of `table_get` past position `i`, spelled out one step.
proof fn lemma_table_get_step(table: Seq<(&'static str, &'static str)>, key: Seq<char>, i: int)
    requires
        0 <= i < table.len(),
    ensures
        table_get(table.skip(i), key) == (if table[i].0@ == key {
            Some(table[i].1)
        } else {
            table_get(table.skip(i + 1), key)
        }),
{
    assert(table.skip(i)[0] == table[i]);
    assert(table.skip(i).drop_first() =~= table.skip(i + 1));
}

/// Looks `key` up in a table, returning the value of its first entry with that key.
pub fn table_lookup(table: &[(&'static str, &'static str)], key: &str) -> (res: Option<
    &'static str,
>)
    ensures
        res == table_get(table@, key@),
{
    let mut i: usize = 0;
    assert(table@.skip(0) =~= table@);
    while i < table.len()
        invariant
            i <= table@.len(),
            table_get(table@, key@) == table_get(table@.skip(i as int), key@),
        decreases table@.len() - i,
    {
        proof {
            lemma_table_get_step(table@, key@, i as int);
        }
        let entry = table[i];
        if str_eq(entry.0, key) {
            return Some(entry.1);
        }
        i = i + 1;
    }
    assert(table@.skip(i as int).len() == 0);
    None
}

/// The catalogue entries a locale defines itself (English defines all of them).
pub open spec fn own_entries(locale: Locale) -> Seq<(&'static str, &'static str)> {
    match locale {
        Locale::Arabic => ARABIC@,
        Locale::Czech => CZECH@,
        Locale::German => GERMAN@,
        Locale::English => ENGLISH@,
        Locale::Spanish => SPANISH@,
        Locale::Persian => PERSIAN@,
        Locale::French => FRENCH@,
        Locale::Hindi => HINDI@,
        Locale::Italian => ITALIAN@,
        Locale::Japanese => JAPANESE@,
        Locale::Korean => KOREAN@,
        Locale::Norwegian => NORWEGIAN@,
        Locale::Polish => POLISH@,
        Locale::BrazilianPortuguese => BRAZILIAN_PORTUGUESE@,
        Locale::Russian => RUSSIAN@,
        Locale::Serbian => SERBIAN@,
        Locale::Thai => THAI@,
        Locale::Turkish => TURKISH@,
        Locale::Ukrainian => UKRAINIAN@,
        Locale::SimplifiedChinese => SIMPLIFIED_CHINESE@,
        Locale::TraditionalChinese => TRADITIONAL_CHINESE@,
    }
}

/// What the English catalogue holds for `key`.
pub open spec fn english_text(key: Seq<char>) -> Option<&'static str> {
    table_get(ENGLISH@, key)
}

/// The catalogue of `locale`: its own entry for `key`, else the English one.
pub open spec fn catalog_text(locale: Locale, key: Seq<char>) -> Option<&'static str> {
    match table_get(own_entries(locale), key) {
        Some(value) => Some(value),
        None => english_text(key),
    }
}

/// The catalogue key that a UI name reads: its alias where it has one, else the name itself.
pub open spec fn ui_source_key(key: Seq<char>) -> Seq<char> {
    match table_get(UI_COPY_SOURCES@, key) {
        Some(source) => source@,
        None => key,
    }
}

/// The locales in menu order.
pub open spec fn all_locales() -> Seq<Locale> {
    ALL_LOCALES@
}

/// The position of a locale in the language menu.
pub open spec fn menu_index(locale: Locale) -> int {
    match locale {
        Locale::Arabic => 0,
        Locale::Czech => 1,
        Locale::German => 2,
        Locale::English => 3,
        Locale::Spanish => 4,
        Locale::Persian => 5,
        Locale::French => 6,
        Locale::Hindi => 7,
        Locale::Italian => 8,
        Locale::Japanese => 9,
        Locale::Korean => 10,
        Locale::Norwegian => 11,
        Locale::Polish => 12,
        Locale::BrazilianPortuguese => 13,
        Locale::Russian => 14,
        Locale::Serbian => 15,
        Locale::Thai => 16,
        Locale::Turkish => 17,
        Locale::Ukrainian => 18,
        Locale::SimplifiedChinese => 19,
        Locale::TraditionalChinese => 20,
    }
}

/// The language menu lists 21 locales, each exactly once, and every locale is among them.
pub proof fn lemma_all_locales_listed_once(locale: Locale)
    ensures
        all_locales().len() == 21,
        0 <= menu_index(locale) < 21,
        all_locales()[menu_index(locale)] == locale,
        forall|i: int| 0 <= i < 21 ==> menu_index(#[trigger] all_locales()[i]) == i,
        forall|i: int, j: int|
            0 <= i < 21 && 0 <= j < 21 && i != j ==> all_locales()[i] != all_locales()[j],
{
    assert forall|i: int| 0 <= i < 21 implies menu_index(#[trigger] all_locales()[i]) == i by {
        if i == 0 {
        } else if i == 1 {
        } else if i == 2 {
        } else if i == 3 {
        } else if i == 4 {
        } else if i == 5 {
        } else if i == 6 {
        } else if i == 7 {
        } else if i == 8 {
        } else if i == 9 {
        } else if i == 10 {
        } else if i == 11 {
        } else if i == 12 {
        } else if i == 13 {
        } else if i == 14 {
        } else if i == 15 {
        } else if i == 16 {
        } else if i == 17 {
        } else if i == 18 {
        } else if i == 19 {
        } else if i == 20 {
        }
    }
    assert forall|i: int, j: int|
        0 <= i < 21 && 0 <= j < 21 && i != j implies all_locales()[i] != all_locales()[j] by {
        assert(menu_index(all_locales()[i]) == i);
        assert(menu_index(all_locales()[j]) == j);
    }
}

/// Every locale's catalogue is complete with respect to English: a key that English
/// defines has a text, possibly the English one itself, in every locale.
pub proof fn lemma_english_fallback_complete(locale: Locale, key: Seq<char>)
    requires
        english_text(key) is Some,
    ensures
        catalog_text(locale, key) is Some,
{
}

/// A locale's own entry always wins over the English fallback, and where it has none
/// the English text is shown.
pub proof fn lemma_own_entry_wins(locale: Locale, key: Seq<char>)
    ensures
        table_get(own_entries(locale), key) is Some ==> catalog_text(locale, key) == table_get(
            own_entries(locale),
            key,
        ),
        table_get(own_entries(locale), key) is None ==> catalog_text(locale, key) == english_text(
            key,
        ),
{
}

/// English lookups read the English catalogue and nothing else.
pub proof fn lemma_english_reads_english(key: Seq<char>)
    ensures
        catalog_text(Locale::English, key) == english_text(key),
{
}

/// A key that no catalogue defines has no text in any locale.
pub proof fn lemma_unknown_key_untranslated(locale: Locale, key: Seq<char>)
    requires
        table_get(own_entries(locale), key) is None,
        english_text(key) is None,
    ensures
        catalog_text(locale, key) is None,
{
}

/// A UI name without an alias reads the catalogue under that very name.
pub proof fn lemma_ui_copy_without_alias(locale: Locale, key: Seq<char>)
    requires
        table_get(UI_COPY_SOURCES@, key) is None,
    ensures
        catalog_text(locale, ui_source_key(key)) == catalog_text(locale, key),
{
}

impl Locale {
    /// The locale's BCP 47 code.
    pub open spec fn spec_code(self) -> &'static str {
        match self {
            Locale::Arabic => "ar",
            Locale::Czech => "cs",
            Locale::German => "de",
            Locale::English => "en",
            Locale::Spanish => "es",
            Locale::Persian => "fa",
            Locale::French => "fr",
            Locale::Hindi => "hi",
            Locale::Italian => "it",
            Locale::Japanese => "ja",
            Locale::Korean => "ko",
            Locale::Norwegian => "no",
            Locale::Polish => "pl",
            Locale::BrazilianPortuguese => "pt-BR",
            Locale::Russian => "ru",
            Locale::Serbian => "sr",
            Locale::Thai => "th",
            Locale::Turkish => "tr",
            Locale::Ukrainian => "uk",
            Locale::SimplifiedChinese => "zh-CN",
            Locale::TraditionalChinese => "zh-TW",
        }
    }

    /// The locale's name in its own language.
    pub open spec fn spec_label(self) -> &'static str {
        match self {
            Locale::Arabic => "العربية",
            Locale::Czech => "Čeština",
            Locale::German => "Deutsch",
            Locale::English => "English",
            Locale::Spanish => "Español",
            Locale::Persian => "فارسی",
            Locale::French => "Français",
            Locale::Hindi => "हिन्दी",
            Locale::Italian => "Italiano",
            Locale::Japanese => "日本語",
            Locale::Korean => "한국어",
            Locale::Norwegian => "Norsk",
            Locale::Polish => "Polski",
            Locale::BrazilianPortuguese => "Português (Brasil)",
            Locale::Russian => "Русский",
            Locale::Serbian => "Српски",
            Locale::Thai => "ไทย",
            Locale::Turkish => "Türkçe",
            Locale::Ukrainian => "Українська",
            Locale::SimplifiedChinese => "简体中文",
            Locale::TraditionalChinese => "繁體中文",
        }
    }

    /// Returns every locale the client ships a catalogue for.
    pub fn all() -> (res: &'static [Locale])
        ensures
            res@ == all_locales(),
    {
        &ALL_LOCALES
    }

    /// The locale's BCP 47 code, such as `pt-BR`.
    pub fn code(self) -> (res: &'static str)
        ensures
            res == self.spec_code(),
    {
        match self {
            Locale::Arabic => "ar",
            Locale::Czech => "cs",
            Locale::German => "de",
            Locale::English => "en",
            Locale::Spanish => "es",
            Locale::Persian => "fa",
            Locale::French => "fr",
            Locale::Hindi => "hi",
            Locale::Italian => "it",
            Locale::Japanese => "ja",
            Locale::Korean => "ko",
            Locale::Norwegian => "no",
            Locale::Polish => "pl",
            Locale::BrazilianPortuguese => "pt-BR",
            Locale::Russian => "ru",
            Locale::Serbian => "sr",
            Locale::Thai => "th",
            Locale::Turkish => "tr",
            Locale::Ukrainian => "uk",
            Locale::SimplifiedChinese => "zh-CN",
            Locale::TraditionalChinese => "zh-TW",
        }
    }

    /// The locale's name as its speakers write it, shown in the language menu.
    pub fn label(self) -> (res: &'static str)
        ensures
            res == self.spec_label(),
    {
        match self {
            Locale::Arabic => "العربية",
            Locale::Czech => "Čeština",
            Locale::German => "Deutsch",
            Locale::English => "English",
            Locale::Spanish => "Español",
            Locale::Persian => "فارسی",
            Locale::French => "Français",
            Locale::Hindi => "हिन्दी",
            Locale::Italian => "Italiano",
            Locale::Japanese => "日本語",
            Locale::Korean => "한국어",
            Locale::Norwegian => "Norsk",
            Locale::Polish => "Polski",
            Locale::BrazilianPortuguese => "Português (Brasil)",
            Locale::Russian => "Русский",
            Locale::Serbian => "Српски",
            Locale::Thai => "ไทย",
            Locale::Turkish => "Türkçe",
            Locale::Ukrainian => "Українська",
            Locale::SimplifiedChinese => "简体中文",
            Locale::TraditionalChinese => "繁體中文",
        }
    }

    /// The locale's own catalogue entries.
    fn own_table(self) -> (res: &'static [(&'static str, &'static str)])
        ensures
            res@ == own_entries(self),
    {
        match self {
            Locale::Arabic => &ARABIC,
            Locale::Czech => &CZECH,
            Locale::German => &GERMAN,
            Locale::English => &ENGLISH,
            Locale::Spanish => &SPANISH,
            Locale::Persian => &PERSIAN,
            Locale::French => &FRENCH,
            Locale::Hindi => &HINDI,
            Locale::Italian => &ITALIAN,
            Locale::Japanese => &JAPANESE,
            Locale::Korean => &KOREAN,
            Locale::Norwegian => &NORWEGIAN,
            Locale::Polish => &POLISH,
            Locale::BrazilianPortuguese => &BRAZILIAN_PORTUGUESE,
            Locale::Russian => &RUSSIAN,
            Locale::Serbian => &SERBIAN,
            Locale::Thai => &THAI,
            Locale::Turkish => &TURKISH,
            Locale::Ukrainian => &UKRAINIAN,
            Locale::SimplifiedChinese => &SIMPLIFIED_CHINESE,
            Locale::TraditionalChinese => &TRADITIONAL_CHINESE,
        }
    }

    /// The localised text of a dotted catalogue key, falling back to English; `None`
    /// for a key that no catalogue defines.
    pub fn lookup(self, key: &str) -> (res: Option<&'static str>)
        ensures
            res == catalog_text(self, key@),
    {
        match table_lookup(self.own_table(), key) {
            Some(value) => Some(value),
            None => table_lookup(&ENGLISH, key),
        }
    }

    /// The localised text of a short UI name: the name is first resolved through its
    /// alias (for example `drop` to `sender.dropFilesHere`), then looked up.
    pub fn ui_copy(self, key: &str) -> (res: Option<&'static str>)
        ensures
            res == catalog_text(self, ui_source_key(key@)),
    {
        let source_key = match table_lookup(&UI_COPY_SOURCES, key) {
            Some(source) => source,
            None => key,
        };
        self.lookup(source_key)
    }
}

} // verus!
