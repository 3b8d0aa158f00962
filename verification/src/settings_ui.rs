//! The rules behind the settings page: the languages the language list
//! offers, and the tables that give each settings group and row the widget
//! name it is found by and the message keys of its title and subtitle.

use vstd::prelude::*;

use crate::i18n::{en_us, ja_jp, zh_cn};
use crate::text::str_eq;

verus! {

broadcast use vstd::string::group_string_axioms;

// ------------------------------------------------------------------
// Languages
// ------------------------------------------------------------------

/// The languages of the language list, in the order they are listed.
pub open spec fn languages() -> Seq<Seq<char>> {
    seq![zh_cn(), en_us(), ja_jp()]
}

/// The position of `lang` in the language list; English (position 1) for a
/// language that is not listed.
pub open spec fn spec_language_index(lang: Seq<char>) -> u32 {
    if lang == zh_cn() {
        0
    } else if lang == en_us() {
        1
    } else if lang == ja_jp() {
        2
    } else {
        1
    }
}

/// The position of `lang` in the language list.
pub fn language_index(lang: &str) -> (res: u32)
    ensures
        res == spec_language_index(lang@),
{
    proof {
        reveal_strlit("zh_CN");
        reveal_strlit("en_US");
        reveal_strlit("ja_JP");
        assert("zh_CN"@ =~= zh_cn());
        assert("en_US"@ =~= en_us());
        assert("ja_JP"@ =~= ja_jp());
    }
    if str_eq(lang, "zh_CN") {
        0
    } else if str_eq(lang, "en_US") {
        1
    } else if str_eq(lang, "ja_JP") {
        2
    } else {
        1
    }
}

/// The language at position `index` of the language list, if there is one.
pub fn language_at(index: u32) -> (res: Option<String>)
    ensures
        index < 3 ==> (res matches Some(l) && l@ == languages()[index as int]),
        index >= 3 ==> res is None,
{
    proof {
        reveal_strlit("zh_CN");
        reveal_strlit("en_US");
        reveal_strlit("ja_JP");
        assert("zh_CN"@ =~= zh_cn());
        assert("en_US"@ =~= en_us());
        assert("ja_JP"@ =~= ja_jp());
    }
    if index == 0 {
        Some(String::from_str("zh_CN"))
    } else if index == 1 {
        Some(String::from_str("en_US"))
    } else if index == 2 {
        Some(String::from_str("ja_JP"))
    } else {
        None
    }
}

/// Selecting the language at a position and looking its position up again
/// gives that position back; looking up a listed language and taking the
/// language at its position gives that language back.
pub proof fn lemma_language_round_trip(index: int, lang: Seq<char>)
    ensures
        0 <= index < 3 ==> spec_language_index(languages()[index]) == index,
        languages().contains(lang) ==> languages()[spec_language_index(lang) as int] == lang,
{
    if languages().contains(lang) {
        let k = choose|k: int| 0 <= k < 3 && languages()[k] == lang;
    }
}

/// The message keys of the language names, in list order.
pub fn language_name_keys() -> (res: Vec<&'static str>)
    ensures
        res@ == seq!["LANG_ZH_CN", "LANG_EN_US", "LANG_JA_JP"],
{
    vec!["LANG_ZH_CN", "LANG_EN_US", "LANG_JA_JP"]
}

// ------------------------------------------------------------------
// Lookup tables
// ------------------------------------------------------------------

/// The pairs of a table, each string taken by its characters.
pub open spec fn pair_views(t: Seq<(&str, &str)>) -> Seq<(Seq<char>, Seq<char>)> {
    t.map_values(|p: (&str, &str)| (p.0@, p.1@))
}

/// The second string of the first pair of `table` whose first string is
/// `key`.
pub open spec fn table_lookup(table: Seq<(Seq<char>, Seq<char>)>, key: Seq<char>) -> Option<Seq<char>>
    decreases table.len(),
{
    if table.len() == 0 {
        None
    } else if table[0].0 == key {
        Some(table[0].1)
    } else {
        table_lookup(table.drop_first(), key)
    }
}

/// No two pairs of `table` have the same first string.
pub open spec fn keys_distinct(table: Seq<(Seq<char>, Seq<char>)>) -> bool {
    forall|i: int, j: int| 0 <= i < j < table.len() ==> table[i].0 != table[j].0
}

/// In a table whose keys are distinct, looking up the key of a pair gives
/// that pair's second string.
pub proof fn lemma_lookup_own_key(table: Seq<(Seq<char>, Seq<char>)>, i: int)
    requires
        keys_distinct(table),
        0 <= i < table.len(),
    ensures
        table_lookup(table, table[i].0) == Some(table[i].1),
    decreases i,
{
    if i > 0 {
        let rest = table.drop_first();
        assert(table[0].0 != table[i].0);
        assert(rest[i - 1] == table[i]);
        assert(keys_distinct(rest)) by {
            assert forall|a: int, b: int| 0 <= a < b < rest.len() implies rest[a].0 != rest[b].0 by {
                assert(rest[a] == table[a + 1]);
                assert(rest[b] == table[b + 1]);
            }
        }
        lemma_lookup_own_key(rest, i - 1);
    }
}

/// Looks `key` up in `table`: the second string of the first pair whose
/// first string is `key`.
pub fn lookup(table: &Vec<(&'static str, &'static str)>, key: &str) -> (res: Option<&'static str>)
    ensures
        match res {
            Some(v) => table_lookup(pair_views(table@), key@) == Some(v@),
            None => table_lookup(pair_views(table@), key@) is None,
        },
{
    let ghost t = pair_views(table@);
    let mut i: usize = 0;
    assert(t.skip(0) =~= t);
    while i < table.len()
        invariant
            t == pair_views(table@),
            i <= table@.len(),
            table_lookup(t, key@) == table_lookup(t.skip(i as int), key@),
        decreases table.len() - i,
    {
        let (k, v) = table[i];
        assert(t.skip(i as int)[0] == t[i as int]);
        if str_eq(k, key) {
            return Some(v);
        }
        assert(t.skip(i as int).drop_first() =~= t.skip(i + 1));
        i += 1;
    }
    None
}

/// The English titles of the settings groups and rows, each with the widget
/// name it is given.
pub open spec fn title_names_table() -> Seq<(&'static str, &'static str)> {
    seq![
        ("General", "general"),
        ("Maintenance", "maintenance"),
        ("Language", "general-language"),
        ("Dark Mode", "general-dark-mode"),
        ("Output Folder", "general-output-folder"),
        ("Clear Cache", "maintenance-clear-cache"),
        ("Clear Database", "maintenance-clear-database"),
        ("Reset Settings", "maintenance-reset-settings"),
        ("About", "maintenance-about"),
        ("Application language", "general-language-subtitle"),
        ("Use dark theme", "general-dark-mode-subtitle"),
        ("Where converted files are saved", "general-output-folder-subtitle"),
        ("Delete temporary files", "maintenance-clear-cache-subtitle"),
        ("Remove all library data", "maintenance-clear-database-subtitle"),
        ("Restore defaults", "maintenance-reset-settings-subtitle"),
        ("Application information", "maintenance-about-subtitle"),
    ]
}

/// The widget names of the settings groups and rows, each with the message
/// key of its title.
pub open spec fn title_translations_table() -> Seq<(&'static str, &'static str)> {
    seq![
        ("general", "GENERAL"),
        ("maintenance", "MAINTENANCE"),
        ("general-language", "LANGUAGE"),
        ("general-dark-mode", "DARK_MODE"),
        ("general-output-folder", "OUTPUT_FOLDER"),
        ("maintenance-clear-cache", "CLEAR_CACHE"),
        ("maintenance-clear-database", "CLEAR_DATABASE"),
        ("maintenance-reset-settings", "RESET_SETTINGS"),
        ("maintenance-about", "ABOUT"),
    ]
}

/// The widget names of the settings rows, each with the message key of its
/// subtitle.
pub open spec fn subtitle_translations_table() -> Seq<(&'static str, &'static str)> {
    seq![
        ("general-language", "APPLICATION_LANGUAGE"),
        ("general-dark-mode", "USE_DARK_THEME"),
        ("general-output-folder", "WHERE_CONVERTED_SAVED"),
        ("maintenance-clear-cache", "DELETE_TEMPORARY_FILES"),
        ("maintenance-clear-database", "REMOVE_ALL_LIBRARY_DATA"),
        ("maintenance-reset-settings", "RESTORE_DEFAULTS"),
        ("maintenance-about", "APPLICATION_INFORMATION"),
    ]
}

/// A table whose keys each map, under some function, to their own position
/// has distinct keys.
proof fn lemma_distinct_by_code(t: Seq<(Seq<char>, Seq<char>)>, code: spec_fn(Seq<char>) -> int)
    requires
        forall|k: int| 0 <= k < t.len() ==> code(#[trigger] t[k].0) == k,
    ensures
        keys_distinct(t),
{
    assert forall|i: int, j: int| 0 <= i < j < t.len() implies t[i].0 != t[j].0 by {
        assert(code(t[i].0) == i);
        assert(code(t[j].0) == j);
    }
}

/// The position of an English title in the title table.
spec fn title_code(s: Seq<char>) -> int {
    if s == "General"@ {
        0
    } else if s == "Maintenance"@ {
        1
    } else if s == "Language"@ {
        2
    } else if s == "Dark Mode"@ {
        3
    } else if s == "Output Folder"@ {
        4
    } else if s == "Clear Cache"@ {
        5
    } else if s == "Clear Database"@ {
        6
    } else if s == "Reset Settings"@ {
        7
    } else if s == "About"@ {
        8
    } else if s == "Application language"@ {
        9
    } else if s == "Use dark theme"@ {
        10
    } else if s == "Where converted files are saved"@ {
        11
    } else if s == "Delete temporary files"@ {
        12
    } else if s == "Remove all library data"@ {
        13
    } else if s == "Restore defaults"@ {
        14
    } else if s == "Application information"@ {
        15
    } else {
        -1
    }
}

/// The position of a widget name in the title-translation table.
spec fn name_code(s: Seq<char>) -> int {
    if s == "general"@ {
        0
    } else if s == "maintenance"@ {
        1
    } else if s == "general-language"@ {
        2
    } else if s == "general-dark-mode"@ {
        3
    } else if s == "general-output-folder"@ {
        4
    } else if s == "maintenance-clear-cache"@ {
        5
    } else if s == "maintenance-clear-database"@ {
        6
    } else if s == "maintenance-reset-settings"@ {
        7
    } else if s == "maintenance-about"@ {
        8
    } else {
        -1
    }
}

/// The position of a widget name in the subtitle-translation table.
spec fn subtitle_name_code(s: Seq<char>) -> int {
    if s == "general-language"@ {
        0
    } else if s == "general-dark-mode"@ {
        1
    } else if s == "general-output-folder"@ {
        2
    } else if s == "maintenance-clear-cache"@ {
        3
    } else if s == "maintenance-clear-database"@ {
        4
    } else if s == "maintenance-reset-settings"@ {
        5
    } else if s == "maintenance-about"@ {
        6
    } else {
        -1
    }
}

/// No English title stands twice in the title table, so each title finds
/// its own widget name.
pub proof fn lemma_title_names_distinct()
    ensures
        keys_distinct(pair_views(title_names_table())),
{
    reveal_strlit("About");
    reveal_strlit("Application information");
    reveal_strlit("Application language");
    reveal_strlit("Clear Cache");
    reveal_strlit("Clear Database");
    reveal_strlit("Dark Mode");
    reveal_strlit("Delete temporary files");
    reveal_strlit("General");
    reveal_strlit("Language");
    reveal_strlit("Maintenance");
    reveal_strlit("Output Folder");
    reveal_strlit("Remove all library data");
    reveal_strlit("Reset Settings");
    reveal_strlit("Restore defaults");
    reveal_strlit("Use dark theme");
    reveal_strlit("Where converted files are saved");
    assert("About"@.len() == 5);
    assert("Application information"@.len() == 23);
    assert("Application language"@.len() == 20);
    assert("Clear Cache"@.len() == 11);
    assert("Clear Database"@.len() == 14);
    assert("Dark Mode"@.len() == 9);
    assert("Delete temporary files"@.len() == 22);
    assert("General"@.len() == 7);
    assert("Language"@.len() == 8);
    assert("Maintenance"@.len() == 11);
    assert("Output Folder"@.len() == 13);
    assert("Remove all library data"@.len() == 23);
    assert("Reset Settings"@.len() == 14);
    assert("Restore defaults"@.len() == 16);
    assert("Use dark theme"@.len() == 14);
    assert("Where converted files are saved"@.len() == 31);
    assert("Application information"@[0] != "Remove all library data"@[0]);
    assert("Clear Cache"@[0] != "Maintenance"@[0]);
    assert("Clear Database"@[0] != "Reset Settings"@[0]);
    assert("Clear Database"@[0] != "Use dark theme"@[0]);
    assert("Reset Settings"@[0] != "Use dark theme"@[0]);
    let t = pair_views(title_names_table());
    assert forall|k: int| 0 <= k < t.len() implies title_code(#[trigger] t[k].0) == k by {
        if k == 0 {
            assert(t[k].0 == "General"@);
        } else if k == 1 {
            assert(t[k].0 == "Maintenance"@);
        } else if k == 2 {
            assert(t[k].0 == "Language"@);
        } else if k == 3 {
            assert(t[k].0 == "Dark Mode"@);
        } else if k == 4 {
            assert(t[k].0 == "Output Folder"@);
        } else if k == 5 {
            assert(t[k].0 == "Clear Cache"@);
        } else if k == 6 {
            assert(t[k].0 == "Clear Database"@);
        } else if k == 7 {
            assert(t[k].0 == "Reset Settings"@);
        } else if k == 8 {
            assert(t[k].0 == "About"@);
        } else if k == 9 {
            assert(t[k].0 == "Application language"@);
        } else if k == 10 {
            assert(t[k].0 == "Use dark theme"@);
        } else if k == 11 {
            assert(t[k].0 == "Where converted files are saved"@);
        } else if k == 12 {
            assert(t[k].0 == "Delete temporary files"@);
        } else if k == 13 {
            assert(t[k].0 == "Remove all library data"@);
        } else if k == 14 {
            assert(t[k].0 == "Restore defaults"@);
        } else if k == 15 {
            assert(t[k].0 == "Application information"@);
        }
    }
    lemma_distinct_by_code(t, |s: Seq<char>| title_code(s));
}

/// No widget name stands twice in the title-translation table.
pub proof fn lemma_title_translations_distinct()
    ensures
        keys_distinct(pair_views(title_translations_table())),
{
    reveal_strlit("general");
    reveal_strlit("general-dark-mode");
    reveal_strlit("general-language");
    reveal_strlit("general-output-folder");
    reveal_strlit("maintenance");
    reveal_strlit("maintenance-about");
    reveal_strlit("maintenance-clear-cache");
    reveal_strlit("maintenance-clear-database");
    reveal_strlit("maintenance-reset-settings");
    assert("general"@.len() == 7);
    assert("general-dark-mode"@.len() == 17);
    assert("general-language"@.len() == 16);
    assert("general-output-folder"@.len() == 21);
    assert("maintenance"@.len() == 11);
    assert("maintenance-about"@.len() == 17);
    assert("maintenance-clear-cache"@.len() == 23);
    assert("maintenance-clear-database"@.len() == 26);
    assert("maintenance-reset-settings"@.len() == 26);
    assert("general-dark-mode"@[0] != "maintenance-about"@[0]);
    assert("maintenance-clear-database"@[12] != "maintenance-reset-settings"@[12]);
    let t = pair_views(title_translations_table());
    assert forall|k: int| 0 <= k < t.len() implies name_code(#[trigger] t[k].0) == k by {
        if k == 0 {
            assert(t[k].0 == "general"@);
        } else if k == 1 {
            assert(t[k].0 == "maintenance"@);
        } else if k == 2 {
            assert(t[k].0 == "general-language"@);
        } else if k == 3 {
            assert(t[k].0 == "general-dark-mode"@);
        } else if k == 4 {
            assert(t[k].0 == "general-output-folder"@);
        } else if k == 5 {
            assert(t[k].0 == "maintenance-clear-cache"@);
        } else if k == 6 {
            assert(t[k].0 == "maintenance-clear-database"@);
        } else if k == 7 {
            assert(t[k].0 == "maintenance-reset-settings"@);
        } else if k == 8 {
            assert(t[k].0 == "maintenance-about"@);
        }
    }
    lemma_distinct_by_code(t, |s: Seq<char>| name_code(s));
}

/// No widget name stands twice in the subtitle-translation table.
pub proof fn lemma_subtitle_translations_distinct()
    ensures
        keys_distinct(pair_views(subtitle_translations_table())),
{
    reveal_strlit("general-dark-mode");
    reveal_strlit("general-language");
    reveal_strlit("general-output-folder");
    reveal_strlit("maintenance-about");
    reveal_strlit("maintenance-clear-cache");
    reveal_strlit("maintenance-clear-database");
    reveal_strlit("maintenance-reset-settings");
    assert("general-dark-mode"@.len() == 17);
    assert("general-language"@.len() == 16);
    assert("general-output-folder"@.len() == 21);
    assert("maintenance-about"@.len() == 17);
    assert("maintenance-clear-cache"@.len() == 23);
    assert("maintenance-clear-database"@.len() == 26);
    assert("maintenance-reset-settings"@.len() == 26);
    assert("general-dark-mode"@[0] != "maintenance-about"@[0]);
    assert("maintenance-clear-database"@[12] != "maintenance-reset-settings"@[12]);
    let t = pair_views(subtitle_translations_table());
    assert forall|k: int| 0 <= k < t.len() implies subtitle_name_code(#[trigger] t[k].0) == k by {
        if k == 0 {
            assert(t[k].0 == "general-language"@);
        } else if k == 1 {
            assert(t[k].0 == "general-dark-mode"@);
        } else if k == 2 {
            assert(t[k].0 == "general-output-folder"@);
        } else if k == 3 {
            assert(t[k].0 == "maintenance-clear-cache"@);
        } else if k == 4 {
            assert(t[k].0 == "maintenance-clear-database"@);
        } else if k == 5 {
            assert(t[k].0 == "maintenance-reset-settings"@);
        } else if k == 6 {
            assert(t[k].0 == "maintenance-about"@);
        }
    }
    lemma_distinct_by_code(t, |s: Seq<char>| subtitle_name_code(s));
}

/// Each settings group and row that is named from its English title has a
/// translated title: the title finds its own widget name, and that name
/// finds its title's message key. The rows (positions 2 to 8) also find the
/// message key of their subtitle.
pub proof fn lemma_named_widgets_are_translated(i: int)
    requires
        0 <= i < 9,
    ensures
        ({
            let titles = pair_views(title_names_table());
            let name = titles[i].1;
            &&& table_lookup(titles, titles[i].0) == Some(name)
            &&& table_lookup(pair_views(title_translations_table()), name) == Some(
                pair_views(title_translations_table())[i].1,
            )
            &&& 2 <= i ==> table_lookup(pair_views(subtitle_translations_table()), name) == Some(
                pair_views(subtitle_translations_table())[i - 2].1,
            )
        }),
{
    lemma_title_names_distinct();
    lemma_title_translations_distinct();
    lemma_subtitle_translations_distinct();
    lemma_lookup_own_key(pair_views(title_names_table()), i);
    assert(pair_views(title_names_table())[i].1 == pair_views(title_translations_table())[i].0);
    lemma_lookup_own_key(pair_views(title_translations_table()), i);
    if 2 <= i {
        assert(pair_views(title_names_table())[i].1 == pair_views(subtitle_translations_table())[i
            - 2].0);
        lemma_lookup_own_key(pair_views(subtitle_translations_table()), i - 2);
    }
}

fn title_names() -> (res: Vec<(&'static str, &'static str)>)
    ensures
        res@ == title_names_table(),
{
    let res = vec![
        ("General", "general"),
        ("Maintenance", "maintenance"),
        ("Language", "general-language"),
        ("Dark Mode", "general-dark-mode"),
        ("Output Folder", "general-output-folder"),
        ("Clear Cache", "maintenance-clear-cache"),
        ("Clear Database", "maintenance-clear-database"),
        ("Reset Settings", "maintenance-reset-settings"),
        ("About", "maintenance-about"),
        ("Application language", "general-language-subtitle"),
        ("Use dark theme", "general-dark-mode-subtitle"),
        ("Where converted files are saved", "general-output-folder-subtitle"),
        ("Delete temporary files", "maintenance-clear-cache-subtitle"),
        ("Remove all library data", "maintenance-clear-database-subtitle"),
        ("Restore defaults", "maintenance-reset-settings-subtitle"),
        ("Application information", "maintenance-about-subtitle"),
    ];
    assert(res@ =~= title_names_table());
    res
}

fn title_translations() -> (res: Vec<(&'static str, &'static str)>)
    ensures
        res@ == title_translations_table(),
{
    let res = vec![
        ("general", "GENERAL"),
        ("maintenance", "MAINTENANCE"),
        ("general-language", "LANGUAGE"),
        ("general-dark-mode", "DARK_MODE"),
        ("general-output-folder", "OUTPUT_FOLDER"),
        ("maintenance-clear-cache", "CLEAR_CACHE"),
        ("maintenance-clear-database", "CLEAR_DATABASE"),
        ("maintenance-reset-settings", "RESET_SETTINGS"),
        ("maintenance-about", "ABOUT"),
    ];
    assert(res@ =~= title_translations_table());
    res
}

fn subtitle_translations() -> (res: Vec<(&'static str, &'static str)>)
    ensures
        res@ == subtitle_translations_table(),
{
    let res = vec![
        ("general-language", "APPLICATION_LANGUAGE"),
        ("general-dark-mode", "USE_DARK_THEME"),
        ("general-output-folder", "WHERE_CONVERTED_SAVED"),
        ("maintenance-clear-cache", "DELETE_TEMPORARY_FILES"),
        ("maintenance-clear-database", "REMOVE_ALL_LIBRARY_DATA"),
        ("maintenance-reset-settings", "RESTORE_DEFAULTS"),
        ("maintenance-about", "APPLICATION_INFORMATION"),
    ];
    assert(res@ =~= subtitle_translations_table());
    res
}

/// The widget name for a settings group or row with the English title
/// `title`, if it has one.
pub fn widget_name_for_title(title: &str) -> (res: Option<&'static str>)
    ensures
        match res {
            Some(v) => table_lookup(pair_views(title_names_table()), title@) == Some(v@),
            None => table_lookup(pair_views(title_names_table()), title@) is None,
        },
{
    lookup(&title_names(), title)
}

/// The message key of the title of the settings group or row named `name`,
/// if it has one.
pub fn title_translation_key(name: &str) -> (res: Option<&'static str>)
    ensures
        match res {
            Some(v) => table_lookup(pair_views(title_translations_table()), name@) == Some(v@),
            None => table_lookup(pair_views(title_translations_table()), name@) is None,
        },
{
    lookup(&title_translations(), name)
}

/// The message key of the subtitle of the settings row named `name`, if it
/// has one.
pub fn subtitle_translation_key(name: &str) -> (res: Option<&'static str>)
    ensures
        match res {
            Some(v) => table_lookup(pair_views(subtitle_translations_table()), name@) == Some(v@),
            None => table_lookup(pair_views(subtitle_translations_table()), name@) is None,
        },
{
    lookup(&subtitle_translations(), name)
}

} // verus!
