use zongflow::i18n::{
    fill_placeholders, get_current_locale, map_system_locale, pick_locale_dir,
    set_current_locale, setlocale_candidates, system_locale, translate, translate_format,
    translate_format_or_key, translate_or_key, try_setlocale, use_environment_locale,
    LocaleState,
};

#[test]
fn test_map_system_locale_chinese() {
    assert_eq!(map_system_locale("zh_CN"), "zh_CN");
    assert_eq!(map_system_locale("zh_CN.UTF-8"), "zh_CN");
    assert_eq!(map_system_locale("zh_TW"), "zh_CN");
    assert_eq!(map_system_locale("zh_HK.UTF-8"), "zh_CN");
}

#[test]
fn test_map_system_locale_japanese() {
    assert_eq!(map_system_locale("ja_JP"), "ja_JP");
    assert_eq!(map_system_locale("ja_JP.UTF-8"), "ja_JP");
}

#[test]
fn test_map_system_locale_english() {
    assert_eq!(map_system_locale("en_US"), "en_US");
    assert_eq!(map_system_locale("en_GB.UTF-8"), "en_US");
    assert_eq!(map_system_locale("de_DE"), "en_US");
}

#[test]
fn test_map_system_locale_colon_separated() {
    assert_eq!(map_system_locale("zh_CN:en"), "zh_CN");
    assert_eq!(map_system_locale("ja_JP:en_US:zh_CN"), "ja_JP");
    assert_eq!(map_system_locale("en_US:zh_CN"), "en_US");
}

#[test]
fn test_set_current_locale_is_idempotent() {
    let mut state = LocaleState::new();
    set_current_locale(&mut state, "zh_CN", "locales");
    let locale1 = get_current_locale(&state);
    set_current_locale(&mut state, "zh_CN", "locales");
    let locale2 = get_current_locale(&state);
    assert_eq!(locale1, locale2);
}

#[test]
fn test_translate_format() {
    let mut state = LocaleState::new();
    set_current_locale(&mut state, "en_US", "locales");
    assert!(state.can_translate());
    // This test just ensures no panics occur; actual translation depends on .mo files
    let result = translate_format(&state, "Hello { $name }", &[("name", "World")]);
    // If the key isn't translated, it returns the key as-is
    // The placeholder should still be replaced
    assert!(result.contains("World"));
}

#[test]
fn map_system_locale_is_case_insensitive() {
    assert_eq!(map_system_locale("ZH_cn"), "zh_CN");
    assert_eq!(map_system_locale("Ja_JP"), "ja_JP");
    assert_eq!(map_system_locale("jA"), "ja_JP");
}

#[test]
fn map_system_locale_edge_cases() {
    assert_eq!(map_system_locale(""), "en_US");
    assert_eq!(map_system_locale("z"), "en_US");
    assert_eq!(map_system_locale("zh"), "zh_CN");
    assert_eq!(map_system_locale(":zh_CN"), "en_US");
    assert_eq!(map_system_locale(".zh"), "en_US");
    assert_eq!(map_system_locale("z.h"), "en_US");
    assert_eq!(map_system_locale("C"), "en_US");
    assert_eq!(map_system_locale("POSIX"), "en_US");
    assert_eq!(map_system_locale("\u{17d}h_CN"), "en_US");
}

#[test]
fn map_system_locale_is_idempotent_on_examples() {
    for input in ["zh_TW.UTF-8", "ja", "fr_FR", "", "en_US:zh_CN"] {
        let once = map_system_locale(input);
        assert_eq!(map_system_locale(&once), once);
    }
}

#[test]
fn new_locale_state_is_english() {
    let state = LocaleState::new();
    assert_eq!(get_current_locale(&state), "en_US");
}

#[test]
fn set_current_locale_maps_the_locale() {
    let mut state = LocaleState::new();
    set_current_locale(&mut state, "ja_JP.UTF-8", "locales");
    assert_eq!(get_current_locale(&state), "ja_JP");
    set_current_locale(&mut state, "de_DE", "locales");
    assert_eq!(get_current_locale(&state), "en_US");
    set_current_locale(&mut state, "zh_TW:en", "locales");
    assert_eq!(get_current_locale(&state), "zh_CN");
}

#[test]
fn fill_placeholders_replaces_each_parameter() {
    let out = fill_placeholders(
        "Selected: { $count } of { $total }",
        &[("count", "3"), ("total", "10")],
    );
    assert_eq!(out, "Selected: 3 of 10");
}

#[test]
fn fill_placeholders_replaces_every_occurrence() {
    let out = fill_placeholders("{ $x }+{ $x }={ $y }", &[("x", "1"), ("y", "2")]);
    assert_eq!(out, "1+1=2");
}

#[test]
fn fill_placeholders_without_parameters_keeps_text() {
    assert_eq!(fill_placeholders("Hello { $name }", &[]), "Hello { $name }");
}

#[test]
fn fill_placeholders_leaves_other_braces() {
    assert_eq!(
        fill_placeholders("{$name} { name } { $name}", &[("name", "World")]),
        "{$name} { name } { $name}"
    );
}

#[test]
fn fill_placeholders_applies_parameters_in_order() {
    // The first parameter's value introduces the second placeholder.
    let out = fill_placeholders("{ $a }", &[("a", "{ $b }"), ("b", "done")]);
    assert_eq!(out, "done");
    // The other way round the second placeholder is only made afterwards.
    let out = fill_placeholders("{ $a }", &[("b", "done"), ("a", "{ $b }")]);
    assert_eq!(out, "{ $b }");
}

#[test]
fn fill_placeholders_handles_unicode() {
    let out = fill_placeholders("作者：{ $name }", &[("name", "著者名")]);
    assert_eq!(out, "作者：著者名");
}

#[test]
fn translate_without_catalog_gives_key() {
    let mut state = LocaleState::new();
    set_current_locale(&mut state, "ja_JP", "locales");
    assert!(state.can_translate());
    assert_eq!(translate(&state, "NO_SUCH_MESSAGE_KEY"), "NO_SUCH_MESSAGE_KEY");
}

#[test]
fn nothing_is_translated_before_gettext_is_set_up() {
    let state = LocaleState::new();
    assert!(!state.can_translate());
    assert_eq!(translate_or_key(&state, "Unknown"), "Unknown");
    assert_eq!(
        translate_format_or_key(&state, "Hello { $name }", &[("name", "World")]),
        "Hello World"
    );
}

#[test]
fn system_locale_prefers_language_then_lang() {
    let s = |v: &str| Some(v.to_string());
    assert_eq!(system_locale(s("ja_JP:en"), s("zh_CN.UTF-8"), None, None), "ja_JP:en");
    assert_eq!(system_locale(None, s("zh_CN.UTF-8"), s("C"), None), "zh_CN.UTF-8");
    assert_eq!(system_locale(None, None, s("C"), s("de_DE")), "C");
    assert_eq!(system_locale(None, None, None, s("de_DE")), "de_DE");
    assert_eq!(system_locale(None, None, None, None), "en_US");
}

#[test]
fn pick_locale_dir_takes_first_existing() {
    let c = vec![
        ("/a/share/locale".to_string(), false),
        ("/b/share/locale".to_string(), true),
        ("locales".to_string(), true),
    ];
    assert_eq!(pick_locale_dir("locales", true, &c), "locales");
    assert_eq!(pick_locale_dir("conf", false, &c), "/b/share/locale");
    assert_eq!(pick_locale_dir("conf", false, &vec![("x".to_string(), false)]), "conf");
    assert_eq!(pick_locale_dir("conf", false, &vec![]), "conf");
}

#[test]
fn setlocale_candidates_per_language() {
    assert_eq!(setlocale_candidates("zh_CN"), vec!["zh_CN.UTF-8".to_string(), "zh_CN".to_string()]);
    assert_eq!(setlocale_candidates("ja_JP"), vec!["ja_JP.UTF-8".to_string(), "ja_JP".to_string()]);
    assert!(setlocale_candidates("en_US").is_empty());
}

#[test]
fn try_setlocale_accepts_c_locale() {
    assert_eq!(try_setlocale(&vec![]), None);
    assert_eq!(try_setlocale(&vec!["no_SUCH.locale".to_string(), "C".to_string()]), Some(1));
    use_environment_locale();
}
