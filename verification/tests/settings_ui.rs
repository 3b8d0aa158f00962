use zongflow::settings_ui::{
    language_at, language_index, language_name_keys, subtitle_translation_key,
    title_translation_key, widget_name_for_title,
};

#[test]
fn language_positions() {
    assert_eq!(language_index("zh_CN"), 0);
    assert_eq!(language_index("en_US"), 1);
    assert_eq!(language_index("ja_JP"), 2);
    assert_eq!(language_index("fr_FR"), 1);
    assert_eq!(language_index(""), 1);
}

#[test]
fn language_at_positions() {
    assert_eq!(language_at(0), Some("zh_CN".to_string()));
    assert_eq!(language_at(1), Some("en_US".to_string()));
    assert_eq!(language_at(2), Some("ja_JP".to_string()));
    assert_eq!(language_at(3), None);
    assert_eq!(language_at(u32::MAX), None);
    for i in 0..3u32 {
        assert_eq!(language_index(&language_at(i).unwrap()), i);
    }
}

#[test]
fn language_name_keys_in_list_order() {
    assert_eq!(language_name_keys(), vec!["LANG_ZH_CN", "LANG_EN_US", "LANG_JA_JP"]);
}

#[test]
fn widget_names_from_titles() {
    assert_eq!(widget_name_for_title("General"), Some("general"));
    assert_eq!(widget_name_for_title("Dark Mode"), Some("general-dark-mode"));
    assert_eq!(widget_name_for_title("Application information"), Some("maintenance-about-subtitle"));
    assert_eq!(widget_name_for_title("general"), None);
    assert_eq!(widget_name_for_title(""), None);
}

#[test]
fn translation_keys_from_widget_names() {
    assert_eq!(title_translation_key("general"), Some("GENERAL"));
    assert_eq!(title_translation_key("maintenance-about"), Some("ABOUT"));
    assert_eq!(title_translation_key("general-language-subtitle"), None);
    assert_eq!(subtitle_translation_key("general-language"), Some("APPLICATION_LANGUAGE"));
    assert_eq!(subtitle_translation_key("general"), None);
    for title in ["General", "Maintenance", "Language", "Dark Mode", "Output Folder", "Clear Cache",
        "Clear Database", "Reset Settings", "About"] {
        let name = widget_name_for_title(title).unwrap();
        assert!(title_translation_key(name).is_some());
    }
}
