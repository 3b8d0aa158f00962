use zongflow::i18n::{set_current_locale, LocaleState};

#[test]
fn test_i18n_translate_format() {
    let mut state = LocaleState::new();
    set_current_locale(&mut state, "en_US", "locales");
    assert!(state.can_translate());
    // This test just ensures no panics occur; actual translation depends on .mo files
    let result = zongflow::i18n::translate_format(&state, "Hello { $name }", &[("name", "World")]);
    // If the key isn't translated, it returns the key as-is
    // The placeholder should still be replaced
    assert!(result.contains("World"));
}
