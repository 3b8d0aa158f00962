//! The application settings.

use vstd::prelude::*;

use crate::i18n::en_us;
use crate::corelib::opt_view;
use crate::text::{lemma_replace_single_char, replace_char, replace_str};

verus! {

broadcast use vstd::string::group_string_axioms;

/// The export format that new settings start with.
pub open spec fn default_export_format() -> Seq<char> {
    seq!['t', 'x', 't']
}

/// The settings of the application.
#[derive(Debug, Clone, PartialEq)]
pub struct Settings {
    pub language: String,
    pub dark_mode: bool,
    pub output_folder: String,
    pub export_format: String,
}

/// The settings, each string taken by its characters.
pub ghost struct SettingsView {
    pub language: Seq<char>,
    pub dark_mode: bool,
    pub output_folder: Seq<char>,
    pub export_format: Seq<char>,
}

impl View for Settings {
    type V = SettingsView;

    open spec fn view(&self) -> SettingsView {
        SettingsView {
            language: self.language@,
            dark_mode: self.dark_mode,
            output_folder: self.output_folder@,
            export_format: self.export_format@,
        }
    }
}

/// The default settings, with the given output folder.
pub open spec fn spec_default_settings(output_folder: Seq<char>) -> SettingsView {
    SettingsView {
        language: en_us(),
        dark_mode: false,
        output_folder,
        export_format: default_export_format(),
    }
}

/// The settings that a settings file holding the given fields stands for:
/// each field that the file lacks takes its default.
pub open spec fn spec_stored_settings(
    language: Option<Seq<char>>,
    dark_mode: Option<bool>,
    output_folder: Option<Seq<char>>,
    export_format: Option<Seq<char>>,
    default_output_folder: Seq<char>,
) -> SettingsView {
    let d = spec_default_settings(default_output_folder);
    SettingsView {
        language: match language {
            Some(l) => l,
            None => d.language,
        },
        dark_mode: match dark_mode {
            Some(b) => b,
            None => d.dark_mode,
        },
        output_folder: match output_folder {
            Some(f) => f,
            None => d.output_folder,
        },
        export_format: match export_format {
            Some(f) => f,
            None => d.export_format,
        },
    }
}

/// The language new settings start with.
pub fn default_language() -> (res: String)
    ensures
        res@ == en_us(),
{
    proof {
        reveal_strlit("en_US");
    }
    assert("en_US"@ =~= en_us());
    String::from_str("en_US")
}

fn default_export_format_string() -> (res: String)
    ensures
        res@ == default_export_format(),
{
    proof {
        reveal_strlit("txt");
    }
    assert("txt"@ =~= default_export_format());
    String::from_str("txt")
}

impl Settings {
    /// The default settings, with `output_folder` as the output folder.
    pub fn with_defaults(output_folder: String) -> (res: Settings)
        ensures
            res@ == spec_default_settings(output_folder@),
    {
        Settings {
            language: default_language(),
            dark_mode: false,
            output_folder,
            export_format: default_export_format_string(),
        }
    }

    /// The settings read from a settings file: each field that the file
    /// holds keeps its value, each one it lacks takes its default.
    pub fn from_stored(
        language: Option<String>,
        dark_mode: Option<bool>,
        output_folder: Option<String>,
        export_format: Option<String>,
        default_output_folder: String,
    ) -> (res: Settings)
        ensures
            res@ == spec_stored_settings(
                opt_view(language),
                dark_mode,
                opt_view(output_folder),
                opt_view(export_format),
                default_output_folder@,
            ),
    {
        Settings {
            language: match language {
                Some(l) => l,
                None => default_language(),
            },
            dark_mode: match dark_mode {
                Some(d) => d,
                None => false,
            },
            output_folder: match output_folder {
                Some(f) => f,
                None => default_output_folder,
            },
            export_format: match export_format {
                Some(f) => f,
                None => default_export_format_string(),
            },
        }
    }

    /// The language in the form gettext expects: an older hyphenated tag
    /// such as `zh-CN` becomes `zh_CN`.
    pub fn gettext_language(&self) -> (res: String)
        ensures
            res@ == replace_char(self.language@, '-', '_'),
    {
        proof {
            reveal_strlit("-");
            reveal_strlit("_");
            assert("-"@ =~= seq!['-']);
            assert("_"@ =~= seq!['_']);
            lemma_replace_single_char(self.language@, '-', '_');
        }
        replace_str(self.language.as_str(), "-", "_")
    }
}

/// Each field of the loaded settings depends on its own stored value only:
/// a stored value is kept whatever the other fields hold, and a missing
/// field takes its own default (`en_US`, light mode, the given folder,
/// `txt`) whatever the other fields hold.
pub proof fn lemma_fields_load_independently(
    language: Option<Seq<char>>,
    dark_mode: Option<bool>,
    output_folder: Option<Seq<char>>,
    export_format: Option<Seq<char>>,
    default_output_folder: Seq<char>,
)
    ensures
        ({
            let s = spec_stored_settings(
                language,
                dark_mode,
                output_folder,
                export_format,
                default_output_folder,
            );
            &&& s.language == (match language {
                Some(l) => l,
                None => seq!['e', 'n', '_', 'U', 'S'],
            })
            &&& s.dark_mode == (match dark_mode {
                Some(b) => b,
                None => false,
            })
            &&& s.output_folder == (match output_folder {
                Some(f) => f,
                None => default_output_folder,
            })
            &&& s.export_format == (match export_format {
                Some(f) => f,
                None => seq!['t', 'x', 't'],
            })
        }),
{
}

/// A settings file that holds none of the fields stands for the default
/// settings.
pub proof fn lemma_missing_fields_give_defaults(default_output_folder: Seq<char>)
    ensures
        spec_stored_settings(None, None, None, None, default_output_folder)
            == spec_default_settings(default_output_folder),
{
}

/// A settings file that holds every field stands for exactly those values.
pub proof fn lemma_stored_fields_kept(
    language: Seq<char>,
    dark_mode: bool,
    output_folder: Seq<char>,
    export_format: Seq<char>,
    default_output_folder: Seq<char>,
)
    ensures
        spec_stored_settings(
            Some(language),
            Some(dark_mode),
            Some(output_folder),
            Some(export_format),
            default_output_folder,
        ) == (SettingsView { language, dark_mode, output_folder, export_format }),
{
}

/// The gettext form of a language holds no hyphen, and turning it into the
/// gettext form again changes nothing.
pub proof fn lemma_gettext_language_normal(language: Seq<char>)
    ensures
        !replace_char(language, '-', '_').contains('-'),
        replace_char(replace_char(language, '-', '_'), '-', '_') == replace_char(language, '-', '_'),
{
    let once = replace_char(language, '-', '_');
    assert(replace_char(once, '-', '_') =~= once);
    if once.contains('-') {
        let k = choose|k: int| 0 <= k < once.len() && once[k] == '-';
    }
}

} // verus!
