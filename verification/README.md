# zongflow

The verified core of Zongflow, a desktop document library and converter.

- `src/` is the library, checked by Verus:
  - `i18n`: mapping system locales to the supported ones (`zh_CN`, `ja_JP`,
    `en_US`), the current locale, gettext lookups and `{ $name }`
    placeholders;
  - `gettext`: the calls into gettext, with the tokens that show gettext
    was set up for UTF-8 messages before any lookup;
  - `corelib`: which files the scanner takes in, format names, new document
    records, and the settings with their defaults;
  - `database`: the document record;
  - `document_object`: the labels the library views show;
  - `settings_ui`: the language list and the settings page's name tables;
  - `convert`: which paths may be imported;
  - `text`: character-level string helpers;
  - `config`: the gettext package and locale directory names.
- `app/` is the GTK application around it: windows and widgets, the SQLite
  database, the settings file, the file system and the environment.
- `tests/` runs the library on concrete inputs.
