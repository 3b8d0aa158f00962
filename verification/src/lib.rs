//! Document library core of Zongflow: locale handling, message formatting,
//! document records and the rules behind the settings and library views.

pub mod config;
pub mod text;
pub mod gettext;
pub mod i18n;

pub mod database;
pub mod corelib;
pub mod document_object;
pub mod settings_ui;
pub mod convert;
