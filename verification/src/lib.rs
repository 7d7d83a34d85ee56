//! The rules of a membership club's desk application: member forms, points
//! from purchases and redemptions of gifts, the settings page, and the import
//! of a legacy system's records from a migration file (its precheck, its
//! fingerprint against repeated imports, and what each record writes). Every
//! decision is a verified function; reading and writing the database and the
//! files is left to the application around it.
pub mod text;
pub mod numtext;
pub mod floatbits;
pub mod models;
pub mod bundle_check;
pub mod digest;
pub mod name_pinyin;
pub mod errors;
pub mod calendar;
pub mod clock;
pub mod paths;
pub mod config;
pub mod settings;
pub mod members;
pub mod keymap;
pub mod gifts;
pub mod points;
pub mod import_plan;
pub mod precheck;
pub mod queries;
