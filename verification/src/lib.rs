//! Language-code inference for a registry of organization names.
//!
//! The library takes organization records and their name variants, derives a
//! canonical match key for every raw name, and then runs a fixed cascade of
//! classification passes that assign a language code and a provenance tag to
//! as many name records as possible: script and country rules, a commercial
//! brand override, per-language keyword rules, mono-lingual propagation, and
//! an acronym-derivation matcher.  A separate set of modules carries the
//! program's configuration handling: command-line parameter records, config
//! file reading, parameter fusion, and the lookup-table statements.

pub mod errors;
pub mod strutil;
pub mod normalize;
pub mod tokenize;
pub mod records;
pub mod acronym;
pub mod classify;
pub mod lex_rules;
pub mod config_reader;
pub mod cli_reader;
pub mod setup;
pub mod log_helper;
pub mod lup_fill_tables;
