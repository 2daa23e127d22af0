//! Reading of the program's configuration: the raw TOML-shaped sections, the
//! checked parameter records built from them, and the database connection
//! values.
//!
//! The document text is parsed by the `toml` crate behind trusted wrappers;
//! everything after the parse — section defaults, essential-value checks,
//! defaulted values, the connection string — is verified against exact
//! specifications.

use vstd::prelude::*;
use crate::errors::AppError;
use crate::records::opt_view;
use crate::strutil::{ws_trim, trim_string, str_eq, spec_dec, spec_parse_usize, parse_usize_or,
    u64_dec_chars, string_from_chars, chars_of, push_all};

verus! {

// ---------------------------------------------------------------------------
// The raw configuration sections
// ---------------------------------------------------------------------------

/// The raw `[data]` section: every value optional.
#[derive(Debug)]
pub struct TomlDataPars {
    pub src_file_name: Option<String>,
    pub data_version: Option<String>,
    pub data_date: Option<String>,
}

/// The raw `[folders]` section.
#[derive(Debug)]
pub struct TomlFolderPars {
    pub data_folder_path: Option<String>,
    pub log_folder_path: Option<String>,
    pub output_folder_path: Option<String>,
}

/// The raw `[database]` section.
#[derive(Debug)]
pub struct TomlDBPars {
    pub db_host: Option<String>,
    pub db_user: Option<String>,
    pub db_password: Option<String>,
    pub db_port: Option<String>,
    pub db_name: Option<String>,
}

/// The whole raw configuration document, by section.
#[derive(Debug)]
pub struct TomlConfig {
    pub data: Option<TomlDataPars>,
    pub folders: Option<TomlFolderPars>,
    pub database: Option<TomlDBPars>,
}

#[verifier::ext_equal]
pub struct TomlDataParsV {
    pub src_file_name: Option<Seq<char>>,
    pub data_version: Option<Seq<char>>,
    pub data_date: Option<Seq<char>>,
}

#[verifier::ext_equal]
pub struct TomlFolderParsV {
    pub data_folder_path: Option<Seq<char>>,
    pub log_folder_path: Option<Seq<char>>,
    pub output_folder_path: Option<Seq<char>>,
}

#[verifier::ext_equal]
pub struct TomlDBParsV {
    pub db_host: Option<Seq<char>>,
    pub db_user: Option<Seq<char>>,
    pub db_password: Option<Seq<char>>,
    pub db_port: Option<Seq<char>>,
    pub db_name: Option<Seq<char>>,
}

#[verifier::ext_equal]
pub struct TomlConfigV {
    pub data: Option<TomlDataParsV>,
    pub folders: Option<TomlFolderParsV>,
    pub database: Option<TomlDBParsV>,
}

impl View for TomlDataPars {
    type V = TomlDataParsV;

    open spec fn view(&self) -> TomlDataParsV {
        TomlDataParsV {
            src_file_name: opt_view(self.src_file_name),
            data_version: opt_view(self.data_version),
            data_date: opt_view(self.data_date),
        }
    }
}

impl View for TomlFolderPars {
    type V = TomlFolderParsV;

    open spec fn view(&self) -> TomlFolderParsV {
        TomlFolderParsV {
            data_folder_path: opt_view(self.data_folder_path),
            log_folder_path: opt_view(self.log_folder_path),
            output_folder_path: opt_view(self.output_folder_path),
        }
    }
}

impl View for TomlDBPars {
    type V = TomlDBParsV;

    open spec fn view(&self) -> TomlDBParsV {
        TomlDBParsV {
            db_host: opt_view(self.db_host),
            db_user: opt_view(self.db_user),
            db_password: opt_view(self.db_password),
            db_port: opt_view(self.db_port),
            db_name: opt_view(self.db_name),
        }
    }
}

pub open spec fn ov_data(o: Option<TomlDataPars>) -> Option<TomlDataParsV> {
    match o {
        Some(d) => Some(d@),
        None => None,
    }
}

pub open spec fn ov_folders(o: Option<TomlFolderPars>) -> Option<TomlFolderParsV> {
    match o {
        Some(d) => Some(d@),
        None => None,
    }
}

pub open spec fn ov_db(o: Option<TomlDBPars>) -> Option<TomlDBParsV> {
    match o {
        Some(d) => Some(d@),
        None => None,
    }
}

impl View for TomlConfig {
    type V = TomlConfigV;

    open spec fn view(&self) -> TomlConfigV {
        TomlConfigV {
            data: ov_data(self.data),
            folders: ov_folders(self.folders),
            database: ov_db(self.database),
        }
    }
}

// ---------------------------------------------------------------------------
// The checked configuration
// ---------------------------------------------------------------------------

/// The checked `[data]` values, blanks for anything missing.
pub struct DataPars {
    pub src_file_name: String,
    pub data_version: String,
    pub data_date: String,
}

/// The checked folder paths.
pub struct FolderPars {
    pub data_folder_path: String,
    pub log_folder_path: String,
    pub output_folder_path: String,
}

/// The checked database connection values.
#[derive(Debug, Clone)]
pub struct DBPars {
    pub db_host: String,
    pub db_user: String,
    pub db_password: String,
    pub db_port: usize,
    pub db_name: String,
}

/// The whole checked configuration.
pub struct Config {
    pub data_details: DataPars,
    pub folders: FolderPars,
    pub db_pars: DBPars,
}

#[verifier::ext_equal]
pub struct DataParsV {
    pub src_file_name: Seq<char>,
    pub data_version: Seq<char>,
    pub data_date: Seq<char>,
}

#[verifier::ext_equal]
pub struct FolderParsV {
    pub data_folder_path: Seq<char>,
    pub log_folder_path: Seq<char>,
    pub output_folder_path: Seq<char>,
}

#[verifier::ext_equal]
pub struct DBParsV {
    pub db_host: Seq<char>,
    pub db_user: Seq<char>,
    pub db_password: Seq<char>,
    pub db_port: int,
    pub db_name: Seq<char>,
}

#[verifier::ext_equal]
pub struct ConfigV {
    pub data_details: DataParsV,
    pub folders: FolderParsV,
    pub db_pars: DBParsV,
}

impl View for DataPars {
    type V = DataParsV;

    open spec fn view(&self) -> DataParsV {
        DataParsV {
            src_file_name: self.src_file_name@,
            data_version: self.data_version@,
            data_date: self.data_date@,
        }
    }
}

impl View for FolderPars {
    type V = FolderParsV;

    open spec fn view(&self) -> FolderParsV {
        FolderParsV {
            data_folder_path: self.data_folder_path@,
            log_folder_path: self.log_folder_path@,
            output_folder_path: self.output_folder_path@,
        }
    }
}

impl View for DBPars {
    type V = DBParsV;

    open spec fn view(&self) -> DBParsV {
        DBParsV {
            db_host: self.db_host@,
            db_user: self.db_user@,
            db_password: self.db_password@,
            db_port: self.db_port as int,
            db_name: self.db_name@,
        }
    }
}

impl View for Config {
    type V = ConfigV;

    open spec fn view(&self) -> ConfigV {
        ConfigV { data_details: self.data_details@, folders: self.folders@, db_pars: self.db_pars@ }
    }
}

// ---------------------------------------------------------------------------
// Value checks
// ---------------------------------------------------------------------------

/// A configuration value counts as absent when it is missing, literally
/// `none`, or blank.
pub open spec fn absent(src: Option<Seq<char>>) -> bool {
    match src {
        Some(s) => s == "none"@ || ws_trim(s).len() == 0,
        None => true,
    }
}

/// What an essential value resolves to, when it is present.
pub open spec fn essential_value(src: Option<Seq<char>>) -> Seq<char> {
    match src {
        Some(s) => s,
        None => Seq::empty(),
    }
}

/// The headline of every missing-essential-value error.
pub open spec fn essential_error_head() -> Seq<char> {
    "Essential configuration value missing or misspelt."@
}

/// The detail line of a missing-essential-value error.
pub open spec fn essential_error_detail(value_name: Seq<char>, config_name: Seq<char>) -> Seq<
    char,
> {
    "Cannot find a value for "@ + value_name + " ("@ + config_name + ")."@
}

/// Returns an essential configuration value, or the configuration error that
/// names it: exactly when the value is missing, `none`, or blank.
pub fn check_essential_string(src_name: Option<String>, value_name: &str, config_name: &str) -> (
    r: Result<String, AppError>)
    ensures
        match r {
            Ok(v) => !absent(opt_view(src_name)) && v@ == essential_value(opt_view(src_name)),
            Err(e) => absent(opt_view(src_name)) && (e matches AppError::ConfigurationError(
                a,
                b,
            ) && a@ == essential_error_head() && b@ == essential_error_detail(
                value_name@,
                config_name@,
            )),
        },
{
    let present = match &src_name {
        Some(s) => {
            let t = trim_string(s.as_str());
            !str_eq(s.as_str(), "none") && t.as_str().unicode_len() > 0
        },
        None => false,
    };
    if present {
        match src_name {
            Some(s) => Ok(s),
            None => {
                assert(false);
                Err(AppError::MissingDBParameters)
            },
        }
    } else {
        let head = String::from_str("Essential configuration value missing or misspelt.");
        let mut dv = chars_of("Cannot find a value for ");
        let nv = chars_of(value_name);
        push_all(&mut dv, &nv);
        let op = chars_of(" (");
        push_all(&mut dv, &op);
        let cv = chars_of(config_name);
        push_all(&mut dv, &cv);
        let cl = chars_of(").");
        push_all(&mut dv, &cl);
        let detail = string_from_chars(&dv);
        Err(AppError::ConfigurationError(head, detail))
    }
}

/// What a defaulted value resolves to.
pub open spec fn defaulted_value(src: Option<Seq<char>>, fallback: Seq<char>) -> Seq<char> {
    if absent(src) {
        fallback
    } else {
        essential_value(src)
    }
}

/// Returns a configuration value, or the given default when it is missing,
/// `none`, or blank.
pub fn check_defaulted_string(src_name: Option<String>, fallback: &str) -> (r: String)
    ensures
        r@ == defaulted_value(opt_view(src_name), fallback@),
{
    let present = match &src_name {
        Some(s) => {
            let t = trim_string(s.as_str());
            !str_eq(s.as_str(), "none") && t.as_str().unicode_len() > 0
        },
        None => false,
    };
    if present {
        match src_name {
            Some(s) => s,
            None => {
                assert(false);
                String::new()
            },
        }
    } else {
        String::from_str(fallback)
    }
}

/// What the `[data]` section resolves to: each value trimmed, blanks for
/// anything missing.
pub open spec fn data_pars_spec(t: TomlDataParsV) -> DataParsV {
    DataParsV {
        src_file_name: match t.src_file_name {
            Some(s) => ws_trim(s),
            None => Seq::empty(),
        },
        data_version: match t.data_version {
            Some(s) => ws_trim(s),
            None => Seq::empty(),
        },
        data_date: match t.data_date {
            Some(s) => ws_trim(s),
            None => Seq::empty(),
        },
    }
}

/// Checks the `[data]` section; it never fails, missing values become empty
/// strings.
pub fn verify_data_parameters(toml_data_pars: TomlDataPars) -> (r: Result<DataPars, AppError>)
    ensures
        r matches Ok(d) && d@ == data_pars_spec(toml_data_pars@),
{
    let data_version = match &toml_data_pars.data_version {
        Some(s) => trim_string(s.as_str()),
        None => String::new(),
    };
    let data_date = match &toml_data_pars.data_date {
        Some(s) => trim_string(s.as_str()),
        None => String::new(),
    };
    let src_file_name = match &toml_data_pars.src_file_name {
        Some(s) => trim_string(s.as_str()),
        None => String::new(),
    };
    let d = DataPars { src_file_name, data_version, data_date };
    assert(d@ =~= data_pars_spec(toml_data_pars@));
    Ok(d)
}

/// What the `[folders]` section resolves to when the data folder is present:
/// log and output folders default to the data folder.
pub open spec fn folder_pars_spec(t: TomlFolderParsV) -> FolderParsV {
    let d = essential_value(t.data_folder_path);
    FolderParsV {
        data_folder_path: d,
        log_folder_path: defaulted_value(t.log_folder_path, d),
        output_folder_path: defaulted_value(t.output_folder_path, d),
    }
}

/// Checks the `[folders]` section: the data folder is essential, the log and
/// output folders default to it.
pub fn verify_folder_parameters(toml_folders: TomlFolderPars) -> (r: Result<
    FolderPars,
    AppError,
>)
    ensures
        match r {
            Ok(f) => !absent(toml_folders@.data_folder_path) && f@ == folder_pars_spec(
                toml_folders@,
            ),
            Err(e) => absent(toml_folders@.data_folder_path) && (e
                matches AppError::ConfigurationError(a, b) && a@ == essential_error_head() && b@
                == essential_error_detail("data path folder"@, "data_folder_path"@)),
        },
{
    let ghost tv = toml_folders@;
    let TomlFolderPars { data_folder_path, log_folder_path, output_folder_path } = toml_folders;
    let data_folder_string = match check_essential_string(
        data_folder_path,
        "data path folder",
        "data_folder_path",
    ) {
        Ok(s) => s,
        Err(e) => {
            return Err(e);
        },
    };
    let log_folder_string = check_defaulted_string(
        log_folder_path,
        data_folder_string.as_str(),
    );
    let output_folder_string = check_defaulted_string(
        output_folder_path,
        data_folder_string.as_str(),
    );
    let f = FolderPars {
        data_folder_path: data_folder_string,
        log_folder_path: log_folder_string,
        output_folder_path: output_folder_string,
    };
    assert(f@ =~= folder_pars_spec(tv));
    Ok(f)
}

/// What the `[database]` section resolves to when user and password are
/// present.
pub open spec fn db_pars_spec(t: TomlDBParsV) -> DBParsV {
    DBParsV {
        db_host: defaulted_value(t.db_host, "localhost"@),
        db_user: essential_value(t.db_user),
        db_password: essential_value(t.db_password),
        db_port: spec_parse_usize(defaulted_value(t.db_port, "5432"@), 5432),
        db_name: defaulted_value(t.db_name, "ror"@),
    }
}

/// Checks the `[database]` section: user name and password are essential;
/// host, port and database name have defaults.
pub fn verify_db_parameters(toml_database: TomlDBPars) -> (r: Result<DBPars, AppError>)
    ensures
        match r {
            Ok(d) => !absent(toml_database@.db_user) && !absent(toml_database@.db_password) && d@
                == db_pars_spec(toml_database@),
            Err(e) => (absent(toml_database@.db_user) || absent(toml_database@.db_password)) && (e
                matches AppError::ConfigurationError(a, b) && a@ == essential_error_head() && (
            if absent(toml_database@.db_user) {
                b@ == essential_error_detail("database user name"@, "db_user"@)
            } else {
                b@ == essential_error_detail("database user password"@, "db_password"@)
            })),
        },
{
    let ghost tv = toml_database@;
    let TomlDBPars { db_host, db_user, db_password, db_port, db_name } = toml_database;
    let db_user = match check_essential_string(db_user, "database user name", "db_user") {
        Ok(s) => s,
        Err(e) => {
            return Err(e);
        },
    };
    let db_password = match check_essential_string(
        db_password,
        "database user password",
        "db_password",
    ) {
        Ok(s) => s,
        Err(e) => {
            return Err(e);
        },
    };
    let db_host = check_defaulted_string(db_host, "localhost");
    let db_port_as_string = check_defaulted_string(db_port, "5432");
    let db_port = parse_usize_or(db_port_as_string.as_str(), 5432);
    let db_name = check_defaulted_string(db_name, "ror");
    let d = DBPars { db_host, db_user, db_password, db_port, db_name };
    assert(d@ =~= db_pars_spec(tv));
    Ok(d)
}

// ---------------------------------------------------------------------------
// Reading the document, via the toml crate
// ---------------------------------------------------------------------------

/// Whether a document is well-formed TOML; a fact of the text alone.
pub uninterp spec fn toml_doc_ok(doc: Seq<char>) -> bool;

/// Whether a well-formed document holds a top-level entry of this name; a
/// fact of the text alone.
pub uninterp spec fn toml_has_table(doc: Seq<char>, name: Seq<char>) -> bool;

/// The string at `[table] key` of the document, when the document parses and
/// that entry holds a string; a fact of the text alone.
pub uninterp spec fn toml_str_field(doc: Seq<char>, table: Seq<char>, key: Seq<char>) -> Option<
    Seq<char>,
>;

/// Relies on the toml crate's parser (`str::parse::<toml::Table>`): whether
/// a document parses depends on its text alone.
#[verifier::external_body]
fn toml_parses(doc: &str) -> (r: bool)
    ensures
        r == toml_doc_ok(doc@),
{
    doc.parse::<toml::Table>().is_ok()
}

/// Relies on the toml crate's parser and `toml::map::Map::get`: whether the
/// parsed document holds a top-level entry of the given name depends on the
/// text alone.
#[verifier::external_body]
fn toml_section(doc: &str, name: &str) -> (r: bool)
    ensures
        r == toml_has_table(doc@, name@),
{
    match doc.parse::<toml::Table>() {
        Ok(t) => t.get(name).is_some(),
        Err(_) => false,
    }
}

/// Relies on the toml crate's parser, `toml::map::Map::get`,
/// `toml::Value::get` and `toml::Value::as_str`: the string entry at
/// `[table] key` depends on the text alone.
#[verifier::external_body]
fn toml_string_key(doc: &str, table: &str, key: &str) -> (r: Option<String>)
    ensures
        opt_view(r) == toml_str_field(doc@, table@, key@),
{
    match doc.parse::<toml::Table>() {
        Ok(t) => match t.get(table) {
            Some(sec) => match sec.get(key) {
                Some(v) => match v.as_str() {
                    Some(s) => Some(s.to_string()),
                    None => None,
                },
                None => None,
            },
            None => None,
        },
        Err(_) => None,
    }
}

/// The raw `[data]` section of a document.
pub open spec fn data_section_spec(doc: Seq<char>) -> TomlDataParsV {
    TomlDataParsV {
        src_file_name: toml_str_field(doc, "data"@, "src_file_name"@),
        data_version: toml_str_field(doc, "data"@, "data_version"@),
        data_date: toml_str_field(doc, "data"@, "data_date"@),
    }
}

pub open spec fn folders_section_spec(doc: Seq<char>) -> TomlFolderParsV {
    TomlFolderParsV {
        data_folder_path: toml_str_field(doc, "folders"@, "data_folder_path"@),
        log_folder_path: toml_str_field(doc, "folders"@, "log_folder_path"@),
        output_folder_path: toml_str_field(doc, "folders"@, "output_folder_path"@),
    }
}

pub open spec fn db_section_spec(doc: Seq<char>) -> TomlDBParsV {
    TomlDBParsV {
        db_host: toml_str_field(doc, "database"@, "db_host"@),
        db_user: toml_str_field(doc, "database"@, "db_user"@),
        db_password: toml_str_field(doc, "database"@, "db_password"@),
        db_port: toml_str_field(doc, "database"@, "db_port"@),
        db_name: toml_str_field(doc, "database"@, "db_name"@),
    }
}

/// The raw document, by section: a section is present exactly when the
/// document holds its table.
pub open spec fn raw_config_spec(doc: Seq<char>) -> TomlConfigV {
    TomlConfigV {
        data: if toml_has_table(doc, "data"@) {
            Some(data_section_spec(doc))
        } else {
            None
        },
        folders: if toml_has_table(doc, "folders"@) {
            Some(folders_section_spec(doc))
        } else {
            None
        },
        database: if toml_has_table(doc, "database"@) {
            Some(db_section_spec(doc))
        } else {
            None
        },
    }
}

/// Reads the raw configuration sections out of a parsed document.
fn read_raw_config(doc: &str) -> (r: TomlConfig)
    ensures
        r@ == raw_config_spec(doc@),
{
    let data = if toml_section(doc, "data") {
        Some(
            TomlDataPars {
                src_file_name: toml_string_key(doc, "data", "src_file_name"),
                data_version: toml_string_key(doc, "data", "data_version"),
                data_date: toml_string_key(doc, "data", "data_date"),
            },
        )
    } else {
        None
    };
    let folders = if toml_section(doc, "folders") {
        Some(
            TomlFolderPars {
                data_folder_path: toml_string_key(doc, "folders", "data_folder_path"),
                log_folder_path: toml_string_key(doc, "folders", "log_folder_path"),
                output_folder_path: toml_string_key(doc, "folders", "output_folder_path"),
            },
        )
    } else {
        None
    };
    let database = if toml_section(doc, "database") {
        Some(
            TomlDBPars {
                db_host: toml_string_key(doc, "database", "db_host"),
                db_user: toml_string_key(doc, "database", "db_user"),
                db_password: toml_string_key(doc, "database", "db_password"),
                db_port: toml_string_key(doc, "database", "db_port"),
                db_name: toml_string_key(doc, "database", "db_name"),
            },
        )
    } else {
        None
    };
    let r = TomlConfig { data, folders, database };
    assert(r@ =~= raw_config_spec(doc@));
    r
}

/// What reading a configuration document yields: the checked configuration,
/// or the error message pair shown to the operator.  Failures come in this
/// order: an unparsable document; a missing `[database]` section; a missing
/// `[folders]` section; a missing data folder; missing database essentials.
pub open spec fn populate_spec(doc: Seq<char>) -> Result<ConfigV, (Seq<char>, Seq<char>)> {
    if !toml_doc_ok(doc) {
        Err(
            (
                "Unable to parse config file."@,
                "File (app_config.toml) may be malformed."@,
            ),
        )
    } else if !toml_has_table(doc, "database"@) {
        Err(
            (
                "Missing or misspelt configuration section."@,
                "Cannot find a section called '[database]'."@,
            ),
        )
    } else if !toml_has_table(doc, "folders"@) {
        Err(
            (
                "Missing or misspelt configuration section."@,
                "Cannot find a section called '[folders]'."@,
            ),
        )
    } else if absent(folders_section_spec(doc).data_folder_path) {
        Err((essential_error_head(), essential_error_detail("data path folder"@, "data_folder_path"@)))
    } else if absent(db_section_spec(doc).db_user) {
        Err((essential_error_head(), essential_error_detail("database user name"@, "db_user"@)))
    } else if absent(db_section_spec(doc).db_password) {
        Err((essential_error_head(), essential_error_detail("database user password"@, "db_password"@)))
    } else {
        let data = if toml_has_table(doc, "data"@) {
            data_section_spec(doc)
        } else {
            TomlDataParsV { src_file_name: None, data_version: None, data_date: None }
        };
        Ok(
            ConfigV {
                data_details: data_pars_spec(data),
                folders: folder_pars_spec(folders_section_spec(doc)),
                db_pars: db_pars_spec(db_section_spec(doc)),
            },
        )
    }
}

/// Reads and checks a configuration document.  Succeeds exactly on the
/// documents `populate_spec` accepts, and returns exactly the configuration
/// or error it describes.
pub fn populate_config_vars(config_string: &String) -> (r: Result<Config, AppError>)
    ensures
        match r {
            Ok(c) => populate_spec(config_string@) == Ok::<ConfigV, (Seq<char>, Seq<char>)>(c@),
            Err(e) => e matches AppError::ConfigurationError(a, b) && populate_spec(
                config_string@,
            ) == Err::<ConfigV, (Seq<char>, Seq<char>)>((a@, b@)),
        },
{
    let doc = config_string.as_str();
    if !toml_parses(doc) {
        return Err(
            AppError::ConfigurationError(
                String::from_str("Unable to parse config file."),
                String::from_str("File (app_config.toml) may be malformed."),
            ),
        );
    }
    let toml_config = read_raw_config(doc);
    let toml_data_details = match toml_config.data {
        Some(d) => d,
        None => TomlDataPars { src_file_name: None, data_version: None, data_date: None },
    };
    let toml_database = match toml_config.database {
        Some(d) => d,
        None => {
            return Err(
                AppError::ConfigurationError(
                    String::from_str("Missing or misspelt configuration section."),
                    String::from_str("Cannot find a section called '[database]'."),
                ),
            );
        },
    };
    let toml_folders = match toml_config.folders {
        Some(f) => f,
        None => {
            return Err(
                AppError::ConfigurationError(
                    String::from_str("Missing or misspelt configuration section."),
                    String::from_str("Cannot find a section called '[folders]'."),
                ),
            );
        },
    };
    assert(toml_folders@ =~= folders_section_spec(doc@));
    assert(toml_database@ =~= db_section_spec(doc@));
    let config_folders = match verify_folder_parameters(toml_folders) {
        Ok(f) => f,
        Err(e) => {
            return Err(e);
        },
    };
    let config_data_dets = match verify_data_parameters(toml_data_details) {
        Ok(d) => d,
        Err(e) => {
            return Err(e);
        },
    };
    let config_db_pars = match verify_db_parameters(toml_database) {
        Ok(d) => d,
        Err(e) => {
            return Err(e);
        },
    };
    Ok(
        Config {
            data_details: config_data_dets,
            folders: config_folders,
            db_pars: config_db_pars,
        },
    )
}

// ---------------------------------------------------------------------------
// Writing the document back
// ---------------------------------------------------------------------------

/// The configuration document for the given values, exactly as the
/// interactive set-up writes it: the three sections in order, every value
/// between plain double quotes.
pub open spec fn config_document(
    src_file: Seq<char>,
    data_version: Seq<char>,
    data_date: Seq<char>,
    data_folder: Seq<char>,
    output_folder: Seq<char>,
    log_folder: Seq<char>,
    db_host: Seq<char>,
    db_user: Seq<char>,
    db_password: Seq<char>,
    db_port: Seq<char>,
    db_name: Seq<char>,
) -> Seq<char> {
    "\n[data]\nsrc_file_name=\""@ + src_file + "\"\ndata_version=\""@ + data_version
        + "\"\ndata_date=\""@ + data_date + "\"\n\n\n[folders]\ndata_folder_path=\""@
        + data_folder + "\"\noutput_folder_path=\""@ + output_folder + "\"\nlog_folder_path=\""@
        + log_folder + "\"\n\n\n[database]\ndb_host=\""@ + db_host + "\"\ndb_user=\""@ + db_user
        + "\"\ndb_password=\""@ + db_password + "\"\ndb_port=\""@ + db_port + "\"\ndb_name=\""@
        + db_name + "\"\n\n"@
}

fn push_lit(v: &mut Vec<char>, lit: &str)
    ensures
        final(v)@ == old(v)@ + lit@,
{
    let l = chars_of(lit);
    push_all(v, &l);
}

/// Builds the configuration document for the given values.
pub fn build_config_document(
    src_file: &str,
    data_version: &str,
    data_date: &str,
    data_folder: &str,
    output_folder: &str,
    log_folder: &str,
    db_host: &str,
    db_user: &str,
    db_password: &str,
    db_port: &str,
    db_name: &str,
) -> (r: String)
    ensures
        r@ == config_document(
            src_file@,
            data_version@,
            data_date@,
            data_folder@,
            output_folder@,
            log_folder@,
            db_host@,
            db_user@,
            db_password@,
            db_port@,
            db_name@,
        ),
{
    let mut v: Vec<char> = Vec::new();
    push_lit(&mut v, "\n[data]\nsrc_file_name=\"");
    push_lit(&mut v, src_file);
    push_lit(&mut v, "\"\ndata_version=\"");
    push_lit(&mut v, data_version);
    push_lit(&mut v, "\"\ndata_date=\"");
    push_lit(&mut v, data_date);
    push_lit(&mut v, "\"\n\n\n[folders]\ndata_folder_path=\"");
    push_lit(&mut v, data_folder);
    push_lit(&mut v, "\"\noutput_folder_path=\"");
    push_lit(&mut v, output_folder);
    push_lit(&mut v, "\"\nlog_folder_path=\"");
    push_lit(&mut v, log_folder);
    push_lit(&mut v, "\"\n\n\n[database]\ndb_host=\"");
    push_lit(&mut v, db_host);
    push_lit(&mut v, "\"\ndb_user=\"");
    push_lit(&mut v, db_user);
    push_lit(&mut v, "\"\ndb_password=\"");
    push_lit(&mut v, db_password);
    push_lit(&mut v, "\"\ndb_port=\"");
    push_lit(&mut v, db_port);
    push_lit(&mut v, "\"\ndb_name=\"");
    push_lit(&mut v, db_name);
    push_lit(&mut v, "\"\n\n");
    string_from_chars(&v)
}

// ---------------------------------------------------------------------------
// Database connection values
// ---------------------------------------------------------------------------

/// The database name out of recorded connection parameters; an error when
/// none were recorded.
pub fn fetch_db_name(db_pars: &Option<DBPars>) -> (r: Result<String, AppError>)
    ensures
        match db_pars {
            Some(d) => r matches Ok(n) && n@ == d.db_name@,
            None => r matches Err(AppError::MissingDBParameters),
        },
{
    match db_pars {
        Some(d) => Ok(d.db_name.clone()),
        None => Err(AppError::MissingDBParameters),
    }
}

/// The connection string a database client is handed.
pub open spec fn conn_string_spec(d: DBParsV, db_name: Seq<char>) -> Seq<char> {
    "postgres://"@ + d.db_user + ":"@ + d.db_password + "@"@ + d.db_host + ":"@ + spec_dec(
        d.db_port as nat,
    ) + "/"@ + db_name
}

/// Builds the connection string from recorded parameters; an error when none
/// were recorded.
pub fn fetch_db_conn_string(db_pars: &Option<DBPars>, db_name: &String) -> (r: Result<
    String,
    AppError,
>)
    ensures
        match db_pars {
            Some(d) => r matches Ok(s) && s@ == conn_string_spec(d@, db_name@),
            None => r matches Err(AppError::MissingDBParameters),
        },
{
    match db_pars {
        Some(d) => {
            let mut v = chars_of("postgres://");
            let user = chars_of(d.db_user.as_str());
            push_all(&mut v, &user);
            let colon = chars_of(":");
            push_all(&mut v, &colon);
            let pw = chars_of(d.db_password.as_str());
            push_all(&mut v, &pw);
            let at = chars_of("@");
            push_all(&mut v, &at);
            let host = chars_of(d.db_host.as_str());
            push_all(&mut v, &host);
            push_all(&mut v, &colon);
            let port = u64_dec_chars(d.db_port as u64);
            push_all(&mut v, &port);
            let slash = chars_of("/");
            push_all(&mut v, &slash);
            let name = chars_of(db_name.as_str());
            push_all(&mut v, &name);
            Ok(string_from_chars(&v))
        },
        None => Err(AppError::MissingDBParameters),
    }
}

} // verus!
