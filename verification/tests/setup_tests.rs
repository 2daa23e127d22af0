//! Configuration reading, file-name parsing and parameter fusion.

use imp_ror::config_reader::{build_config_document, populate_config_vars};
use imp_ror::setup::{is_compliant_file_name, get_data_version, get_data_date, get_params};
use imp_ror::cli_reader::{get_initalising_cli_pars, resolve_flags, CliPars, Flags, RawFlags};
use imp_ror::errors::AppError;

fn quiet_flags() -> Flags {
    Flags {
        import_ror: false,
        process_data: false,
        export_text: false,
        additional_processing: false,
        export_csv: false,
        export_full_csv: false,
        create_config: false,
        create_lookups: false,
        create_summary: false,
        test_run: false,
    }
}

fn plain_cli() -> CliPars {
    CliPars {
        source_file: String::new(),
        data_version: String::new(),
        data_date: String::new(),
        flags: quiet_flags(),
        test_folder: String::new(),
    }
}

// file-name convention

#[test]
fn check_file_name_regex_works_1() {
    let test_file_name = "v1.50 2024-12-11.json".to_string();
    assert_eq!(is_compliant_file_name(&test_file_name), true);
    assert_eq!(get_data_version(&test_file_name), "v1.50");
    assert_eq!(get_data_date(&test_file_name), "2024-12-11");
}

#[test]
fn check_file_name_regex_works_2() {
    let test_file_name = "v1.50-2024-12-11.json".to_string();
    assert_eq!(is_compliant_file_name(&test_file_name), true);
    assert_eq!(get_data_version(&test_file_name), "v1.50");
    assert_eq!(get_data_date(&test_file_name), "2024-12-11");
}

#[test]
fn check_file_name_regex_works_3() {
    let test_file_name = "v1.50 20241211.json".to_string();
    assert_eq!(is_compliant_file_name(&test_file_name), true);
    assert_eq!(get_data_version(&test_file_name), "v1.50");
    assert_eq!(get_data_date(&test_file_name), "2024-12-11");
}

#[test]
fn check_file_name_regex_works_4() {
    let test_file_name = "v1.50-20241211.json".to_string();
    assert_eq!(is_compliant_file_name(&test_file_name), true);
    assert_eq!(get_data_version(&test_file_name), "v1.50");
    assert_eq!(get_data_date(&test_file_name), "2024-12-11");
}

#[test]
fn check_file_name_regex_works_5() {
    let test_file_name = "v1.50-2024-1211.json".to_string();
    assert_eq!(is_compliant_file_name(&test_file_name), true);
    assert_eq!(get_data_version(&test_file_name), "v1.50");
    assert_eq!(get_data_date(&test_file_name), "2024-12-11");
}

#[test]
fn check_file_name_regex_works_6() {
    let test_file_name = "v1.59-2025-01-23-ror-data_schema_v2.json".to_string();
    assert_eq!(is_compliant_file_name(&test_file_name), true);
    assert_eq!(get_data_version(&test_file_name), "v1.59");
    assert_eq!(get_data_date(&test_file_name), "2025-01-23");
}

#[test]
fn check_file_name_regex_works_7() {
    let test_file_name = "1.50 2024-12-11.json".to_string();
    assert_eq!(is_compliant_file_name(&test_file_name), false);

    let test_file_name = "v1.50--2024-12-11.json".to_string();
    assert_eq!(is_compliant_file_name(&test_file_name), false);

    let test_file_name = "v1.50  20241211.json".to_string();
    assert_eq!(is_compliant_file_name(&test_file_name), false);

    let test_file_name = "v1.50 20242211.json".to_string();
    assert_eq!(is_compliant_file_name(&test_file_name), false);

    let test_file_name = "v1.50.20241211.json".to_string();
    assert_eq!(is_compliant_file_name(&test_file_name), false);
}

// the calendar check behind the date pattern

#[test]
fn date_digits_must_name_a_real_day() {
    // a leap day in a leap year is accepted
    assert_eq!(get_data_date("x 20240229.json"), "2024-02-29");
    // the same day in a common year is refused
    assert_eq!(get_data_date("x 20230229.json"), "");
    // a thirteenth month fits the digit pattern but no calendar
    assert_eq!(get_data_date("x 20241311.json"), "");
    // no date at all
    assert_eq!(get_data_date("nothing here"), "");
}

// configuration reading

#[test]
fn check_config_with_all_params_present() {
    let config = r#"
[data]
data_version="v99"
data_date="2026-06-15"
src_file_name="v1.59-2025-01-23-ror-data_schema_v2.json"

[folders]
data_folder_path="/home/steve/Data/MDR source data/ROR/data"
output_folder_path="/home/steve/Data/MDR source data/ROR/outputs"
log_folder_path="/home/steve/Data/MDR/MDR_Logs/ror"

[database]
db_host="localhost"
db_user="user_name"
db_password="password"
db_port="5432"
db_name="ror"
"#;
    let config_string = config.to_string();
    let res = populate_config_vars(&config_string).unwrap();
    assert_eq!(res.folders.data_folder_path, "/home/steve/Data/MDR source data/ROR/data");
    assert_eq!(res.folders.log_folder_path, "/home/steve/Data/MDR/MDR_Logs/ror");
    assert_eq!(res.folders.output_folder_path, "/home/steve/Data/MDR source data/ROR/outputs");

    assert_eq!(res.data_details.src_file_name, "v1.59-2025-01-23-ror-data_schema_v2.json");
    assert_eq!(res.data_details.data_version, "v99");
    assert_eq!(res.data_details.data_date, "2026-06-15");

    assert_eq!(res.db_pars.db_host, "localhost");
    assert_eq!(res.db_pars.db_user, "user_name");
    assert_eq!(res.db_pars.db_password, "password");
    assert_eq!(res.db_pars.db_port, 5432);
    assert_eq!(res.db_pars.db_name, "ror");
}

#[test]
fn check_config_with_missing_log_and_outputs_folders() {
    let config = r#"
[data]
data_version="v99"
data_date="2026-06-15"
src_file_name="v1.59-2025-01-23-ror-data_schema_v2.json"

[folders]
data_folder_path="/home/steve/Data/MDR source data/ROR/data"


[database]
db_host="localhost"
db_user="user_name"
db_password="password"
db_port="5432"
db_name="ror"
"#;
    let config_string = config.to_string();
    let res = populate_config_vars(&config_string).unwrap();
    assert_eq!(res.folders.data_folder_path, "/home/steve/Data/MDR source data/ROR/data");
    assert_eq!(res.folders.log_folder_path, "/home/steve/Data/MDR source data/ROR/data");
    assert_eq!(res.folders.output_folder_path, "/home/steve/Data/MDR source data/ROR/data");

    assert_eq!(res.data_details.src_file_name, "v1.59-2025-01-23-ror-data_schema_v2.json");
}

#[test]
fn check_config_with_blank_log_and_outputs_folders() {
    let config = r#"
[data]
data_version="v99"
data_date="2026-06-15"
src_file_name="v1.59-2025-01-23-ror-data_schema_v2.json"

[folders]
data_folder_path="/home/steve/Data/MDR source data/ROR/data"
log_folder_path=""
output_folder_path=""

[database]
db_host="localhost"
db_user="user_name"
db_password="password"
db_port="5432"
db_name="ror"
"#;
    let config_string = config.to_string();
    let res = populate_config_vars(&config_string).unwrap();
    assert_eq!(res.folders.data_folder_path, "/home/steve/Data/MDR source data/ROR/data");
    assert_eq!(res.folders.log_folder_path, "/home/steve/Data/MDR source data/ROR/data");
    assert_eq!(res.folders.output_folder_path, "/home/steve/Data/MDR source data/ROR/data");

    assert_eq!(res.data_details.src_file_name, "v1.59-2025-01-23-ror-data_schema_v2.json");
}

#[test]
fn check_missing_data_details_become_empty_strings() {
    let config = r#"
[data]
src_file_name="v1.59-2025-01-23-ror-data_schema_v2.json"


[folders]
data_folder_path="/home/steve/Data/MDR source data/ROR/data"
output_folder_path="/home/steve/Data/MDR source data/ROR/outputs"
log_folder_path="/home/steve/Data/MDR/MDR_Logs/ror"


[database]
db_host="localhost"
db_user="user_name"
db_password="password"
db_port="5432"
db_name="ror"
"#;
    let config_string = config.to_string();
    let res = populate_config_vars(&config_string).unwrap();
    assert_eq!(res.folders.data_folder_path, "/home/steve/Data/MDR source data/ROR/data");
    assert_eq!(res.folders.log_folder_path, "/home/steve/Data/MDR/MDR_Logs/ror");
    assert_eq!(res.folders.output_folder_path, "/home/steve/Data/MDR source data/ROR/outputs");

    assert_eq!(res.data_details.src_file_name, "v1.59-2025-01-23-ror-data_schema_v2.json");
    assert_eq!(res.data_details.data_version, "");
    assert_eq!(res.data_details.data_date, "");

    assert_eq!(res.db_pars.db_host, "localhost");
    assert_eq!(res.db_pars.db_user, "user_name");
    assert_eq!(res.db_pars.db_password, "password");
    assert_eq!(res.db_pars.db_port, 5432);
    assert_eq!(res.db_pars.db_name, "ror");
}

#[test]
#[should_panic]
fn check_missing_data_folder_panics() {
    let config = r#"
[data]
data_version="v99"
data_date="2026-06-15"
src_file_name="v1.59-2025-01-23-ror-data_schema_v2.json"


[folders]
output_folder_path="/home/steve/Data/MDR source data/ROR/outputs"
log_folder_path="/home/steve/Data/MDR/MDR_Logs/ror"


[database]
db_host="localhost"
db_user="user_name"
db_password="password"
db_port="5432"
db_name="ror"
"#;
    let config_string = config.to_string();
    let _res = populate_config_vars(&config_string).unwrap();
}

#[test]
#[should_panic]
fn check_missing_user_name_panics() {
    let config = r#"
[data]
data_version="v99"
data_date="2026-06-15"
src_file_name="v1.59-2025-01-23-ror-data_schema_v2.json"

[folders]
data_folder_path="/home/steve/Data/MDR source data/ROR/data"
output_folder_path="/home/steve/Data/MDR source data/ROR/outputs"
log_folder_path="/home/steve/Data/MDR/MDR_Logs/ror"

[database]
db_host="localhost"
db_user=""
db_password="password"
db_port="5432"
db_name="ror"
"#;
    let config_string = config.to_string();
    let _res = populate_config_vars(&config_string).unwrap();
}

#[test]
fn check_db_defaults_are_supplied() {
    let config = r#"
[data]
data_version="v99"
data_date="2026-06-15"
src_file_name="v1.59-2025-01-23-ror-data_schema_v2.json"

[folders]
data_folder_path="/home/steve/Data/MDR source data/ROR/data"
output_folder_path="/home/steve/Data/MDR source data/ROR/outputs"
log_folder_path="/home/steve/Data/MDR/MDR_Logs/ror"

[database]
db_user="user_name"
db_password="password"
"#;
    let config_string = config.to_string();
    let res = populate_config_vars(&config_string).unwrap();
    assert_eq!(res.db_pars.db_host, "localhost");
    assert_eq!(res.db_pars.db_user, "user_name");
    assert_eq!(res.db_pars.db_password, "password");
    assert_eq!(res.db_pars.db_port, 5432);
    assert_eq!(res.db_pars.db_name, "ror");
}

#[test]
fn missing_port_gets_default() {
    let config = r#"
[data]
src_file_name="v1.59-2025-01-23-ror-data_schema_v2.json"

[folders]
data_folder_path="/home/steve/Data/MDR source data/ROR/data"
output_folder_path="/home/steve/Data/MDR source data/ROR/outputs"
log_folder_path="/home/steve/Data/MDR/MDR_Logs/ror"

[database]
db_host="localhost"
db_user="user_name"
db_password="password"
db_port=""
db_name="ror"

"#;
    let config_string = config.to_string();
    let res = populate_config_vars(&config_string).unwrap();

    assert_eq!(res.data_details.data_version, "");
    assert_eq!(res.data_details.data_date, "");

    assert_eq!(res.db_pars.db_host, "localhost");
    assert_eq!(res.db_pars.db_user, "user_name");
    assert_eq!(res.db_pars.db_password, "password");
    assert_eq!(res.db_pars.db_port, 5432);
    assert_eq!(res.db_pars.db_name, "ror");
}

#[test]
fn unparsable_config_is_a_configuration_error() {
    let config_string = "not [ valid toml ==".to_string();
    match populate_config_vars(&config_string) {
        Err(AppError::ConfigurationError(head, detail)) => {
            assert_eq!(head, "Unable to parse config file.");
            assert_eq!(detail, "File (app_config.toml) may be malformed.");
        }
        _ => panic!("expected a configuration error"),
    }
}

#[test]
fn missing_database_section_is_reported() {
    let config = r#"
[folders]
data_folder_path="/data"
"#;
    match populate_config_vars(&config.to_string()) {
        Err(AppError::ConfigurationError(head, detail)) => {
            assert_eq!(head, "Missing or misspelt configuration section.");
            assert_eq!(detail, "Cannot find a section called '[database]'.");
        }
        _ => panic!("expected a configuration error"),
    }
}

// parameter fusion

#[test]
fn params_take_version_and_date_from_the_file_name() {
    let config = r#"
[data]
data_version="v1.60"
data_date="2025-12-11"
src_file_name="v1.58 20241211.json"

[folders]
data_folder_path="/srv/ror/data"

[database]
db_user="user_name"
db_password="password"
"#;
    let config_string = config.to_string();
    let mut cli = plain_cli();
    cli.flags.import_ror = true;
    let res = get_params(cli, &config_string, true).unwrap();
    assert_eq!(res.data_folder, "/srv/ror/data");
    assert_eq!(res.log_folder, "/srv/ror/data");
    assert_eq!(res.output_folder, "/srv/ror/data");
    assert_eq!(res.source_file_name, "v1.58 20241211.json");
    assert_eq!(res.data_version, "v1.58");
    assert_eq!(res.data_date, "2024-12-11");
}

#[test]
fn cli_values_override_config_values() {
    let config = r#"
[data]
data_version="v1.60"
data_date="2025-12-11"
src_file_name="plain name"

[folders]
data_folder_path="/srv/ror/data"

[database]
db_user="user_name"
db_password="password"
"#;
    let config_string = config.to_string();
    let mut cli = plain_cli();
    cli.source_file = "schema2 data".to_string();
    cli.data_version = "v1.63".to_string();
    cli.data_date = "2026-12-25".to_string();
    let res = get_params(cli, &config_string, true).unwrap();
    // the source name gains the json ending, and the non-compliant name
    // leaves version and date to the command line
    assert_eq!(res.source_file_name, "schema2 data.json");
    assert_eq!(res.data_version, "v1.63");
    assert_eq!(res.data_date, "2026-12-25");
}

#[test]
fn missing_data_folder_stops_an_import_run() {
    let config = r#"
[data]
src_file_name="v1.58 20241211.json"

[folders]
data_folder_path="/srv/ror/data"

[database]
db_user="user_name"
db_password="password"
"#;
    let config_string = config.to_string();
    let mut cli = plain_cli();
    cli.flags.import_ror = true;
    match get_params(cli, &config_string, false) {
        Err(AppError::MissingProgramParameter(p)) => assert_eq!(p, "data_folder"),
        _ => panic!("expected a missing-parameter error"),
    }
}

#[test]
fn initialising_cli_pars_force_setup_actions() {
    let p = get_initalising_cli_pars();
    assert_eq!(p.source_file, "");
    assert!(p.flags.create_config);
    assert!(p.flags.create_lookups);
    assert!(p.flags.create_summary);
    assert!(!p.flags.import_ror);
    assert!(!p.flags.test_run);
}

// flag fusion

fn raw(set: &[&str]) -> RawFlags {
    RawFlags {
        all: set.contains(&"a"),
        import: set.contains(&"r"),
        process: set.contains(&"p"),
        text: set.contains(&"t"),
        languages: set.contains(&"q"),
        export: set.contains(&"x"),
        exportall: set.contains(&"y"),
        config: set.contains(&"c"),
        lookup: set.contains(&"k"),
        summsetup: set.contains(&"m"),
        test: set.contains(&"z"),
    }
}

#[test]
fn no_flags_defaults_to_import() {
    let f = resolve_flags(raw(&[]));
    assert!(f.import_ror);
    assert!(!f.process_data && !f.export_text && !f.export_csv && !f.export_full_csv);
    assert!(!f.create_config && !f.create_lookups && !f.create_summary && !f.test_run);
}

#[test]
fn all_flag_expands_to_import_process_text() {
    let f = resolve_flags(raw(&["a"]));
    assert!(f.import_ror && f.process_data && f.export_text);
    assert!(!f.export_csv && !f.export_full_csv);
    assert!(!f.create_config && !f.create_lookups && !f.create_summary);
}

#[test]
fn setup_flags_suppress_processing() {
    let f = resolve_flags(raw(&["c", "k", "m"]));
    assert!(f.create_config && f.create_lookups && f.create_summary);
    assert!(!f.import_ror && !f.process_data && !f.export_text);
    assert!(!f.export_csv && !f.export_full_csv && !f.test_run);

    let f = resolve_flags(raw(&["k", "p"]));
    assert!(f.create_lookups && !f.create_config && !f.create_summary);
    assert!(!f.import_ror && !f.process_data);

    let f = resolve_flags(raw(&["m", "r"]));
    assert!(f.create_summary && !f.create_lookups && !f.create_config);
    assert!(!f.import_ror);
}

#[test]
fn export_flags_stand_alone() {
    let f = resolve_flags(raw(&["x", "y"]));
    assert!(f.export_csv && f.export_full_csv);
    assert!(!f.import_ror && !f.process_data && !f.export_text);

    let f = resolve_flags(raw(&["r", "p", "t", "x"]));
    assert!(f.import_ror && f.process_data && f.export_text && f.export_csv);
    assert!(!f.export_full_csv);
}

#[test]
fn test_flag_keeps_the_import_default() {
    let f = resolve_flags(raw(&["z"]));
    assert!(f.import_ror && f.test_run);
    assert!(!f.process_data && !f.export_text);
}

// the written configuration document

#[test]
fn written_config_document_reads_back() {
    let doc = build_config_document(
        "v1.58 20241211.json",
        "v1.58",
        "2024-12-11",
        "/srv/ror/data",
        "/srv/ror/out",
        "/srv/ror/logs",
        "localhost",
        "user_name",
        "password",
        "5432",
        "ror",
    );
    assert!(doc.contains("[data]\nsrc_file_name=\"v1.58 20241211.json\""));
    let cfg = populate_config_vars(&doc).unwrap();
    assert_eq!(cfg.data_details.src_file_name, "v1.58 20241211.json");
    assert_eq!(cfg.data_details.data_version, "v1.58");
    assert_eq!(cfg.data_details.data_date, "2024-12-11");
    assert_eq!(cfg.folders.data_folder_path, "/srv/ror/data");
    assert_eq!(cfg.folders.output_folder_path, "/srv/ror/out");
    assert_eq!(cfg.folders.log_folder_path, "/srv/ror/logs");
    assert_eq!(cfg.db_pars.db_host, "localhost");
    assert_eq!(cfg.db_pars.db_user, "user_name");
    assert_eq!(cfg.db_pars.db_password, "password");
    assert_eq!(cfg.db_pars.db_port, 5432);
    assert_eq!(cfg.db_pars.db_name, "ror");
}
