//! The lines the program logs about itself: the start-up parameter report
//! and the configuration-file echo.  This module only builds the lines; the
//! caller owns the log sink.

use vstd::prelude::*;
use crate::setup::{InitParams, InitParamsV};
use crate::strutil::concat_str;

verus! {

/// The text of a flag value.
pub open spec fn spec_bool_str(b: bool) -> Seq<char> {
    if b {
        "true"@
    } else {
        "false"@
    }
}

fn bool_str(b: bool) -> (r: &'static str)
    ensures
        r@ == spec_bool_str(b),
{
    if b {
        "true"
    } else {
        "false"
    }
}

/// The start-up report, line by line.
pub open spec fn startup_lines(p: InitParamsV) -> Seq<Seq<char>> {
    seq![
        "PROGRAM START"@,
        ""@,
        "************************************"@,
        ""@,
        "data_folder: "@ + p.data_folder,
        "log_folder: "@ + p.log_folder,
        "output_folder: "@ + p.output_folder,
        "source_file_name: "@ + p.source_file_name,
        "data_version: "@ + p.data_version,
        "data_date: "@ + p.data_date,
        "create config table: "@ + spec_bool_str(p.flags.create_config),
        "create look up tables: "@ + spec_bool_str(p.flags.create_lookups),
        "create summary tables: "@ + spec_bool_str(p.flags.create_summary),
        "import_ror: "@ + spec_bool_str(p.flags.import_ror),
        "process_data: "@ + spec_bool_str(p.flags.process_data),
        "export_text: "@ + spec_bool_str(p.flags.export_text),
        "export_csv: "@ + spec_bool_str(p.flags.export_csv),
        "export_all_csv: "@ + spec_bool_str(p.flags.export_full_csv),
        ""@,
        "************************************"@,
        ""@,
    ]
}

/// The lines recorded at the end of set-up, reporting every run parameter.
pub fn log_startup_params(ip: &InitParams) -> (r: Vec<String>)
    ensures
        r.deep_view() == startup_lines(ip@),
{
    let mut r: Vec<String> = Vec::new();
    r.push(String::from_str("PROGRAM START"));
    r.push(String::new());
    r.push(String::from_str("************************************"));
    r.push(String::new());
    r.push(concat_str("data_folder: ", ip.data_folder.as_str()));
    r.push(concat_str("log_folder: ", ip.log_folder.as_str()));
    r.push(concat_str("output_folder: ", ip.output_folder.as_str()));
    r.push(concat_str("source_file_name: ", ip.source_file_name.as_str()));
    r.push(concat_str("data_version: ", ip.data_version.as_str()));
    r.push(concat_str("data_date: ", ip.data_date.as_str()));
    r.push(concat_str("create config table: ", bool_str(ip.flags.create_config)));
    r.push(concat_str("create look up tables: ", bool_str(ip.flags.create_lookups)));
    r.push(concat_str("create summary tables: ", bool_str(ip.flags.create_summary)));
    r.push(concat_str("import_ror: ", bool_str(ip.flags.import_ror)));
    r.push(concat_str("process_data: ", bool_str(ip.flags.process_data)));
    r.push(concat_str("export_text: ", bool_str(ip.flags.export_text)));
    r.push(concat_str("export_csv: ", bool_str(ip.flags.export_csv)));
    r.push(concat_str("export_all_csv: ", bool_str(ip.flags.export_full_csv)));
    r.push(String::new());
    r.push(String::from_str("************************************"));
    r.push(String::new());
    proof {
        reveal_strlit("");
        assert(""@ =~= Seq::<char>::empty());
        assert(r.deep_view() =~~= startup_lines(ip@));
    }
    r
}

/// The lines echoing a freshly written configuration file.
pub open spec fn config_lines(config: Seq<char>) -> Seq<Seq<char>> {
    seq!["Config file created or modified"@, "New file is:"@, config, ""@]
}

/// The lines recorded when the configuration file was created or edited.
pub fn write_config(config_string: &String) -> (r: Vec<String>)
    ensures
        r.deep_view() == config_lines(config_string@),
{
    let mut r: Vec<String> = Vec::new();
    r.push(String::from_str("Config file created or modified"));
    r.push(String::from_str("New file is:"));
    r.push(config_string.clone());
    r.push(String::new());
    proof {
        reveal_strlit("");
        assert(""@ =~= Seq::<char>::empty());
        assert(r.deep_view() =~~= config_lines(config_string@));
    }
    r
}

} // verus!
