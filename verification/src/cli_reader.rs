//! The command-line parameter records: what a parsed command line hands the
//! rest of the program, and the fixed parameter set used when no
//! configuration file exists yet (the program then forces an initialisation
//! run).  Reading the actual command line is the caller's business.

use vstd::prelude::*;

verus! {

/// The action flags a command line can set.
#[derive(Debug, Clone, Copy)]
pub struct Flags {
    pub import_ror: bool,
    pub process_data: bool,
    pub export_text: bool,
    pub additional_processing: bool,
    pub export_csv: bool,
    pub export_full_csv: bool,
    pub create_config: bool,
    pub create_lookups: bool,
    pub create_summary: bool,
    pub test_run: bool,
}

/// Everything a command line provides.
#[derive(Debug)]
pub struct CliPars {
    pub source_file: String,
    pub data_version: String,
    pub data_date: String,
    pub flags: Flags,
    pub test_folder: String,
}

/// The action flags exactly as the command line sets them, before the
/// fusion rules run.
#[derive(Debug, Clone, Copy)]
pub struct RawFlags {
    pub all: bool,
    pub import: bool,
    pub process: bool,
    pub text: bool,
    pub languages: bool,
    pub export: bool,
    pub exportall: bool,
    pub config: bool,
    pub lookup: bool,
    pub summsetup: bool,
    pub test: bool,
}

/// What the flag-fusion rules yield: a set-up flag (config, lookup or
/// summary) suppresses every processing flag; otherwise the `all` flag turns
/// on import, process and text; and with no processing flag at all, import
/// is the default action.
pub open spec fn resolve_flags_spec(raw: RawFlags) -> Flags {
    if raw.lookup || raw.summsetup || raw.config {
        Flags {
            import_ror: false,
            process_data: false,
            additional_processing: false,
            export_text: false,
            export_csv: false,
            export_full_csv: false,
            create_config: raw.config,
            create_lookups: raw.lookup,
            create_summary: raw.summsetup,
            test_run: false,
        }
    } else {
        let import = if raw.all {
            true
        } else if !raw.import && !raw.process && !raw.text && !raw.languages && !raw.export
            && !raw.exportall {
            true
        } else {
            raw.import
        };
        Flags {
            import_ror: import,
            process_data: raw.process || raw.all,
            additional_processing: raw.languages,
            export_text: raw.text || raw.all,
            export_csv: raw.export,
            export_full_csv: raw.exportall,
            create_config: false,
            create_lookups: false,
            create_summary: false,
            test_run: raw.test,
        }
    }
}

/// Applies the flag-fusion rules to the raw command-line flags.
pub fn resolve_flags(raw: RawFlags) -> (f: Flags)
    ensures
        f == resolve_flags_spec(raw),
{
    if raw.lookup || raw.summsetup || raw.config {
        Flags {
            import_ror: false,
            process_data: false,
            additional_processing: false,
            export_text: false,
            export_csv: false,
            export_full_csv: false,
            create_config: raw.config,
            create_lookups: raw.lookup,
            create_summary: raw.summsetup,
            test_run: false,
        }
    } else {
        let import = if raw.all {
            true
        } else if !raw.import && !raw.process && !raw.text && !raw.languages && !raw.export
            && !raw.exportall {
            true
        } else {
            raw.import
        };
        Flags {
            import_ror: import,
            process_data: raw.process || raw.all,
            additional_processing: raw.languages,
            export_text: raw.text || raw.all,
            export_csv: raw.export,
            export_full_csv: raw.exportall,
            create_config: false,
            create_lookups: false,
            create_summary: false,
            test_run: raw.test,
        }
    }
}

/// The parameters of a forced initialisation run, used when no configuration
/// file exists: build the configuration file and both table sets, and do
/// nothing else.
pub fn get_initalising_cli_pars() -> (r: CliPars)
    ensures
        r.source_file@ == Seq::<char>::empty(),
        r.data_version@ == Seq::<char>::empty(),
        r.data_date@ == Seq::<char>::empty(),
        r.test_folder@ == Seq::<char>::empty(),
        !r.flags.import_ror,
        !r.flags.process_data,
        !r.flags.additional_processing,
        !r.flags.export_text,
        !r.flags.export_csv,
        !r.flags.export_full_csv,
        r.flags.create_config,
        r.flags.create_lookups,
        r.flags.create_summary,
        !r.flags.test_run,
{
    let flags = Flags {
        import_ror: false,
        process_data: false,
        additional_processing: false,
        export_text: false,
        export_csv: false,
        export_full_csv: false,
        create_config: true,
        create_lookups: true,
        create_summary: true,
        test_run: false,
    };
    CliPars {
        source_file: String::new(),
        data_version: String::new(),
        data_date: String::new(),
        test_folder: String::new(),
        flags,
    }
}

} // verus!
