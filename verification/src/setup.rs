//! Fusion of command-line and configuration-file parameters into the run
//! parameters, and the source-file-name convention the program reads a data
//! version and date from.
//!
//! A compliant source file name starts with a version (`v` and one to three
//! dot-separated digit runs) followed by a space or hyphen and a date
//! (`20xx`, month and day, with optional hyphens).  The date is accepted
//! only when it names a real calendar day, which the chrono crate decides
//! behind a trusted wrapper.

use vstd::prelude::*;
use crate::errors::{AppError, AppErrV};
use crate::cli_reader::{CliPars, Flags};
use crate::config_reader::{populate_spec, populate_config_vars};
use crate::strutil::{is_digit, chars_of, string_from_chars, matches_at};

verus! {

// ---------------------------------------------------------------------------
// The file-name convention
// ---------------------------------------------------------------------------

/// The run of decimal digits at the front of `s`.
pub open spec fn digits_len(s: Seq<char>) -> nat
    decreases s.len(),
{
    if s.len() > 0 && is_digit(s[0]) {
        1 + digits_len(s.drop_first())
    } else {
        0
    }
}

/// The length of the version prefix of `s` (`v` then up to three
/// dot-separated digit runs, greedily), 0 when there is none.
pub open spec fn version_len(s: Seq<char>) -> int {
    if s.len() > 0 && s[0] == 'v' && digits_len(s.skip(1)) > 0 {
        let l1 = 1 + digits_len(s.skip(1)) as int;
        let l2 = if l1 < s.len() && s[l1] == '.' && digits_len(s.skip(l1 + 1)) > 0 {
            l1 + 1 + digits_len(s.skip(l1 + 1)) as int
        } else {
            l1
        };
        if l2 > l1 && l2 < s.len() && s[l2] == '.' && digits_len(s.skip(l2 + 1)) > 0 {
            l2 + 1 + digits_len(s.skip(l2 + 1)) as int
        } else {
            l2
        }
    } else {
        0
    }
}

/// The version named by a compliant file name, or the empty string.
pub open spec fn spec_data_version(s: Seq<char>) -> Seq<char> {
    if version_len(s) > 0 {
        s.take(version_len(s))
    } else {
        Seq::empty()
    }
}

/// The length of a date written at the front of `t` (`20`, two digits, an
/// optional hyphen, a month pair starting 0 or 1, an optional hyphen, a day
/// pair starting 0 to 3), 0 when there is none.
pub open spec fn date_len(t: Seq<char>) -> int {
    if t.len() >= 4 && t[0] == '2' && t[1] == '0' && is_digit(t[2]) && is_digit(t[3]) {
        let h1: int = if t.len() > 4 && t[4] == '-' {
            1
        } else {
            0
        };
        if t.len() >= 6 + h1 && (t[4 + h1] == '0' || t[4 + h1] == '1') && is_digit(t[5 + h1]) {
            let h2: int = if t.len() > 6 + h1 && t[6 + h1] == '-' {
                1
            } else {
                0
            };
            if t.len() >= 8 + h1 + h2 && 0x30 <= t[6 + h1 + h2] as u32 && t[6 + h1 + h2] as u32
                <= 0x33 && is_digit(t[7 + h1 + h2]) {
                8 + h1 + h2
            } else {
                0
            }
        } else {
            0
        }
    } else {
        0
    }
}

/// The eight date digits at the front of `t`, hyphens skipped.
pub open spec fn compact_date(t: Seq<char>) -> Seq<char> {
    let h1: int = if t.len() > 4 && t[4] == '-' {
        1
    } else {
        0
    };
    let h2: int = if t.len() > 6 + h1 && t[6 + h1] == '-' {
        1
    } else {
        0
    };
    seq![t[0], t[1], t[2], t[3], t[4 + h1], t[5 + h1], t[6 + h1 + h2], t[7 + h1 + h2]]
}

/// Whether chrono accepts `s` as a date under format `fmt`; a fact of the
/// two strings alone.
pub uninterp spec fn chrono_date_ok(s: Seq<char>, fmt: Seq<char>) -> bool;

/// Relies on `chrono::NaiveDate::parse_from_str`: whether a string parses as
/// a calendar date under a format depends on the two strings alone.
#[verifier::external_body]
fn naive_date_ok(s: &str, fmt: &str) -> (r: bool)
    ensures
        r == chrono_date_ok(s@, fmt@),
{
    chrono::NaiveDate::parse_from_str(s, fmt).is_ok()
}

/// The ISO form of eight compact date digits.
pub open spec fn dashed_date(c: Seq<char>) -> Seq<char> {
    c.take(4) + seq!['-'] + c.subrange(4, 6) + seq!['-'] + c.subrange(6, 8)
}

/// The date derived from the first date written in `s`: its ISO form when
/// chrono accepts the compact digits as a real day, the empty string
/// otherwise (also when `s` holds no date at all).
pub open spec fn spec_data_date(s: Seq<char>) -> Seq<char>
    decreases s.len(),
{
    if s.len() == 0 {
        Seq::empty()
    } else if date_len(s) > 0 {
        if chrono_date_ok(compact_date(s), "%Y%m%d"@) {
            dashed_date(compact_date(s))
        } else {
            Seq::empty()
        }
    } else {
        spec_data_date(s.drop_first())
    }
}

/// A compliant file name: a version, a space or hyphen, then a date.
pub open spec fn spec_compliant(s: Seq<char>) -> bool {
    let l = version_len(s);
    l > 0 && l < s.len() && (s[l] == '-' || s[l] == ' ') && date_len(s.skip(l + 1)) > 0
}

fn is_digit_x(c: char) -> (r: bool)
    ensures
        r == is_digit(c),
{
    let u = c as u32;
    0x30 <= u && u <= 0x39
}

fn digits_len_x(v: &Vec<char>, i: usize) -> (r: usize)
    requires
        i <= v@.len(),
    ensures
        r == digits_len(v@.skip(i as int)),
        i + r <= v@.len(),
{
    let n = v.len();
    let mut k = i;
    while k < n && is_digit_x(v[k])
        invariant
            i <= k <= n,
            n == v@.len(),
            digits_len(v@.skip(i as int)) == (k - i) + digits_len(v@.skip(k as int)),
        decreases n - k,
    {
        proof {
            assert(v@.skip(k as int).drop_first() =~= v@.skip(k + 1));
            assert(v@.skip(k as int)[0] == v@[k as int]);
        }
        k = k + 1;
    }
    proof {
        if k < n {
            assert(v@.skip(k as int)[0] == v@[k as int]);
        } else {
            assert(v@.skip(k as int) =~= Seq::<char>::empty());
        }
        assert(digits_len(v@.skip(k as int)) == 0);
    }
    k - i
}

fn version_len_x(v: &Vec<char>) -> (r: usize)
    ensures
        r == version_len(v@),
        r <= v@.len(),
{
    let n = v.len();
    if n == 0 || v[0] != 'v' {
        return 0;
    }
    let d1 = digits_len_x(v, 1);
    if d1 == 0 {
        return 0;
    }
    let l1 = 1 + d1;
    let l2 = if l1 < n && v[l1] == '.' && digits_len_x(v, l1 + 1) > 0 {
        l1 + 1 + digits_len_x(v, l1 + 1)
    } else {
        l1
    };
    if l2 > l1 && l2 < n && v[l2] == '.' && digits_len_x(v, l2 + 1) > 0 {
        l2 + 1 + digits_len_x(v, l2 + 1)
    } else {
        l2
    }
}

fn date_len_x(v: &Vec<char>, i: usize) -> (r: usize)
    requires
        i <= v@.len(),
    ensures
        r == date_len(v@.skip(i as int)),
        i + r <= v@.len(),
{
    let ghost t = v@.skip(i as int);
    let n = v.len();
    proof {
        assert(forall|k: int| 0 <= k < t.len() ==> t[k] == v@[i + k]);
    }
    if !(n - i >= 4 && v[i] == '2' && v[i + 1] == '0' && {
        let u = v[i + 2] as u32;
        0x30 <= u && u <= 0x39
    } && {
        let u = v[i + 3] as u32;
        0x30 <= u && u <= 0x39
    }) {
        return 0;
    }
    let h1: usize = if n - i > 4 && v[i + 4] == '-' {
        1
    } else {
        0
    };
    if !(n - i >= 6 + h1 && (v[i + 4 + h1] == '0' || v[i + 4 + h1] == '1') && {
        let u = v[i + 5 + h1] as u32;
        0x30 <= u && u <= 0x39
    }) {
        return 0;
    }
    let h2: usize = if n - i > 6 + h1 && v[i + 6 + h1] == '-' {
        1
    } else {
        0
    };
    if n - i >= 8 + h1 + h2 && {
        let u = v[i + 6 + h1 + h2] as u32;
        0x30 <= u && u <= 0x33
    } && {
        let u = v[i + 7 + h1 + h2] as u32;
        0x30 <= u && u <= 0x39
    } {
        8 + h1 + h2
    } else {
        0
    }
}

/// Whether a source file name follows the version-and-date convention.
pub fn is_compliant_file_name(input: &String) -> (r: bool)
    ensures
        r == spec_compliant(input@),
{
    let v = chars_of(input.as_str());
    let l = version_len_x(&v);
    if l == 0 || l >= v.len() {
        return false;
    }
    let sep = v[l];
    if !(sep == '-' || sep == ' ') {
        return false;
    }
    date_len_x(&v, l + 1) > 0
}

/// The version prefix of a file name, or the empty string.
pub fn get_data_version(input: &str) -> (r: String)
    ensures
        r@ == spec_data_version(input@),
{
    let v = chars_of(input);
    let l = version_len_x(&v);
    let mut out: Vec<char> = Vec::new();
    let mut i: usize = 0;
    while i < l
        invariant
            i <= l <= v@.len(),
            v@ == input@,
            out@ == v@.subrange(0, i as int),
        decreases l - i,
    {
        out.push(v[i]);
        assert(v@.subrange(0, (i + 1) as int) =~= v@.subrange(0, i as int).push(v@[i as int]));
        i = i + 1;
    }
    assert(out@ =~= spec_data_version(input@));
    string_from_chars(&out)
}

/// The ISO date derived from the first date written in a file name, or the
/// empty string when there is none or the digits name no real day.
pub fn get_data_date(input: &str) -> (r: String)
    ensures
        r@ == spec_data_date(input@),
{
    let v = chars_of(input);
    let n = v.len();
    let mut i: usize = 0;
    assert(v@.skip(0) =~= v@);
    while i < n
        invariant
            i <= n,
            n == v@.len(),
            v@ == input@,
            spec_data_date(input@) == spec_data_date(v@.skip(i as int)),
        decreases n - i,
    {
        proof {
            assert(v@.skip(i as int).drop_first() =~= v@.skip(i + 1));
        }
        let dl = date_len_x(&v, i);
        if dl > 0 {
            let ghost t = v@.skip(i as int);
            proof {
                assert(forall|k: int| 0 <= k < t.len() ==> t[k] == v@[i + k]);
            }
            let h1: usize = if n - i > 4 && v[i + 4] == '-' {
                1
            } else {
                0
            };
            let h2: usize = if n - i > 6 + h1 && v[i + 6 + h1] == '-' {
                1
            } else {
                0
            };
            let mut c: Vec<char> = Vec::new();
            c.push(v[i]);
            c.push(v[i + 1]);
            c.push(v[i + 2]);
            c.push(v[i + 3]);
            c.push(v[i + 4 + h1]);
            c.push(v[i + 5 + h1]);
            c.push(v[i + 6 + h1 + h2]);
            c.push(v[i + 7 + h1 + h2]);
            assert(c@ =~= compact_date(t));
            let cs = string_from_chars(&c);
            if naive_date_ok(cs.as_str(), "%Y%m%d") {
                let mut d: Vec<char> = Vec::new();
                d.push(c[0]);
                d.push(c[1]);
                d.push(c[2]);
                d.push(c[3]);
                d.push('-');
                d.push(c[4]);
                d.push(c[5]);
                d.push('-');
                d.push(c[6]);
                d.push(c[7]);
                assert(d@ =~= dashed_date(compact_date(t)));
                return string_from_chars(&d);
            } else {
                let empty: Vec<char> = Vec::new();
                return string_from_chars(&empty);
            }
        }
        i = i + 1;
    }
    proof {
        assert(v@.skip(n as int) =~= Seq::<char>::empty());
    }
    let empty: Vec<char> = Vec::new();
    string_from_chars(&empty)
}

// ---------------------------------------------------------------------------
// Run parameters
// ---------------------------------------------------------------------------

/// The fused run parameters of one program run.
pub struct InitParams {
    pub data_folder: String,
    pub log_folder: String,
    pub output_folder: String,
    pub source_file_name: String,
    pub data_version: String,
    pub data_date: String,
    pub flags: Flags,
}

/// The mathematical value of the run parameters.
#[verifier::ext_equal]
pub struct InitParamsV {
    pub data_folder: Seq<char>,
    pub log_folder: Seq<char>,
    pub output_folder: Seq<char>,
    pub source_file_name: Seq<char>,
    pub data_version: Seq<char>,
    pub data_date: Seq<char>,
    pub flags: Flags,
}

impl View for InitParams {
    type V = InitParamsV;

    open spec fn view(&self) -> InitParamsV {
        InitParamsV {
            data_folder: self.data_folder@,
            log_folder: self.log_folder@,
            output_folder: self.output_folder@,
            source_file_name: self.source_file_name@,
            data_version: self.data_version@,
            data_date: self.data_date@,
            flags: self.flags,
        }
    }
}

/// A source file name is given a `.json` ending when it is long enough and
/// does not have one.
pub open spec fn json_suffixed(s: Seq<char>) -> Seq<char> {
    if s.len() > 5 && s.skip(s.len() - 5) != ".json"@ {
        s + ".json"@
    } else {
        s
    }
}

/// What parameter fusion yields: the configuration file's values, overridden
/// by anything the command line provides; version and date derived from a
/// compliant source file name; and, on an import run, an error naming the
/// first required parameter that no source supplied.
pub open spec fn get_params_spec(
    cli: CliPars,
    doc: Seq<char>,
    data_folder_exists: bool,
) -> Result<InitParamsV, AppErrV> {
    match populate_spec(doc) {
        Err(p) => Err(AppErrV::Config(p.0, p.1)),
        Ok(cfg) => {
            let flags = cli.flags;
            let data_folder = if flags.test_run {
                cli.test_folder@
            } else {
                cfg.folders.data_folder_path
            };
            let good = flags.test_run || data_folder_exists;
            if !good && flags.import_ror {
                Err(AppErrV::MissingParam("data_folder"@))
            } else {
                let log_folder = if cfg.folders.log_folder_path.len() == 0 && good {
                    data_folder
                } else {
                    cfg.folders.log_folder_path
                };
                let output_folder = if cfg.folders.output_folder_path.len() == 0 && good {
                    data_folder
                } else {
                    cfg.folders.output_folder_path
                };
                let sfn0 = if cli.source_file@.len() == 0 {
                    cfg.data_details.src_file_name
                } else {
                    cli.source_file@
                };
                if sfn0.len() == 0 && flags.import_ror {
                    Err(AppErrV::MissingParam("src_file_name"@))
                } else {
                    let sfn = json_suffixed(sfn0);
                    let dv0 = if flags.test_run {
                        "v99"@
                    } else if spec_compliant(sfn) {
                        spec_data_version(sfn)
                    } else {
                        Seq::empty()
                    };
                    let dd0 = if flags.test_run {
                        "2030-01-01"@
                    } else if spec_compliant(sfn) {
                        spec_data_date(sfn)
                    } else {
                        Seq::empty()
                    };
                    if dv0.len() == 0 || dd0.len() == 0 {
                        let dv1 = if cli.data_version@.len() == 0 {
                            cfg.data_details.data_version
                        } else {
                            cli.data_version@
                        };
                        if dv1.len() == 0 && flags.import_ror {
                            Err(AppErrV::MissingParam("data_version"@))
                        } else {
                            let dd1 = if chrono_date_ok(cli.data_date@, "%Y-%m-%d"@) {
                                cli.data_date@
                            } else {
                                Seq::empty()
                            };
                            let dd2 = if dd1.len() == 0 {
                                if chrono_date_ok(cfg.data_details.data_date, "%Y-%m-%d"@) {
                                    cfg.data_details.data_date
                                } else {
                                    Seq::empty()
                                }
                            } else {
                                dd1
                            };
                            if dd2.len() == 0 && flags.import_ror {
                                Err(AppErrV::MissingParam("data_date"@))
                            } else {
                                Ok(
                                    InitParamsV {
                                        data_folder,
                                        log_folder,
                                        output_folder,
                                        source_file_name: sfn,
                                        data_version: dv1,
                                        data_date: dd2,
                                        flags,
                                    },
                                )
                            }
                        }
                    } else {
                        Ok(
                            InitParamsV {
                                data_folder,
                                log_folder,
                                output_folder,
                                source_file_name: sfn,
                                data_version: dv0,
                                data_date: dd0,
                                flags,
                            },
                        )
                    }
                }
            }
        },
    }
}

/// Fuses configuration-file and command-line parameters into the run
/// parameters.  `data_folder_exists` reports whether the configured data
/// folder is present on disk; checking is the caller's business.
pub fn get_params(cli_pars: CliPars, config_string: &String, data_folder_exists: bool) -> (r:
    Result<InitParams, AppError>)
    ensures
        match r {
            Ok(p) => get_params_spec(cli_pars, config_string@, data_folder_exists) == Ok::<
                InitParamsV,
                AppErrV,
            >(p@),
            Err(e) => get_params_spec(cli_pars, config_string@, data_folder_exists) == Err::<
                InitParamsV,
                AppErrV,
            >(e@),
        },
{
    let cfg = match populate_config_vars(config_string) {
        Ok(c) => c,
        Err(e) => {
            return Err(e);
        },
    };
    let flags = cli_pars.flags;
    let data_folder = if flags.test_run {
        cli_pars.test_folder.clone()
    } else {
        cfg.folders.data_folder_path.clone()
    };
    let good = flags.test_run || data_folder_exists;
    if !good && flags.import_ror {
        return Err(AppError::MissingProgramParameter(String::from_str("data_folder")));
    }
    let log_folder = if cfg.folders.log_folder_path.as_str().unicode_len() == 0 && good {
        data_folder.clone()
    } else {
        cfg.folders.log_folder_path.clone()
    };
    let output_folder = if cfg.folders.output_folder_path.as_str().unicode_len() == 0 && good {
        data_folder.clone()
    } else {
        cfg.folders.output_folder_path.clone()
    };
    let sfn0 = if cli_pars.source_file.as_str().unicode_len() == 0 {
        cfg.data_details.src_file_name.clone()
    } else {
        cli_pars.source_file.clone()
    };
    if sfn0.as_str().unicode_len() == 0 && flags.import_ror {
        return Err(AppError::MissingProgramParameter(String::from_str("src_file_name")));
    }
    let sv = chars_of(sfn0.as_str());
    let needs_json = if sv.len() > 5 {
        let mut jv: Vec<char> = Vec::new();
        jv.push('.');
        jv.push('j');
        jv.push('s');
        jv.push('o');
        jv.push('n');
        assert(jv@ =~= ".json"@) by {
            reveal_strlit(".json");
        }
        let hit = matches_at(&sv, &jv, sv.len() - 5);
        proof {
            assert(sv@.subrange(sv@.len() - 5, sv@.len() as int) =~= sv@.skip(sv@.len() - 5));
        }
        !hit
    } else {
        false
    };
    let source_file_name = if needs_json {
        crate::strutil::concat_str(sfn0.as_str(), ".json")
    } else {
        sfn0
    };
    assert(source_file_name@ == json_suffixed(if cli_pars.source_file@.len() == 0 {
        cfg.data_details.src_file_name@
    } else {
        cli_pars.source_file@
    }));
    let mut data_version = String::new();
    let mut data_date = String::new();
    if flags.test_run {
        data_version = String::from_str("v99");
        data_date = String::from_str("2030-01-01");
    } else {
        if is_compliant_file_name(&source_file_name) {
            data_version = get_data_version(source_file_name.as_str());
            data_date = get_data_date(source_file_name.as_str());
        }
    }
    if data_version.as_str().unicode_len() == 0 || data_date.as_str().unicode_len() == 0 {
        data_version = if cli_pars.data_version.as_str().unicode_len() == 0 {
            cfg.data_details.data_version.clone()
        } else {
            cli_pars.data_version.clone()
        };
        if data_version.as_str().unicode_len() == 0 && flags.import_ror {
            return Err(AppError::MissingProgramParameter(String::from_str("data_version")));
        }
        data_date = if naive_date_ok(cli_pars.data_date.as_str(), "%Y-%m-%d") {
            cli_pars.data_date.clone()
        } else {
            String::new()
        };
        if data_date.as_str().unicode_len() == 0 {
            data_date = if naive_date_ok(cfg.data_details.data_date.as_str(), "%Y-%m-%d") {
                cfg.data_details.data_date.clone()
            } else {
                String::new()
            };
            if data_date.as_str().unicode_len() == 0 && flags.import_ror {
                return Err(AppError::MissingProgramParameter(String::from_str("data_date")));
            }
        }
    }
    Ok(
        InitParams {
            data_folder,
            log_folder,
            output_folder,
            source_file_name,
            data_version,
            data_date,
            flags,
        },
    )
}

} // verus!
