//! Run parameters: the merge of command-line and environment values, the
//! file-name conventions that carry a data version and date, and the startup
//! report. File and environment access stay with the caller; this module
//! holds the decisions.

use vstd::prelude::*;

verus! {

/// Whether `text` matches `pattern`, taken as false when the pattern does
/// not compile; a function of the two strings alone.
pub uninterp spec fn regex_match_of(pattern: Seq<char>, text: Seq<char>) -> bool;

/// Relies on regex::Regex::new and regex::Regex::is_match: whether `text`
/// matches `pattern`, false when the pattern does not compile.
#[verifier::external_body]
fn regex_is_match(pattern: &str, text: &str) -> (r: bool)
    ensures
        r == regex_match_of(pattern@, text@),
{
    match regex::Regex::new(pattern) {
        Ok(re) => re.is_match(text),
        Err(_) => false,
    }
}

/// The text of the leftmost match of `pattern` in `text`, `None` when there
/// is no match or the pattern does not compile; a function of the two
/// strings alone.
pub uninterp spec fn regex_find_of(pattern: Seq<char>, text: Seq<char>) -> Option<Seq<char>>;

/// Relies on regex::Regex::new and regex::Regex::find: the leftmost match of
/// `pattern` in `text`.
#[verifier::external_body]
fn regex_find(pattern: &str, text: &str) -> (r: Option<String>)
    ensures
        r matches Some(m) ==> regex_find_of(pattern@, text@) == Some(m@),
        r is None ==> regex_find_of(pattern@, text@) is None,
{
    match regex::Regex::new(pattern) {
        Ok(re) => re.find(text).map(|m| m.as_str().to_string()),
        Err(_) => None,
    }
}

/// The normalized `%Y-%m-%d` text of a date given as eight digits
/// (`%Y%m%d`), `None` when `s` is not a valid date in that form; a function
/// of `s` alone.
pub uninterp spec fn date_from_compact_of(s: Seq<char>) -> Option<Seq<char>>;

/// Relies on chrono::NaiveDate::parse_from_str with the `%Y%m%d` format and
/// on NaiveDate's ISO display form.
#[verifier::external_body]
fn date_from_compact(s: &str) -> (r: Option<String>)
    ensures
        r matches Some(d) ==> date_from_compact_of(s@) == Some(d@),
        r is None ==> date_from_compact_of(s@) is None,
{
    match chrono::NaiveDate::parse_from_str(s, "%Y%m%d") {
        Ok(nd) => Some(nd.to_string()),
        Err(_) => None,
    }
}

/// Whether `s` is a valid `%Y-%m-%d` date; a function of `s` alone.
pub uninterp spec fn date_iso_valid(s: Seq<char>) -> bool;

/// Relies on chrono::NaiveDate::parse_from_str with the `%Y-%m-%d` format.
#[verifier::external_body]
fn date_iso_ok(s: &str) -> (r: bool)
    ensures
        r == date_iso_valid(s@),
{
    chrono::NaiveDate::parse_from_str(s, "%Y-%m-%d").is_ok()
}

/// Whether a source file name starts with a version and a date in one of the
/// accepted spellings.
pub fn is_compliant_file_name(input: &str) -> (r: bool)
    ensures
        r == regex_match_of(
            r"^v[0-9]+(\.[0-9]+){0,2}(-| )20[0-9]{2}-?[01][0-9]-?[0-3][0-9]"@,
            input@,
        ),
{
    regex_is_match(r"^v[0-9]+(\.[0-9]+){0,2}(-| )20[0-9]{2}-?[01][0-9]-?[0-3][0-9]", input)
}

/// The version prefix of a file name, empty when there is none.
pub open spec fn spec_data_version(input: Seq<char>) -> Seq<char> {
    match regex_find_of(r"^v[0-9]+(\.[0-9]+){0,2}"@, input) {
        Some(m) => m,
        None => Seq::<char>::empty(),
    }
}

pub fn get_data_version(input: &str) -> (r: String)
    ensures
        r@ == spec_data_version(input@),
{
    match regex_find(r"^v[0-9]+(\.[0-9]+){0,2}", input) {
        Some(m) => m,
        None => String::new(),
    }
}

/// `s` with every hyphen removed.
pub open spec fn spec_strip_hyphens(s: Seq<char>) -> Seq<char>
    decreases s.len(),
{
    if s.len() == 0 {
        s
    } else if s.last() == '-' {
        spec_strip_hyphens(s.drop_last())
    } else {
        spec_strip_hyphens(s.drop_last()).push(s.last())
    }
}

pub fn strip_hyphens(s: &str) -> (r: String)
    ensures
        r@ == spec_strip_hyphens(s@),
{
    let len = s.unicode_len();
    let mut out = String::new();
    let mut i: usize = 0;
    while i < len
        invariant
            len == s@.len(),
            i <= len,
            out@ == spec_strip_hyphens(s@.take(i as int)),
        decreases len - i,
    {
        let c = s.get_char(i);
        proof {
            assert(s@.take(i as int + 1).drop_last() =~= s@.take(i as int));
            assert(s@.take(i as int + 1).last() == s@[i as int]);
        }
        if c != '-' {
            let piece = s.substring_char(i, i + 1);
            let ghost out0 = out@;
            out.append(piece);
            proof {
                assert(piece@ =~= seq![s@[i as int]]);
                assert(out0 + piece@ =~= out0.push(s@[i as int]));
            }
        }
        i += 1;
    }
    proof {
        assert(s@.take(len as int) =~= s@);
    }
    out
}

/// The normalized date carried by a file name: the first date-shaped run of
/// digits and hyphens, hyphens dropped, read as an eight-digit date; empty
/// when there is none or it is not a real date.
pub open spec fn spec_data_date(input: Seq<char>) -> Seq<char> {
    match regex_find_of(r"20[0-9]{2}-?[01][0-9]-?[0-3][0-9]"@, input) {
        Some(m) => match date_from_compact_of(spec_strip_hyphens(m)) {
            Some(d) => d,
            None => Seq::<char>::empty(),
        },
        None => Seq::<char>::empty(),
    }
}

pub fn get_data_date(input: &str) -> (r: String)
    ensures
        r@ == spec_data_date(input@),
{
    match regex_find(r"20[0-9]{2}-?[01][0-9]-?[0-3][0-9]", input) {
        Some(m) => {
            let stripped = strip_hyphens(m.as_str());
            match date_from_compact(stripped.as_str()) {
                Some(d) => d,
                None => String::new(),
            }
        },
        None => String::new(),
    }
}

/// The run's execution flags.
#[derive(Clone, Copy, PartialEq, Eq, Structural, Debug)]
pub struct Flags {
    pub import_ror: bool,
    pub process_data: bool,
    pub export_text: bool,
    pub export_csv: bool,
    pub export_full_csv: bool,
    pub create_lookups: bool,
    pub create_summary: bool,
    pub test_run: bool,
}

/// The flag set that a given collection of command-line switches denotes:
/// the initialisation switch wins and clears the data switches; the
/// all-of-it switch turns on import, processing and text export; with no
/// data switch at all the run defaults to an import.
pub open spec fn spec_resolve_flags(
    arg_r: bool,
    arg_p: bool,
    arg_t: bool,
    arg_x: bool,
    arg_y: bool,
    arg_i: bool,
    arg_a: bool,
    arg_m: bool,
) -> Flags {
    if arg_i {
        Flags {
            import_ror: false,
            process_data: false,
            export_text: false,
            export_csv: false,
            export_full_csv: false,
            create_lookups: true,
            create_summary: true,
            test_run: arg_m,
        }
    } else {
        Flags {
            import_ror: arg_r || arg_a || !(arg_r || arg_p || arg_t || arg_x || arg_y),
            process_data: arg_p || arg_a,
            export_text: arg_t || arg_a,
            export_csv: arg_x,
            export_full_csv: arg_y,
            create_lookups: false,
            create_summary: false,
            test_run: arg_m,
        }
    }
}

pub fn resolve_flags(
    arg_r: bool,
    arg_p: bool,
    arg_t: bool,
    arg_x: bool,
    arg_y: bool,
    arg_i: bool,
    arg_a: bool,
    arg_m: bool,
) -> (f: Flags)
    ensures
        f == spec_resolve_flags(arg_r, arg_p, arg_t, arg_x, arg_y, arg_i, arg_a, arg_m),
{
    if arg_i {
        Flags {
            import_ror: false,
            process_data: false,
            export_text: false,
            export_csv: false,
            export_full_csv: false,
            create_lookups: true,
            create_summary: true,
            test_run: arg_m,
        }
    } else {
        Flags {
            import_ror: arg_r || arg_a || !(arg_r || arg_p || arg_t || arg_x || arg_y),
            process_data: arg_p || arg_a,
            export_text: arg_t || arg_a,
            export_csv: arg_x,
            export_full_csv: arg_y,
            create_lookups: false,
            create_summary: false,
            test_run: arg_m,
        }
    }
}

/// The values read from the command line.
pub struct CliPars {
    pub data_folder: String,
    pub source_file: String,
    pub data_version: String,
    pub data_date: String,
    pub flags: Flags,
}

pub struct CliParsV {
    pub data_folder: Seq<char>,
    pub source_file: Seq<char>,
    pub data_version: Seq<char>,
    pub data_date: Seq<char>,
    pub flags: Flags,
}

impl View for CliPars {
    type V = CliParsV;

    open spec fn view(&self) -> CliParsV {
        CliParsV {
            data_folder: self.data_folder@,
            source_file: self.source_file@,
            data_version: self.data_version@,
            data_date: self.data_date@,
            flags: self.flags,
        }
    }
}

/// The values read from the environment.
pub struct EnvPars {
    pub data_folder: String,
    pub log_folder: String,
    pub output_folder: String,
    pub source_file_name: String,
    pub output_file_name: String,
    pub data_version: String,
    pub data_date: String,
}

pub struct EnvParsV {
    pub data_folder: Seq<char>,
    pub log_folder: Seq<char>,
    pub output_folder: Seq<char>,
    pub source_file_name: Seq<char>,
    pub output_file_name: Seq<char>,
    pub data_version: Seq<char>,
    pub data_date: Seq<char>,
}

impl View for EnvPars {
    type V = EnvParsV;

    open spec fn view(&self) -> EnvParsV {
        EnvParsV {
            data_folder: self.data_folder@,
            log_folder: self.log_folder@,
            output_folder: self.output_folder@,
            source_file_name: self.source_file_name@,
            output_file_name: self.output_file_name@,
            data_version: self.data_version@,
            data_date: self.data_date@,
        }
    }
}

/// The program's resolved parameters.
pub struct InitParams {
    pub data_folder: String,
    pub log_folder: String,
    pub output_folder: String,
    pub source_file_name: String,
    pub output_file_name: String,
    pub data_version: String,
    pub data_date: String,
    pub flags: Flags,
}

pub struct InitParamsV {
    pub data_folder: Seq<char>,
    pub log_folder: Seq<char>,
    pub output_folder: Seq<char>,
    pub source_file_name: Seq<char>,
    pub output_file_name: Seq<char>,
    pub data_version: Seq<char>,
    pub data_date: Seq<char>,
    pub flags: Flags,
}

impl View for InitParams {
    type V = InitParamsV;

    open spec fn view(&self) -> InitParamsV {
        InitParamsV {
            data_folder: self.data_folder@,
            log_folder: self.log_folder@,
            output_folder: self.output_folder@,
            source_file_name: self.source_file_name@,
            output_file_name: self.output_file_name@,
            data_version: self.data_version@,
            data_date: self.data_date@,
            flags: self.flags,
        }
    }
}

/// The data an import run cannot start without.
#[derive(Clone, Copy, PartialEq, Eq, Structural, Debug)]
pub enum ParamError {
    DataFolderMissing,
    SourceFileMissing,
    DataVersionMissing,
    DataDateMissing,
}

} // verus!

verus! {

/// `a` when it is non-empty, else `b`: the command line wins over the
/// environment.
pub open spec fn spec_pick(a: Seq<char>, b: Seq<char>) -> Seq<char> {
    if a.len() > 0 {
        a
    } else {
        b
    }
}

/// The run's output file name: the configured name, or `<version> summary`
/// when none is configured, with the start time and a text extension
/// appended.
pub open spec fn spec_output_name(
    configured: Seq<char>,
    version: Seq<char>,
    datetime: Seq<char>,
) -> Seq<char> {
    (if configured.len() > 0 {
        configured
    } else {
        version + " summary"@
    }) + " at "@ + datetime + ".txt"@
}

/// The merge of command-line and environment values into the run's
/// parameters, the command line taking precedence. An initialisation run
/// ignores the data parameters altogether. An import run fails without an
/// accessible data folder, a source file name, and a data version and date
/// from the file name, the command line or the environment, in that order;
/// for any other run those gaps are tolerated. `data_folder_good` says
/// whether the chosen data folder exists; `datetime` is the start time's
/// display form.
pub open spec fn spec_resolve_params(
    cli: CliParsV,
    env: EnvParsV,
    data_folder_good: bool,
    datetime: Seq<char>,
) -> Result<InitParamsV, ParamError> {
    if cli.flags.create_lookups || cli.flags.create_summary {
        Ok(
            InitParamsV {
                data_folder: Seq::<char>::empty(),
                log_folder: Seq::<char>::empty(),
                output_folder: Seq::<char>::empty(),
                source_file_name: Seq::<char>::empty(),
                output_file_name: Seq::<char>::empty(),
                data_version: Seq::<char>::empty(),
                data_date: Seq::<char>::empty(),
                flags: cli.flags,
            },
        )
    } else {
        let data_folder = spec_pick(cli.data_folder, env.data_folder);
        if !data_folder_good && cli.flags.import_ror {
            Err(ParamError::DataFolderMissing)
        } else {
            let log_folder = if env.log_folder.len() == 0 && data_folder_good {
                data_folder
            } else {
                env.log_folder
            };
            let output_folder = if env.output_folder.len() == 0 && data_folder_good {
                data_folder
            } else {
                env.output_folder
            };
            let source_file_name = spec_pick(cli.source_file, env.source_file_name);
            if source_file_name.len() == 0 && cli.flags.import_ror {
                Err(ParamError::SourceFileMissing)
            } else {
                let from_name = !cli.flags.test_run && regex_match_of(
                    r"^v[0-9]+(\.[0-9]+){0,2}(-| )20[0-9]{2}-?[01][0-9]-?[0-3][0-9]"@,
                    source_file_name,
                );
                let fv = if cli.flags.test_run {
                    "v99"@
                } else if from_name {
                    spec_data_version(source_file_name)
                } else {
                    Seq::<char>::empty()
                };
                let fd = if cli.flags.test_run {
                    "2030-01-01"@
                } else if from_name {
                    spec_data_date(source_file_name)
                } else {
                    Seq::<char>::empty()
                };
                if fv.len() > 0 && fd.len() > 0 {
                    Ok(
                        InitParamsV {
                            data_folder,
                            log_folder,
                            output_folder,
                            source_file_name,
                            output_file_name: spec_output_name(env.output_file_name, fv, datetime),
                            data_version: fv,
                            data_date: fd,
                            flags: cli.flags,
                        },
                    )
                } else {
                    let dv = spec_pick(cli.data_version, env.data_version);
                    if dv.len() == 0 && cli.flags.import_ror {
                        Err(ParamError::DataVersionMissing)
                    } else {
                        let dd = if date_iso_valid(cli.data_date) {
                            cli.data_date
                        } else if date_iso_valid(env.data_date) {
                            env.data_date
                        } else {
                            Seq::<char>::empty()
                        };
                        if dd.len() == 0 && cli.flags.import_ror {
                            Err(ParamError::DataDateMissing)
                        } else {
                            Ok(
                                InitParamsV {
                                    data_folder,
                                    log_folder,
                                    output_folder,
                                    source_file_name,
                                    output_file_name: spec_output_name(
                                        env.output_file_name,
                                        dv,
                                        datetime,
                                    ),
                                    data_version: dv,
                                    data_date: dd,
                                    flags: cli.flags,
                                },
                            )
                        }
                    }
                }
            }
        }
    }
}

fn pick(a: &String, b: &String) -> (r: String)
    ensures
        r@ == spec_pick(a@, b@),
{
    if a.as_str().is_empty() {
        b.clone()
    } else {
        a.clone()
    }
}

fn output_name(configured: &String, version: &String, datetime: &String) -> (r: String)
    ensures
        r@ == spec_output_name(configured@, version@, datetime@),
{
    let base: String = if configured.as_str().is_empty() {
        version.clone().concat(" summary")
    } else {
        configured.clone()
    };
    base.concat(" at ").concat(datetime.as_str()).concat(".txt")
}

/// Resolves the run's parameters as `spec_resolve_params` states, the
/// command line taking precedence over the environment; exactly the listed
/// gaps fail, and only for an import run.
pub fn resolve_params(cli: &CliPars, env: &EnvPars, data_folder_good: bool, datetime: &String) -> (r:
    Result<InitParams, ParamError>)
    ensures
        match r {
            Ok(ip) => spec_resolve_params(cli@, env@, data_folder_good, datetime@) == Ok::<
                InitParamsV,
                ParamError,
            >(ip@),
            Err(e) => spec_resolve_params(cli@, env@, data_folder_good, datetime@) == Err::<
                InitParamsV,
                ParamError,
            >(e),
        },
{
    if cli.flags.create_lookups || cli.flags.create_summary {
        return Ok(InitParams {
            data_folder: String::new(),
            log_folder: String::new(),
            output_folder: String::new(),
            source_file_name: String::new(),
            output_file_name: String::new(),
            data_version: String::new(),
            data_date: String::new(),
            flags: cli.flags,
        });
    }
    let data_folder = pick(&cli.data_folder, &env.data_folder);
    if !data_folder_good && cli.flags.import_ror {
        return Err(ParamError::DataFolderMissing);
    }
    let log_folder = if env.log_folder.as_str().is_empty() && data_folder_good {
        data_folder.clone()
    } else {
        env.log_folder.clone()
    };
    let output_folder = if env.output_folder.as_str().is_empty() && data_folder_good {
        data_folder.clone()
    } else {
        env.output_folder.clone()
    };
    let source_file_name = pick(&cli.source_file, &env.source_file_name);
    if source_file_name.as_str().is_empty() && cli.flags.import_ror {
        return Err(ParamError::SourceFileMissing);
    }
    let (fv, fd): (String, String) = if cli.flags.test_run {
        ("v99".to_owned(), "2030-01-01".to_owned())
    } else if is_compliant_file_name(source_file_name.as_str()) {
        (
            get_data_version(source_file_name.as_str()),
            get_data_date(source_file_name.as_str()),
        )
    } else {
        (String::new(), String::new())
    };
    proof {
        reveal_strlit("v99");
        reveal_strlit("2030-01-01");
    }
    if !fv.as_str().is_empty() && !fd.as_str().is_empty() {
        let output_file_name = output_name(&env.output_file_name, &fv, datetime);
        return Ok(InitParams {
            data_folder,
            log_folder,
            output_folder,
            source_file_name,
            output_file_name,
            data_version: fv,
            data_date: fd,
            flags: cli.flags,
        });
    }
    let dv = pick(&cli.data_version, &env.data_version);
    if dv.as_str().is_empty() && cli.flags.import_ror {
        return Err(ParamError::DataVersionMissing);
    }
    let dd: String = if date_iso_ok(cli.data_date.as_str()) {
        cli.data_date.clone()
    } else if date_iso_ok(env.data_date.as_str()) {
        env.data_date.clone()
    } else {
        String::new()
    };
    if dd.as_str().is_empty() && cli.flags.import_ror {
        return Err(ParamError::DataDateMissing);
    }
    let output_file_name = output_name(&env.output_file_name, &dv, datetime);
    Ok(InitParams {
        data_folder,
        log_folder,
        output_folder,
        source_file_name,
        output_file_name,
        data_version: dv,
        data_date: dd,
        flags: cli.flags,
    })
}

pub open spec fn spec_bool_text(b: bool) -> Seq<char> {
    if b {
        "true"@
    } else {
        "false"@
    }
}

fn bool_text(b: bool) -> (r: String)
    ensures
        r@ == spec_bool_text(b),
{
    if b {
        "true".to_owned()
    } else {
        "false".to_owned()
    }
}

/// The startup report: each parameter as a label and its value, in a fixed
/// order, ready to be logged.
pub open spec fn spec_startup_lines(ip: InitParamsV) -> Seq<(Seq<char>, Seq<char>)> {
    seq![
        ("data_folder"@, ip.data_folder),
        ("log_folder"@, ip.log_folder),
        ("output_folder"@, ip.output_folder),
        ("source_file_name"@, ip.source_file_name),
        ("output_file_name"@, ip.output_file_name),
        ("data_version"@, ip.data_version),
        ("data_date"@, ip.data_date),
        ("create_lookups"@, spec_bool_text(ip.flags.create_lookups)),
        ("create_summary"@, spec_bool_text(ip.flags.create_summary)),
        ("import_ror"@, spec_bool_text(ip.flags.import_ror)),
        ("process_data"@, spec_bool_text(ip.flags.process_data)),
        ("export_text"@, spec_bool_text(ip.flags.export_text)),
    ]
}

/// Reports the resolved parameters as label/value lines for the log.
pub fn log_startup_params(ip: &InitParams) -> (lines: Vec<(String, String)>)
    ensures
        lines.deep_view() == spec_startup_lines(ip@),
{
    let mut lines: Vec<(String, String)> = Vec::new();
    lines.push(("data_folder".to_owned(), ip.data_folder.clone()));
    lines.push(("log_folder".to_owned(), ip.log_folder.clone()));
    lines.push(("output_folder".to_owned(), ip.output_folder.clone()));
    lines.push(("source_file_name".to_owned(), ip.source_file_name.clone()));
    lines.push(("output_file_name".to_owned(), ip.output_file_name.clone()));
    lines.push(("data_version".to_owned(), ip.data_version.clone()));
    lines.push(("data_date".to_owned(), ip.data_date.clone()));
    lines.push(("create_lookups".to_owned(), bool_text(ip.flags.create_lookups)));
    lines.push(("create_summary".to_owned(), bool_text(ip.flags.create_summary)));
    lines.push(("import_ror".to_owned(), bool_text(ip.flags.import_ror)));
    lines.push(("process_data".to_owned(), bool_text(ip.flags.process_data)));
    lines.push(("export_text".to_owned(), bool_text(ip.flags.export_text)));
    proof {
        assert(lines.deep_view() =~= spec_startup_lines(ip@));
    }
    lines
}

} // verus!
