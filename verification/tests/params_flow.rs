use ror_import::params::{
    log_startup_params, resolve_flags, resolve_params, CliPars, EnvPars, Flags, ParamError,
};

fn flags_default() -> Flags {
    resolve_flags(false, false, false, false, false, false, false, false)
}

fn cli(data_folder: &str, source_file: &str, version: &str, date: &str, flags: Flags) -> CliPars {
    CliPars {
        data_folder: data_folder.to_string(),
        source_file: source_file.to_string(),
        data_version: version.to_string(),
        data_date: date.to_string(),
        flags,
    }
}

fn env(
    data_folder: &str,
    log_folder: &str,
    output_folder: &str,
    source_file_name: &str,
    output_file_name: &str,
    version: &str,
    date: &str,
) -> EnvPars {
    EnvPars {
        data_folder: data_folder.to_string(),
        log_folder: log_folder.to_string(),
        output_folder: output_folder.to_string(),
        source_file_name: source_file_name.to_string(),
        output_file_name: output_file_name.to_string(),
        data_version: version.to_string(),
        data_date: date.to_string(),
    }
}

#[test]
fn no_switches_default_to_an_import_run() {
    let f = flags_default();
    assert!(f.import_ror);
    assert!(!f.process_data);
    assert!(!f.export_text);
    assert!(!f.create_lookups);
    assert!(!f.create_summary);
}

#[test]
fn init_switch_wins_and_clears_data_switches() {
    let f = resolve_flags(true, true, false, false, false, true, false, false);
    assert!(!f.import_ror);
    assert!(!f.process_data);
    assert!(!f.export_text);
    assert!(f.create_lookups);
    assert!(f.create_summary);
}

#[test]
fn all_switch_turns_on_import_process_and_text() {
    let f = resolve_flags(false, false, false, false, false, false, true, false);
    assert!(f.import_ror);
    assert!(f.process_data);
    assert!(f.export_text);
    assert!(!f.export_csv);
}

#[test]
fn env_values_fill_blank_cli_values() {
    let c = cli("", "", "", "", flags_default());
    let e = env(
        "E:/ROR/data",
        "E:/ROR/logs",
        "E:/ROR/outputs",
        "v1.58 20241211.json",
        "results 25.json",
        "v1.60",
        "2025-12-11",
    );
    let ip = resolve_params(&c, &e, true, &"10-12 103000".to_string()).unwrap();
    assert_eq!(ip.data_folder, "E:/ROR/data");
    assert_eq!(ip.log_folder, "E:/ROR/logs");
    assert_eq!(ip.output_folder, "E:/ROR/outputs");
    assert_eq!(ip.source_file_name, "v1.58 20241211.json");
    // The compliant file name wins over the configured version and date.
    assert_eq!(ip.data_version, "v1.58");
    assert_eq!(ip.data_date, "2024-12-11");
    assert_eq!(ip.output_file_name, "results 25.json at 10-12 103000.txt");
}

#[test]
fn cli_values_overwrite_env_values() {
    let c = cli(
        "E:/ROR/data",
        "schema2 data.json",
        "v1.60",
        "2026-12-25",
        resolve_flags(true, true, true, true, false, false, false, false),
    );
    let e = env(
        "E:/ROR/20241211 1.58 data",
        "E:/ROR/logs",
        "E:/ROR/outputs",
        "v1.58 20241211.json",
        "results 27.json",
        "v1.59",
        "2025-12-11",
    );
    let ip = resolve_params(&c, &e, true, &"10-12 103000".to_string()).unwrap();
    assert_eq!(ip.data_folder, "E:/ROR/data");
    // The chosen file name is not compliant, so the command line supplies
    // version and date.
    assert_eq!(ip.source_file_name, "schema2 data.json");
    assert_eq!(ip.data_version, "v1.60");
    assert_eq!(ip.data_date, "2026-12-25");
    assert_eq!(ip.output_file_name, "results 27.json at 10-12 103000.txt");
}

#[test]
fn init_run_ignores_data_parameters() {
    let c = cli(
        "E:/ROR/data",
        "whatever.json",
        "v1.60",
        "2026-12-25",
        resolve_flags(true, true, false, false, false, true, false, false),
    );
    let e = env("a", "b", "c", "d", "e", "f", "g");
    let ip = resolve_params(&c, &e, true, &"now".to_string()).unwrap();
    assert_eq!(ip.data_folder, "");
    assert_eq!(ip.log_folder, "");
    assert_eq!(ip.output_folder, "");
    assert_eq!(ip.source_file_name, "");
    assert_eq!(ip.output_file_name, "");
    assert_eq!(ip.data_version, "");
    assert_eq!(ip.data_date, "");
    assert!(ip.flags.create_lookups);
}

#[test]
fn missing_data_folder_fails_only_an_import_run() {
    let c = cli("", "f.json", "v1", "2024-12-11", flags_default());
    let e = env("E:/ROR/data", "", "", "", "", "", "");
    assert!(matches!(
        resolve_params(&c, &e, false, &"now".to_string()),
        Err(ParamError::DataFolderMissing)
    ));

    let mut no_import = flags_default();
    no_import.import_ror = false;
    no_import.process_data = true;
    let c2 = cli("", "f.json", "v1", "2024-12-11", no_import);
    assert!(resolve_params(&c2, &e, false, &"now".to_string()).is_ok());
}

#[test]
fn missing_source_file_fails_an_import_run() {
    let c = cli("E:/ROR/data", "", "v1", "2024-12-11", flags_default());
    let e = env("", "", "", "", "", "", "");
    assert!(matches!(
        resolve_params(&c, &e, true, &"now".to_string()),
        Err(ParamError::SourceFileMissing)
    ));
}

#[test]
fn missing_version_and_bad_date_fail_an_import_run() {
    let e = env("", "", "", "", "", "", "");
    let c = cli("E:/ROR/data", "plain.json", "", "2024-12-11", flags_default());
    assert!(matches!(
        resolve_params(&c, &e, true, &"now".to_string()),
        Err(ParamError::DataVersionMissing)
    ));

    // A version is given but the date is not a real calendar date.
    let c = cli("E:/ROR/data", "plain.json", "v1.50", "2024-13-11", flags_default());
    assert!(matches!(
        resolve_params(&c, &e, true, &"now".to_string()),
        Err(ParamError::DataDateMissing)
    ));
}

#[test]
fn test_run_uses_placeholder_version_and_date() {
    let c = cli(
        "E:/ROR/data",
        "plain.json",
        "",
        "",
        resolve_flags(true, false, false, false, false, false, false, true),
    );
    let e = env("", "", "", "", "", "", "");
    let ip = resolve_params(&c, &e, true, &"now".to_string()).unwrap();
    assert_eq!(ip.data_version, "v99");
    assert_eq!(ip.data_date, "2030-01-01");
    // No configured output name: it is derived from the version.
    assert_eq!(ip.output_file_name, "v99 summary at now.txt");
}

#[test]
fn startup_report_lists_every_parameter() {
    let c = cli("E:/ROR/data", "v1.50 20241211.json", "", "", flags_default());
    let e = env("", "E:/ROR/logs", "E:/ROR/outputs", "", "results.json", "", "");
    let ip = resolve_params(&c, &e, true, &"now".to_string()).unwrap();
    let lines = log_startup_params(&ip);
    assert_eq!(lines.len(), 12);
    assert_eq!(lines[0], ("data_folder".to_string(), "E:/ROR/data".to_string()));
    assert_eq!(lines[1], ("log_folder".to_string(), "E:/ROR/logs".to_string()));
    assert_eq!(lines[5], ("data_version".to_string(), "v1.50".to_string()));
    assert_eq!(lines[6], ("data_date".to_string(), "2024-12-11".to_string()));
    assert_eq!(lines[9], ("import_ror".to_string(), "true".to_string()));
    assert_eq!(lines[10], ("process_data".to_string(), "false".to_string()));
}
