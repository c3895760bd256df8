use ror_import::params::{get_data_date, get_data_version, is_compliant_file_name};

#[test]
fn check_file_name_regex_works_1() {
    let test_file_name = "v1.50 2024-12-11.json".to_string();
    assert_eq!(is_compliant_file_name(&test_file_name), true);
    assert_eq!(get_data_version(&test_file_name), "v1.50");
    assert_eq!(get_data_date(&test_file_name), "2024-12-11");
}

#[test]
fn check_file_name_regex_works_2() {
    let test_file_name = "v1.50-2024-12-11.json".to_string();
    assert_eq!(is_compliant_file_name(&test_file_name), true);
    assert_eq!(get_data_version(&test_file_name), "v1.50");
    assert_eq!(get_data_date(&test_file_name), "2024-12-11");
}

#[test]
fn check_file_name_regex_works_3() {
    let test_file_name = "v1.50 20241211.json".to_string();
    assert_eq!(is_compliant_file_name(&test_file_name), true);
    assert_eq!(get_data_version(&test_file_name), "v1.50");
    assert_eq!(get_data_date(&test_file_name), "2024-12-11");
}

#[test]
fn check_file_name_regex_works_4() {
    let test_file_name = "v1.50-20241211.json".to_string();
    assert_eq!(is_compliant_file_name(&test_file_name), true);
    assert_eq!(get_data_version(&test_file_name), "v1.50");
    assert_eq!(get_data_date(&test_file_name), "2024-12-11");
}

#[test]
fn check_file_name_regex_works_5() {
    let test_file_name = "v1.50-2024-1211.json".to_string();
    assert_eq!(is_compliant_file_name(&test_file_name), true);
    assert_eq!(get_data_version(&test_file_name), "v1.50");
    assert_eq!(get_data_date(&test_file_name), "2024-12-11");
}

#[test]
fn check_file_name_regex_works_6() {
    let test_file_name = "v1.59-2025-01-23-ror-data_schema_v2.json".to_string();
    assert_eq!(is_compliant_file_name(&test_file_name), true);
    assert_eq!(get_data_version(&test_file_name), "v1.59");
    assert_eq!(get_data_date(&test_file_name), "2025-01-23");
}

#[test]
fn check_file_name_regex_works_7() {
    let test_file_name = "1.50 2024-12-11.json".to_string();
    assert_eq!(is_compliant_file_name(&test_file_name), false);

    let test_file_name = "v1.50--2024-12-11.json".to_string();
    assert_eq!(is_compliant_file_name(&test_file_name), false);

    let test_file_name = "v1.50  20241211.json".to_string();
    assert_eq!(is_compliant_file_name(&test_file_name), false);

    let test_file_name = "v1.50 20242211.json".to_string();
    assert_eq!(is_compliant_file_name(&test_file_name), false);

    let test_file_name = "v1.50.20241211.json".to_string();
    assert_eq!(is_compliant_file_name(&test_file_name), false);
}

#[test]
fn strip_hyphens_removes_every_hyphen() {
    assert_eq!(ror_import::params::strip_hyphens("2024-12-11"), "20241211");
    assert_eq!(ror_import::params::strip_hyphens("2024-1211"), "20241211");
    assert_eq!(ror_import::params::strip_hyphens("no hyphens"), "no hyphens");
    assert_eq!(ror_import::params::strip_hyphens(""), "");
    assert_eq!(ror_import::params::strip_hyphens("---"), "");
}

#[test]
fn data_date_rejects_impossible_dates() {
    // The date-shaped run is found, but it is not a real date.
    assert_eq!(get_data_date("v1.50 20240231.json"), "");
    // No date-shaped run at all.
    assert_eq!(get_data_date("summary.json"), "");
}
