use pma_cli::command::ExportOption;
use pma_cli::error::PmaError;
use pma_cli::export::{check_if_table_exists, data_included, opt_to_config};
use pma_cli::names::{contains_name, unique_names};

fn strings(items: &[&str]) -> Vec<String> {
    items.iter().map(|s| s.to_string()).collect()
}

fn option(all_data: bool, data: Option<&[&str]>, prefix: Option<&str>) -> ExportOption {
    ExportOption {
        db: "shop".to_string(),
        all_data,
        data: data.map(strings),
        data_prefix: prefix.map(|p| p.to_string()),
        output: "./out".to_string(),
        separate_files: true,
    }
}

#[test]
fn unknown_tables_are_all_reported() {
    let r = check_if_table_exists(&strings(&["a", "b"]), &strings(&["a", "c", "d"]));
    match r {
        Err(PmaError::UnknownTable(t)) => assert_eq!(t, strings(&["c", "d"])),
        other => panic!("unexpected: {:?}", other),
    }
}

#[test]
fn known_tables_pass() {
    assert!(check_if_table_exists(&strings(&["a", "b"]), &strings(&["b", "a", "b"])).is_ok());
    assert!(check_if_table_exists(&strings(&["a"]), &[]).is_ok());
    assert!(check_if_table_exists(&[], &[]).is_ok());
}

#[test]
fn unknown_table_repeated_is_reported_each_time() {
    let r = check_if_table_exists(&[], &strings(&["z", "z"]));
    match r {
        Err(PmaError::UnknownTable(t)) => assert_eq!(t, strings(&["z", "z"])),
        other => panic!("unexpected: {:?}", other),
    }
}

#[test]
fn names_are_found_and_deduplicated() {
    assert!(contains_name(&strings(&["a", "b"]), &"b".to_string()));
    assert!(!contains_name(&strings(&["a", "b"]), &"ab".to_string()));
    assert!(!contains_name(&[], &"a".to_string()));
    assert_eq!(unique_names(strings(&["x", "y", "x", "z", "y"])), strings(&["x", "y", "z"]));
    assert_eq!(unique_names(vec![]), Vec::<String>::new());
}

#[test]
fn all_data_wins_over_everything() {
    let o = option(true, Some(&["a"]), Some("zz"));
    assert!(data_included(&o, &"b".to_string()));
}

#[test]
fn explicit_list_wins_over_prefix() {
    let o = option(false, Some(&["a"]), Some("b"));
    assert!(data_included(&o, &"a".to_string()));
    assert!(!data_included(&o, &"b".to_string()));
}

#[test]
fn prefix_decides_when_no_list() {
    let o = option(false, None, Some("log_"));
    assert!(data_included(&o, &"log_2024".to_string()));
    assert!(data_included(&o, &"log_".to_string()));
    assert!(!data_included(&o, &"log".to_string()));
    assert!(!data_included(&o, &"xlog_1".to_string()));
}

#[test]
fn no_policy_means_structure_only() {
    let o = option(false, None, None);
    assert!(!data_included(&o, &"a".to_string()));
}

#[test]
fn config_selects_every_table_with_structure() {
    let config = opt_to_config(strings(&["users", "log_a", "log_b"]), option(false, None, Some("log_")))
        .unwrap();
    assert_eq!(config.output_path, "./out");
    assert_eq!(config.pma.db, "shop");
    assert!(config.pma.separate_files);
    assert!(!config.pma.create_database);
    let got: Vec<(String, bool, bool)> =
        config.pma.tables.iter().map(|t| (t.name.clone(), t.structure, t.data)).collect();
    assert_eq!(
        got,
        vec![
            ("users".to_string(), true, false),
            ("log_a".to_string(), true, true),
            ("log_b".to_string(), true, true),
        ]
    );
}

#[test]
fn config_with_explicit_data_list() {
    let config = opt_to_config(strings(&["a", "b", "c"]), option(false, Some(&["c", "a"]), None))
        .unwrap();
    let got: Vec<(String, bool, bool)> =
        config.pma.tables.iter().map(|t| (t.name.clone(), t.structure, t.data)).collect();
    assert_eq!(
        got,
        vec![
            ("a".to_string(), true, true),
            ("b".to_string(), true, false),
            ("c".to_string(), true, true),
        ]
    );
}

#[test]
fn config_rejects_unknown_data_tables() {
    let r = opt_to_config(strings(&["a", "b"]), option(false, Some(&["a", "c", "d"]), None));
    match r {
        Err(PmaError::UnknownTable(t)) => assert_eq!(t, strings(&["c", "d"])),
        other => panic!("unexpected: {:?}", other),
    }
}

#[test]
fn config_of_empty_database_is_empty() {
    let config = opt_to_config(vec![], option(true, None, None)).unwrap();
    assert!(config.pma.tables.is_empty());
}
