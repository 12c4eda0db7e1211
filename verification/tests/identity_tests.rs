use nodedb_studio::identity::{ProbeResult, parse_databases, parse_identity};

fn s(text: &str) -> Option<String> {
    Some(text.to_string())
}

fn result(columns: &[&str], rows: Vec<Vec<Option<String>>>) -> ProbeResult {
    ProbeResult { columns: columns.iter().map(|c| c.to_string()).collect(), rows }
}

#[test]
fn identity_parse_full_row() {
    let who = result(
        &["current_user", "current_role", "current_database"],
        vec![vec![s("root"), s("admin"), s("analytics")]],
    );
    let id = parse_identity(Some(&who), Some("alice"), "conn", "mydb");
    assert_eq!(id.user, "root");
    assert_eq!(id.role, "admin");
    assert_eq!(id.current_database, "analytics");
}

#[test]
fn identity_parse_missing_columns_uses_fallbacks() {
    let empty = result(&[], vec![]);
    let id = parse_identity(Some(&empty), Some("alice"), "conn", "mydb");
    assert_eq!(id.user, "alice");
    assert_eq!(id.role, "");
    assert_eq!(id.current_database, "mydb");
}

#[test]
fn identity_parse_no_form_user_falls_back_to_name() {
    let empty = result(&[], vec![]);
    let id = parse_identity(Some(&empty), None, "prod", "mydb");
    assert_eq!(id.user, "prod");
}

#[test]
fn databases_parse_from_show_databases() {
    let dbs = result(&["name"], vec![vec![s("a")], vec![s("b")]]);
    assert_eq!(parse_databases(Some(&dbs), "fallback"), vec!["a", "b"]);

    let empty = result(&["name"], vec![]);
    assert_eq!(parse_databases(Some(&empty), "cur"), vec!["cur"]);
    assert_eq!(parse_databases(None, "cur"), vec!["cur"]);
}

#[test]
fn identity_cells_are_trimmed_and_blank_cells_fall_back() {
    let who = result(
        &["current_role", "current_user", "current_database"],
        vec![vec![s("  admin\t"), s("   "), None]],
    );
    let id = parse_identity(Some(&who), Some("  bob  "), "conn", "mydb");
    assert_eq!(id.user, "bob");
    assert_eq!(id.role, "admin");
    assert_eq!(id.current_database, "mydb");
}

#[test]
fn identity_short_row_and_blank_form_user_fall_back_to_name() {
    let who = result(&["current_user", "current_role"], vec![vec![]]);
    let id = parse_identity(Some(&who), Some("   "), "prod", "mydb");
    assert_eq!(id.user, "prod");
    assert_eq!(id.role, "");
    let none = parse_identity(None, None, "prod", "mydb");
    assert_eq!(none.user, "prod");
    assert_eq!(none.current_database, "mydb");
}

#[test]
fn identity_reads_only_the_first_row_and_first_matching_column() {
    let who = result(
        &["current_user", "current_user"],
        vec![vec![s("first"), s("second")], vec![s("other"), s("x")]],
    );
    let id = parse_identity(Some(&who), None, "conn", "db");
    assert_eq!(id.user, "first");
}

#[test]
fn databases_skip_blank_and_non_text_cells() {
    let dbs = result(&["name"], vec![vec![s(" a ")], vec![None], vec![s("  ")], vec![], vec![s("b")]]);
    assert_eq!(parse_databases(Some(&dbs), "cur"), vec!["a", "b"]);
    let only_blank = result(&["name"], vec![vec![s(" ")]]);
    assert_eq!(parse_databases(Some(&only_blank), "cur"), vec!["cur"]);
}
