use pma_cli::error::{decimal_string, PmaError};
use pma_cli::pma_client::{
    filter_tables, session_from_captures, ExportPayload, PMAClient, PMAConfig, PMAExportConfig,
    Table,
};

fn client() -> PMAClient {
    PMAClient::new(PMAConfig { url: "http://db.local/pma".to_string(), lang: "ja".to_string() })
}

fn table(name: &str, structure: bool, data: bool) -> Table {
    Table { name: name.to_string(), structure, data }
}

fn config(tables: Vec<Table>, separate_files: bool, create_database: bool) -> PMAExportConfig {
    PMAExportConfig { db: "shop".to_string(), tables, separate_files, create_database }
}

fn owned(pairs: &[(&str, String)]) -> Vec<(String, String)> {
    pairs.iter().map(|(k, v)| (k.to_string(), v.clone())).collect()
}

fn pair(k: &str, v: &str) -> (String, String) {
    (k.to_string(), v.to_string())
}

#[test]
fn tables_are_listed_once_in_first_seen_order() {
    let body = "<a href=\"sql.php?db=d&table=x&pos=0\">x</a> table=y&amp; table=x& table=long_name&";
    assert_eq!(client().fetch_tables(body), vec!["x", "y", "long_name"]);
}

#[test]
fn listing_without_tables_is_empty() {
    assert!(client().fetch_tables("<html>table=&</html>").is_empty());
    assert!(client().fetch_tables("").is_empty());
}

#[test]
fn token_and_cookie_are_extracted() {
    let header = "phpMyAdmin=abc123DEF; path=/; HttpOnly";
    let body = "<script>var x = {lang:\"ja\",token:\"0af3b\",server:\"1\"};</script>";
    let (token, cookie) = client().fetch_token(Some(header), body).unwrap();
    assert_eq!(token, "0af3b");
    assert_eq!(cookie, "abc123DEF");
}

#[test]
fn missing_cookie_or_token_is_auth_error() {
    let header = "phpMyAdmin=abc; path=/";
    let body = "token:\"t1\",";
    assert!(matches!(client().fetch_token(None, body), Err(PmaError::AuthExtraction)));
    assert!(matches!(
        client().fetch_token(Some("other=abc;"), body),
        Err(PmaError::AuthExtraction)
    ));
    assert!(matches!(
        client().fetch_token(Some(header), "no token here"),
        Err(PmaError::AuthExtraction)
    ));
    assert!(matches!(
        client().fetch_token(Some("phpMyAdmin=;"), body),
        Err(PmaError::AuthExtraction)
    ));
    let (token, _) = client().fetch_token(Some(header), "token:\"\",").unwrap();
    assert_eq!(token, "");
}

#[test]
fn session_needs_both_captures() {
    let r = session_from_captures(Some("c".to_string()), Some("t".to_string()));
    assert_eq!(r.unwrap(), ("t".to_string(), "c".to_string()));
    assert!(matches!(
        session_from_captures(None, Some("t".to_string())),
        Err(PmaError::AuthExtraction)
    ));
    assert!(matches!(
        session_from_captures(Some("c".to_string()), None),
        Err(PmaError::AuthExtraction)
    ));
    assert!(matches!(session_from_captures(None, None), Err(PmaError::AuthExtraction)));
}

#[test]
fn request_addresses_and_cookies() {
    let c = client();
    assert_eq!(c.lang_cookie(), "pma_lang=ja");
    assert_eq!(c.structure_url(), "http://db.local/pma/db_structure.php");
    assert_eq!(c.export_url(), "http://db.local/pma/export.php");
}

#[test]
fn export_of_empty_database_is_refused() {
    let r = client().export("tok", "sess", config(vec![table("a", true, true)], false, false), &[]);
    match r {
        Err(PmaError::ExportTargetEmpty(db)) => assert_eq!(db, "shop"),
        _ => panic!("an empty database must be refused"),
    }
}

#[test]
fn export_request_is_complete() {
    let tables = vec!["a".to_string()];
    let r = client()
        .export("tok", "sess", config(vec![table("a", true, false)], true, false), &tables)
        .unwrap();
    assert_eq!(r.url, "http://db.local/pma/export.php");
    assert_eq!(r.cookie, "phpMyAdmin=sess");
    assert_eq!(r.accept_encoding, "gzip, deflate, br");
    assert_eq!(r.form.len(), 30 + 3 + 2);
    assert_eq!(owned(&r.form[30..]), vec![
        pair("db", "shop"),
        pair("token", "tok"),
        pair("as_separate_files", "database"),
        pair("table_select[]", "a"),
        pair("table_structure[]", "a"),
    ]);
}

#[test]
fn default_payload_has_the_fixed_fields() {
    let form = owned(&ExportPayload::default().form());
    assert_eq!(form.len(), 30);
    assert_eq!(form[0], pair("export_type", "database"));
    assert_eq!(form[4], pair("what", "sql"));
    assert_eq!(form[10], pair("charset", "utf-8"));
    assert_eq!(form[11], pair("compression", "zip"));
    assert_eq!(form[17], pair("sql_structure_or_data", "structure_and_data"));
    assert_eq!(form[24], pair("sql_type", "INSERT"));
    assert_eq!(form[26], pair("sql_max_query_size", "50000"));
    assert_eq!(form[29], pair("knjenc", ""));
}

#[test]
fn payload_lists_tables_by_selection() {
    let tables = vec![table("a", true, true), table("b", false, false), table("c", false, true)];
    let form = owned(&ExportPayload::new("tok", config(tables, false, true)).form());
    assert_eq!(form[30..].to_vec(), vec![
        pair("db", "shop"),
        pair("token", "tok"),
        pair("sql_create_database", "something"),
        pair("table_select[]", "a"),
        pair("table_structure[]", "a"),
        pair("table_data[]", "a"),
        pair("table_select[]", "c"),
        pair("table_data[]", "c"),
    ]);
}

#[test]
fn payload_extend_appends_in_order() {
    let mut payload = ExportPayload(vec![("k0", "v0".to_string())]);
    payload.extend(&[("k1", "v1".to_string()), ("k2", "v2".to_string())]);
    payload.push_field("k3", "v3");
    payload.extend(&[]);
    assert_eq!(owned(&payload.form()), vec![
        pair("k0", "v0"),
        pair("k1", "v1"),
        pair("k2", "v2"),
        pair("k3", "v3"),
    ]);
}

#[test]
fn tables_are_filtered_by_pattern() {
    let tables: Vec<String> = ["users", "log_a", "orders", "log_b"].iter().map(|s| s.to_string()).collect();
    assert_eq!(filter_tables(&tables, "^log_").unwrap(), vec!["log_a", "log_b"]);
    assert_eq!(filter_tables(&tables, "er").unwrap(), vec!["users", "orders"]);
    assert!(filter_tables(&tables, "^nothing$").unwrap().is_empty());
    assert!(filter_tables(&[], ".*").unwrap().is_empty());
}

#[test]
fn invalid_filter_is_reported() {
    let tables = vec!["users".to_string()];
    match filter_tables(&tables, "(") {
        Err(PmaError::InvalidFilter(p)) => assert_eq!(p, "("),
        _ => panic!("an invalid filter must be reported"),
    }
    assert_eq!(
        PmaError::InvalidFilter("(".to_string()).message(),
        "the table filter is no regular expression: ("
    );
}

#[test]
fn messages_name_the_failure() {
    let unknown = PmaError::UnknownTable(vec!["c".to_string(), "d".to_string()]);
    assert_eq!(unknown.message(), "Not Found table. c,d");
    assert_eq!(PmaError::UnknownTable(vec!["c".to_string()]).message(), "Not Found table. c");
    assert_eq!(PmaError::ExportTargetEmpty("shop".to_string()).message(), "Not found tables in 'shop'");
    assert_eq!(PmaError::UnsupportedCompression(0).message(), "unsupported compression method: 0");
    assert_eq!(PmaError::UnsupportedCompression(12).message(), "unsupported compression method: 12");
    assert_eq!(
        PmaError::AuthExtraction.message(),
        "cannot get the token or the session cookie from the response."
    );
    assert_eq!(PmaError::TruncatedArchive.message(), "the archive ends in the middle of an entry.");
    assert_eq!(PmaError::CorruptArchive.message(), "the compressed data cannot be decoded.");
}

#[test]
fn numbers_are_written_in_decimal() {
    assert_eq!(decimal_string(0), "0");
    assert_eq!(decimal_string(7), "7");
    assert_eq!(decimal_string(10), "10");
    assert_eq!(decimal_string(1234), "1234");
    assert_eq!(decimal_string(65535), "65535");
}
