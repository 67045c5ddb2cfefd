use crate::error::{PmaError, PmaErrorView};
use crate::names::{first_occurrences, names, unique_names};
use regex::Regex;
use vstd::prelude::*;
use vstd::string::StringExecFns;

verus! {

/// Pattern of the token in the console's landing page.
pub const TOKEN_PATTERN: &'static str = "token:\"(([[:alpha:]]|\\d|)+)\",";

/// Pattern of the session identifier in the session-cookie header.
pub const COOKIE_PATTERN: &'static str = "phpMyAdmin=(([[:alpha:]]|\\d)+);";

/// Pattern of a table name in the structure listing.
pub const TABLE_PATTERN: &'static str = "table=(([[:alpha:]]|_)+)&";

/// Transport encodings that the export request accepts.
pub const ACCEPT_ENCODING: &'static str = "gzip, deflate, br";

/// What to export: the database, the selection for each table, and the two
/// options of the request.
#[derive(Debug)]
pub struct PMAExportConfig {
    pub db: String,
    pub tables: Vec<Table>,
    pub separate_files: bool,
    pub create_database: bool,
}

/// One table of the export and what is exported of it.
#[derive(Debug)]
pub struct Table {
    pub name: String,
    pub structure: bool,
    pub data: bool,
}

/// Where the console is and in which language it answers.
pub struct PMAConfig {
    pub url: String,
    pub lang: String,
}

/// Mathematical value of a `Table`.
pub ghost struct TableView {
    pub name: Seq<char>,
    pub structure: bool,
    pub data: bool,
}

/// Mathematical value of a `PMAExportConfig`.
pub ghost struct PMAExportConfigView {
    pub db: Seq<char>,
    pub tables: Seq<TableView>,
    pub separate_files: bool,
    pub create_database: bool,
}

impl View for Table {
    type V = TableView;

    open spec fn view(&self) -> TableView {
        TableView { name: self.name@, structure: self.structure, data: self.data }
    }
}

impl View for PMAExportConfig {
    type V = PMAExportConfigView;

    open spec fn view(&self) -> PMAExportConfigView {
        PMAExportConfigView {
            db: self.db@,
            tables: Seq::new(self.tables@.len(), |i: int| self.tables@[i]@),
            separate_files: self.separate_files,
            create_database: self.create_database,
        }
    }
}

/// One form field: its key and its value.
pub type Field = (Seq<char>, Seq<char>);

/// The fields of a list of pairs, in order.
pub open spec fn pairs_view<'a>(v: Seq<(&'a str, String)>) -> Seq<Field> {
    Seq::new(v.len(), |i: int| (v[i].0@, v[i].1@))
}

/// The fixed fields that describe the export format.
pub open spec fn default_fields() -> Seq<Field> {
    Seq::<Field>::empty().push(("export_type"@, "database"@)).push(
        ("export_method"@, "quick"@),
    ).push(("template_id"@, ""@)).push(("quick_or_custom"@, "custom"@)).push(
        ("what"@, "sql"@),
    ).push(("structure_or_data_forced"@, "0"@)).push(("aliases_new"@, ""@)).push(
        ("output_format"@, "sendit"@),
    ).push(("filename_template"@, "@DATABASE@"@)).push(("remember_template"@, "on"@)).push(
        ("charset"@, "utf-8"@),
    ).push(("compression"@, "zip"@)).push(("maxsize"@, ""@)).push(
        ("sql_include_comments"@, "something"@),
    ).push(("sql_header_comment"@, ""@)).push(("sql_use_transaction"@, "something"@)).push(
        ("sql_compatibility"@, "NONE"@),
    ).push(("sql_structure_or_data"@, "structure_and_data"@)).push(
        ("sql_create_table"@, "something"@),
    ).push(("sql_drop_table"@, "something"@)).push(("sql_auto_increment"@, "something"@)).push(
        ("sql_create_view"@, "something"@),
    ).push(("sql_create_trigger"@, "something"@)).push(("sql_backquotes"@, "something"@)).push(
        ("sql_type"@, "INSERT"@),
    ).push(("sql_insert_syntax"@, "both"@)).push(("sql_max_query_size"@, "50000"@)).push(
        ("sql_hex_for_binary"@, "something"@),
    ).push(("sql_utc_time"@, "something"@)).push(("knjenc"@, ""@))
}

/// The fields of one table: none where neither structure nor data is
/// selected; else the selection, then a field for each of the two that is.
pub open spec fn table_fields(t: TableView) -> Seq<Field> {
    if !(t.structure || t.data) {
        Seq::empty()
    } else {
        seq![("table_select[]"@, t.name)] + (if t.structure {
            seq![("table_structure[]"@, t.name)]
        } else {
            Seq::empty()
        }) + (if t.data {
            seq![("table_data[]"@, t.name)]
        } else {
            Seq::empty()
        })
    }
}

/// The fields of all tables, table after table.
pub open spec fn tables_fields(ts: Seq<TableView>) -> Seq<Field>
    decreases ts.len(),
{
    if ts.len() == 0 {
        Seq::empty()
    } else {
        tables_fields(ts.drop_last()) + table_fields(ts.last())
    }
}

/// The fields that depend on the request: database, token, and the two
/// markers where they are set.
pub open spec fn request_fields(token: Seq<char>, config: PMAExportConfigView) -> Seq<Field> {
    seq![("db"@, config.db), ("token"@, token)] + (if config.separate_files {
        seq![("as_separate_files"@, "database"@)]
    } else {
        Seq::empty()
    }) + (if config.create_database {
        seq![("sql_create_database"@, "something"@)]
    } else {
        Seq::empty()
    })
}

/// The whole form of an export request.
pub open spec fn form_fields(token: Seq<char>, config: PMAExportConfigView) -> Seq<Field> {
    default_fields() + request_fields(token, config) + tables_fields(config.tables)
}

/// The form of an export request, field by field, in the order sent.
pub struct ExportPayload<'a>(pub Vec<(&'a str, String)>);

impl<'a> View for ExportPayload<'a> {
    type V = Seq<Field>;

    open spec fn view(&self) -> Seq<Field> {
        pairs_view(self.0@)
    }
}

impl<'a> ExportPayload<'a> {
    /// Appends one field.
    pub fn push_field(&mut self, key: &'a str, value: &str)
        ensures
            final(self)@ == old(self)@.push((key@, value@)),
    {
        let owned = value.to_owned();
        assert(pairs_view(self.0@.push((key, owned))) =~= pairs_view(self.0@).push(
            (key@, value@),
        ));
        self.0.push((key, owned));
    }

    /// Appends `pairs`, in order.
    pub fn extend(&mut self, pairs: &[(&'a str, String)])
        ensures
            final(self)@ == old(self)@ + pairs_view(pairs@),
    {
        let mut i: usize = 0;
        assert(self@ =~= old(self)@ + pairs_view(pairs@).take(0));
        while i < pairs.len()
            invariant
                i <= pairs@.len(),
                self@ == old(self)@ + pairs_view(pairs@).take(i as int),
            decreases pairs@.len() - i,
        {
            let key = pairs[i].0;
            self.push_field(key, pairs[i].1.as_str());
            i += 1;
            assert(self@ =~= old(self)@ + pairs_view(pairs@).take(i as int));
        }
        assert(pairs_view(pairs@).take(i as int) =~= pairs_view(pairs@));
    }

    /// The fields, as the list to send.
    pub fn form(self) -> (r: Vec<(&'a str, String)>)
        ensures
            r == self.0,
            pairs_view(r@) == self@,
    {
        self.0
    }

    /// The form for exporting `config` under the session's `token`: the fixed
    /// fields, then the request's own, then those of each table.
    pub fn new(token: &str, config: PMAExportConfig) -> (r: Self)
        ensures
            r@ == form_fields(token@, config@),
    {
        let mut payload = ExportPayload::default();
        payload.push_field("db", config.db.as_str());
        payload.push_field("token", token);
        if config.separate_files {
            payload.push_field("as_separate_files", "database");
        }
        if config.create_database {
            payload.push_field("sql_create_database", "something");
        }
        assert(payload@ =~= default_fields() + request_fields(token@, config@));
        let mut i: usize = 0;
        assert(config@.tables.take(0) =~= Seq::empty());
        assert(payload@ =~= default_fields() + request_fields(token@, config@) + tables_fields(
            config@.tables.take(0),
        ));
        while i < config.tables.len()
            invariant
                i <= config.tables@.len(),
                payload@ == default_fields() + request_fields(token@, config@) + tables_fields(
                    config@.tables.take(i as int),
                ),
            decreases config.tables@.len() - i,
        {
            let ghost before = payload@;
            let t = &config.tables[i];
            if t.structure || t.data {
                payload.push_field("table_select[]", t.name.as_str());
                if t.structure {
                    payload.push_field("table_structure[]", t.name.as_str());
                }
                if t.data {
                    payload.push_field("table_data[]", t.name.as_str());
                }
            }
            proof {
                let upto = config@.tables.take(i + 1);
                assert(upto.drop_last() =~= config@.tables.take(i as int));
                assert(upto.last() == t@);
                assert(payload@ =~= before + table_fields(t@));
                assert(payload@ =~= default_fields() + request_fields(token@, config@)
                    + tables_fields(upto));
            }
            i += 1;
        }
        assert(config@.tables.take(i as int) =~= config@.tables);
        payload
    }
}

impl<'a> Default for ExportPayload<'a> {
    fn default() -> (r: Self)
        ensures
            r@ == default_fields(),
    {
        let mut payload = ExportPayload(Vec::new());
        assert(payload@ =~= Seq::<Field>::empty());
        payload.push_field("export_type", "database");
        payload.push_field("export_method", "quick");
        payload.push_field("template_id", "");
        payload.push_field("quick_or_custom", "custom");
        payload.push_field("what", "sql");
        payload.push_field("structure_or_data_forced", "0");
        payload.push_field("aliases_new", "");
        payload.push_field("output_format", "sendit");
        payload.push_field("filename_template", "@DATABASE@");
        payload.push_field("remember_template", "on");
        payload.push_field("charset", "utf-8");
        payload.push_field("compression", "zip");
        payload.push_field("maxsize", "");
        payload.push_field("sql_include_comments", "something");
        payload.push_field("sql_header_comment", "");
        payload.push_field("sql_use_transaction", "something");
        payload.push_field("sql_compatibility", "NONE");
        payload.push_field("sql_structure_or_data", "structure_and_data");
        payload.push_field("sql_create_table", "something");
        payload.push_field("sql_drop_table", "something");
        payload.push_field("sql_auto_increment", "something");
        payload.push_field("sql_create_view", "something");
        payload.push_field("sql_create_trigger", "something");
        payload.push_field("sql_backquotes", "something");
        payload.push_field("sql_type", "INSERT");
        payload.push_field("sql_insert_syntax", "both");
        payload.push_field("sql_max_query_size", "50000");
        payload.push_field("sql_hex_for_binary", "something");
        payload.push_field("sql_utc_time", "something");
        payload.push_field("knjenc", "");
        payload
    }
}

/// The first capture group of the leftmost match of `pattern` in `text`;
/// `None` where nothing matches, where the group takes no part in the match,
/// or where `pattern` is no regular expression.
pub uninterp spec fn first_capture(pattern: Seq<char>, text: Seq<char>) -> Option<Seq<char>>;

/// The first capture group of each match of `pattern` in `text` in which the
/// group takes part, the matches taken from left to right without overlap;
/// empty where `pattern` is no regular expression.
pub uninterp spec fn all_captures(pattern: Seq<char>, text: Seq<char>) -> Seq<Seq<char>>;

/// Compiles `pattern` with the regex crate and runs `Regex::captures` on
/// `text`. The contract names what group 1 of the match holds.
#[verifier::external_body]
fn capture_first(pattern: &str, text: &str) -> (r: Option<String>)
    ensures
        match r {
            Some(found) => first_capture(pattern@, text@) == Some(found@),
            None => first_capture(pattern@, text@).is_none(),
        },
{
    match Regex::new(pattern) {
        Ok(re) => re.captures(text).and_then(|c| c.get(1)).map(|m| m.as_str().to_string()),
        Err(_) => None,
    }
}

/// Compiles `pattern` with the regex crate and runs `Regex::captures_iter`
/// on `text`. The contract names the list of what group 1 holds, match by
/// match.
#[verifier::external_body]
fn capture_all(pattern: &str, text: &str) -> (r: Vec<String>)
    ensures
        names(r@) == all_captures(pattern@, text@),
{
    match Regex::new(pattern) {
        Ok(re) => re.captures_iter(text).flat_map(|c| c.get(1)).map(
            |m| m.as_str().to_owned(),
        ).collect(),
        Err(_) => Vec::new(),
    }
}

/// Whether `pattern` matches somewhere in `text`; `None` where `pattern` is
/// no regular expression.
pub uninterp spec fn pattern_matches(pattern: Seq<char>, text: Seq<char>) -> Option<bool>;

/// Compiles `pattern` with the regex crate and runs `Regex::is_match` on
/// `text`. The contract names the answer, and `None` stands for a pattern
/// that the crate refuses to compile.
#[verifier::external_body]
fn is_match(pattern: &str, text: &str) -> (r: Option<bool>)
    ensures
        r == pattern_matches(pattern@, text@),
{
    match Regex::new(pattern) {
        Ok(re) => Some(re.is_match(text)),
        Err(_) => None,
    }
}

/// The names among `list` that `pattern` matches, in order; `None` where the
/// pattern gives no answer for one of them.
pub open spec fn matching(pattern: Seq<char>, list: Seq<Seq<char>>) -> Option<Seq<Seq<char>>>
    decreases list.len(),
{
    if list.len() == 0 {
        Some(Seq::empty())
    } else {
        match (matching(pattern, list.drop_last()), pattern_matches(pattern, list.last())) {
            (Some(init), Some(true)) => Some(init.push(list.last())),
            (Some(init), Some(false)) => Some(init),
            _ => None,
        }
    }
}

/// Where the pattern gives no answer among the first `k` names, it gives
/// none for the whole list.
pub proof fn lemma_no_answer_stays(pattern: Seq<char>, list: Seq<Seq<char>>, k: int)
    requires
        0 <= k <= list.len(),
        matching(pattern, list.take(k)).is_none(),
    ensures
        matching(pattern, list).is_none(),
    decreases list.len() - k,
{
    if k == list.len() {
        assert(list.take(k) =~= list);
    } else {
        assert(list.drop_last().take(k) =~= list.take(k));
        lemma_no_answer_stays(pattern, list.drop_last(), k);
    }
}

/// Keeps the tables whose name `pattern` matches, in their order. A pattern
/// that is no regular expression is reported, not taken to match nothing.
pub fn filter_tables(tables: &[String], pattern: &str) -> (r: Result<Vec<String>, PmaError>)
    ensures
        match r {
            Ok(kept) => matching(pattern@, names(tables@)) == Some(names(kept@)),
            Err(e) => matching(pattern@, names(tables@)).is_none() && e@
                == PmaErrorView::InvalidFilter(pattern@),
        },
{
    let mut kept: Vec<String> = Vec::new();
    let mut i: usize = 0;
    assert(names(kept@) =~= Seq::empty());
    assert(names(tables@).take(0) =~= Seq::empty());
    while i < tables.len()
        invariant
            i <= tables@.len(),
            matching(pattern@, names(tables@).take(i as int)) == Some(names(kept@)),
        decreases tables@.len() - i,
    {
        proof {
            let upto = names(tables@).take(i + 1);
            assert(upto.drop_last() =~= names(tables@).take(i as int));
            assert(upto.last() == tables@[i as int]@);
        }
        match is_match(pattern, tables[i].as_str()) {
            None => {
                proof {
                    lemma_no_answer_stays(pattern@, names(tables@), i + 1);
                }
                return Err(PmaError::InvalidFilter(pattern.to_owned()));
            },
            Some(true) => {
                let name = tables[i].clone();
                assert(names(kept@.push(name)) =~= names(kept@).push(name@));
                kept.push(name);
            },
            Some(false) => {},
        }
        i += 1;
    }
    assert(names(tables@).take(i as int) =~= names(tables@));
    Ok(kept)
}

/// The text of an optional string slice.
pub open spec fn opt_str<'a>(text: Option<&'a str>) -> Option<Seq<char>> {
    match text {
        Some(t) => Some(t@),
        None => None,
    }
}

/// The token and the session identifier that a response yields: both must be
/// found, the identifier in the session-cookie header, the token in the body.
pub open spec fn session_of(set_cookie: Option<Seq<char>>, body: Seq<char>) -> Option<
    (Seq<char>, Seq<char>),
> {
    match set_cookie {
        None => None,
        Some(header) => match (
            first_capture(COOKIE_PATTERN@, header),
            first_capture(TOKEN_PATTERN@, body),
        ) {
            (Some(cookie), Some(token)) => Some((token, cookie)),
            _ => None,
        },
    }
}

/// Pairs up what the two patterns found. A session needs both.
pub fn session_from_captures(cookie: Option<String>, token: Option<String>) -> (r: Result<
    (String, String),
    PmaError,
>)
    ensures
        match r {
            Ok(pair) => cookie == Some(pair.1) && token == Some(pair.0),
            Err(e) => e@ == PmaErrorView::AuthExtraction && (cookie is None || token is None),
        },
{
    match (token, cookie) {
        (Some(t), Some(c)) => Ok((t, c)),
        _ => Err(PmaError::AuthExtraction),
    }
}

/// What is sent to the export endpoint.
pub struct ExportSubmission<'a> {
    /// Address of the export endpoint.
    pub url: String,
    /// Value of the cookie header.
    pub cookie: String,
    /// Value of the accepted-encoding header.
    pub accept_encoding: &'static str,
    /// The form, field by field.
    pub form: Vec<(&'a str, String)>,
}

/// The console as this library sees it: where it is and in which language it
/// answers. The requests themselves are made by the caller.
pub struct PMAClient {
    pub config: PMAConfig,
}

impl PMAClient {
    /// A client for the console that `config` describes.
    pub fn new(config: PMAConfig) -> (r: Self)
        ensures
            r.config == config,
    {
        Self { config }
    }

    /// Value of the cookie header of the landing-page request.
    pub fn lang_cookie(&self) -> (r: String)
        ensures
            r@ == "pma_lang="@ + self.config.lang@,
    {
        "pma_lang=".to_owned().concat(self.config.lang.as_str())
    }

    /// Address of the structure listing.
    pub fn structure_url(&self) -> (r: String)
        ensures
            r@ == self.config.url@ + "/db_structure.php"@,
    {
        self.config.url.clone().concat("/db_structure.php")
    }

    /// Address of the export endpoint.
    pub fn export_url(&self) -> (r: String)
        ensures
            r@ == self.config.url@ + "/export.php"@,
    {
        self.config.url.clone().concat("/export.php")
    }

    /// Extracts the token and the session identifier, in this order, from the
    /// landing page's session-cookie header and body.
    pub fn fetch_token(&self, set_cookie: Option<&str>, body: &str) -> (r: Result<
        (String, String),
        PmaError,
    >)
        ensures
            match r {
                Ok(pair) => session_of(opt_str(set_cookie), body@) == Some((pair.0@, pair.1@)),
                Err(e) => e@ == PmaErrorView::AuthExtraction && session_of(
                    opt_str(set_cookie),
                    body@,
                ).is_none(),
            },
    {
        let cookie = match set_cookie {
            Some(header) => capture_first(COOKIE_PATTERN, header),
            None => None,
        };
        let token = capture_first(TOKEN_PATTERN, body);
        session_from_captures(cookie, token)
    }

    /// Lists the tables that the structure listing names, each once, in the
    /// order of first occurrence.
    pub fn fetch_tables(&self, body: &str) -> (r: Vec<String>)
        ensures
            names(r@) == first_occurrences(all_captures(TABLE_PATTERN@, body@)),
    {
        unique_names(capture_all(TABLE_PATTERN, body))
    }

    /// Builds the export request for `config`. `tables` is what the database
    /// holds now: with none, there is nothing to export and no request.
    pub fn export(
        &self,
        token: &str,
        cookie: &str,
        config: PMAExportConfig,
        tables: &[String],
    ) -> (r: Result<ExportSubmission<'static>, PmaError>)
        ensures
            match r {
                Err(e) => e@ == PmaErrorView::ExportTargetEmpty(config.db@) && tables@.len() == 0,
                Ok(request) => tables@.len() > 0 && request.url@ == self.config.url@
                    + "/export.php"@ && request.cookie@ == "phpMyAdmin="@ + cookie@
                    && request.accept_encoding@ == ACCEPT_ENCODING@ && pairs_view(request.form@)
                    == form_fields(token@, config@),
            },
    {
        if tables.len() == 0 {
            return Err(PmaError::ExportTargetEmpty(config.db));
        }
        Ok(
            ExportSubmission {
                url: self.export_url(),
                cookie: "phpMyAdmin=".to_owned().concat(cookie),
                accept_encoding: ACCEPT_ENCODING,
                form: ExportPayload::new(token, config).form(),
            },
        )
    }
}

} // verus!
