use crate::names::names;
use itertools::Itertools;
use vstd::prelude::*;
use vstd::string::StringExecFns;

verus! {

/// Why an export stopped. Transport and file-system failures belong to the
/// caller that performs them and have no variant here.
#[derive(Debug)]
pub enum PmaError {
    /// The session cookie or the token was not found in the console's response.
    AuthExtraction,
    /// Requested tables that the database does not have, all of them, in the
    /// order in which they were requested.
    UnknownTable(Vec<String>),
    /// The named database has no table to export.
    ExportTargetEmpty(String),
    /// An archive entry declares a compression method other than deflate.
    UnsupportedCompression(u16),
    /// The decompressed stream ended cleanly in the middle of an entry.
    TruncatedArchive,
    /// The compressed data could not be decoded as far as a read needed it.
    CorruptArchive,
    /// The table filter is no regular expression.
    InvalidFilter(String),
}

/// Mathematical value of a `PmaError`.
pub ghost enum PmaErrorView {
    AuthExtraction,
    UnknownTable(Seq<Seq<char>>),
    ExportTargetEmpty(Seq<char>),
    UnsupportedCompression(u16),
    TruncatedArchive,
    CorruptArchive,
    InvalidFilter(Seq<char>),
}

impl View for PmaError {
    type V = PmaErrorView;

    open spec fn view(&self) -> PmaErrorView {
        match self {
            PmaError::AuthExtraction => PmaErrorView::AuthExtraction,
            PmaError::UnknownTable(t) => PmaErrorView::UnknownTable(names(t@)),
            PmaError::ExportTargetEmpty(db) => PmaErrorView::ExportTargetEmpty(db@),
            PmaError::UnsupportedCompression(m) => PmaErrorView::UnsupportedCompression(*m),
            PmaError::TruncatedArchive => PmaErrorView::TruncatedArchive,
            PmaError::CorruptArchive => PmaErrorView::CorruptArchive,
            PmaError::InvalidFilter(p) => PmaErrorView::InvalidFilter(p@),
        }
    }
}

/// `parts` in order, with `sep` between each two.
pub open spec fn joined(parts: Seq<Seq<char>>, sep: Seq<char>) -> Seq<char>
    decreases parts.len(),
{
    if parts.len() == 0 {
        Seq::empty()
    } else if parts.len() == 1 {
        parts[0]
    } else {
        joined(parts.drop_last(), sep) + sep + parts.last()
    }
}

/// The decimal digit `d`, as text.
pub open spec fn digit_text(d: int) -> Seq<char> {
    if d == 0 {
        "0"@
    } else if d == 1 {
        "1"@
    } else if d == 2 {
        "2"@
    } else if d == 3 {
        "3"@
    } else if d == 4 {
        "4"@
    } else if d == 5 {
        "5"@
    } else if d == 6 {
        "6"@
    } else if d == 7 {
        "7"@
    } else if d == 8 {
        "8"@
    } else {
        "9"@
    }
}

/// `n` in decimal, without leading zeros.
pub open spec fn decimal(n: int) -> Seq<char>
    decreases n,
{
    if n < 10 {
        digit_text(n)
    } else {
        decimal(n / 10) + digit_text(n % 10)
    }
}

fn digit_str(d: u16) -> (r: &'static str)
    requires
        d < 10,
    ensures
        r@ == digit_text(d as int),
{
    if d == 0 {
        "0"
    } else if d == 1 {
        "1"
    } else if d == 2 {
        "2"
    } else if d == 3 {
        "3"
    } else if d == 4 {
        "4"
    } else if d == 5 {
        "5"
    } else if d == 6 {
        "6"
    } else if d == 7 {
        "7"
    } else if d == 8 {
        "8"
    } else {
        "9"
    }
}

/// Writes `n` in decimal.
pub fn decimal_string(n: u16) -> (r: String)
    ensures
        r@ == decimal(n as int),
{
    let mut rest: u16 = n / 10;
    let mut text = digit_str(n % 10).to_owned();
    while rest > 0
        invariant
            decimal(n as int) == (if rest > 0 {
                decimal(rest as int) + text@
            } else {
                text@
            }),
        decreases rest,
    {
        let ghost before = text@;
        let digit = digit_str(rest % 10);
        text = digit.to_owned().concat(text.as_str());
        proof {
            if rest >= 10 {
                assert(decimal(rest as int) + before =~= decimal(rest as int / 10) + text@);
            }
        }
        rest = rest / 10;
    }
    text
}

/// The message that describes an error to the user.
pub open spec fn message_text(e: PmaErrorView) -> Seq<char> {
    match e {
        PmaErrorView::AuthExtraction => "cannot get the token or the session cookie from the response."@,
        PmaErrorView::UnknownTable(t) => "Not Found table. "@ + joined(t, ","@),
        PmaErrorView::ExportTargetEmpty(db) => "Not found tables in '"@ + db + "'"@,
        PmaErrorView::UnsupportedCompression(method) => "unsupported compression method: "@
            + decimal(method as int),
        PmaErrorView::TruncatedArchive => "the archive ends in the middle of an entry."@,
        PmaErrorView::CorruptArchive => "the compressed data cannot be decoded."@,
        PmaErrorView::InvalidFilter(p) => "the table filter is no regular expression: "@ + p,
    }
}

/// itertools' `join` over the names of `parts`: each name as it is, with
/// `sep` between each two, and the empty string for no name.
#[verifier::external_body]
fn join_names(parts: &[String], sep: &str) -> (r: String)
    ensures
        r@ == joined(names(parts@), sep@),
{
    parts.iter().join(sep)
}

impl PmaError {
    /// The message for the user: the kind of failure and, where it has
    /// them, the names of the unknown tables, the database without tables,
    /// the number of the compression method or the rejected filter.
    pub fn message(&self) -> (r: String)
        ensures
            r@ == message_text(self@),
    {
        match self {
            PmaError::AuthExtraction => {
                "cannot get the token or the session cookie from the response.".to_owned()
            },
            PmaError::UnknownTable(t) => {
                let list = join_names(t.as_slice(), ",");
                "Not Found table. ".to_owned().concat(list.as_str())
            },
            PmaError::ExportTargetEmpty(db) => {
                "Not found tables in '".to_owned().concat(db.as_str()).concat("'")
            },
            PmaError::UnsupportedCompression(method) => {
                let id = decimal_string(*method);
                "unsupported compression method: ".to_owned().concat(id.as_str())
            },
            PmaError::TruncatedArchive => "the archive ends in the middle of an entry.".to_owned(),
            PmaError::CorruptArchive => "the compressed data cannot be decoded.".to_owned(),
            PmaError::InvalidFilter(p) => {
                "the table filter is no regular expression: ".to_owned().concat(p.as_str())
            },
        }
    }
}

} // verus!
