use crate::command::ExportOption;
use crate::error::{PmaError, PmaErrorView};
use crate::names::{contains_name, missing, names};
use crate::pma_client::{PMAExportConfig, PMAExportConfigView, Table, TableView};
use vstd::prelude::*;

verus! {

/// What an export needs once the tables are resolved: the request for the
/// console and the directory that receives the files.
#[derive(Debug)]
pub struct ExportConfig {
    pub pma: PMAExportConfig,
    pub output_path: String,
}

/// The names of an optional list.
pub open spec fn opt_names(data: Option<Vec<String>>) -> Option<Seq<Seq<char>>> {
    match data {
        Some(d) => Some(names(d@)),
        None => None,
    }
}

/// The text of an optional string.
pub open spec fn opt_text(text: Option<String>) -> Option<Seq<char>> {
    match text {
        Some(t) => Some(t@),
        None => None,
    }
}

/// Whether a table's rows are exported. The first rule that applies decides:
/// all data; else the explicit list, by membership; else the prefix; else no.
pub open spec fn includes_data(
    all_data: bool,
    data: Option<Seq<Seq<char>>>,
    prefix: Option<Seq<char>>,
    table: Seq<char>,
) -> bool {
    if all_data {
        true
    } else if let Some(d) = data {
        d.contains(table)
    } else if let Some(p) = prefix {
        p.is_prefix_of(table)
    } else {
        false
    }
}

/// The selection for `tables` under a policy: every table with its
/// structure, and with its data where `includes_data` says so.
pub open spec fn selection(
    tables: Seq<Seq<char>>,
    all_data: bool,
    data: Option<Seq<Seq<char>>>,
    prefix: Option<Seq<char>>,
) -> Seq<TableView> {
    Seq::new(
        tables.len(),
        |i: int|
            TableView {
                name: tables[i],
                structure: true,
                data: includes_data(all_data, data, prefix, tables[i]),
            },
    )
}

/// Every table of the list is selected, under its own name and with its
/// structure; its data is selected exactly when the policy's first applicable
/// rule says so.
pub proof fn lemma_selection_follows_policy(
    tables: Seq<Seq<char>>,
    all_data: bool,
    data: Option<Seq<Seq<char>>>,
    prefix: Option<Seq<char>>,
    i: int,
)
    requires
        0 <= i < tables.len(),
    ensures
        selection(tables, all_data, data, prefix).len() == tables.len(),
        selection(tables, all_data, data, prefix)[i].name == tables[i],
        selection(tables, all_data, data, prefix)[i].structure,
        selection(tables, all_data, data, prefix)[i].data <==> all_data || (data is Some
            && data->Some_0.contains(tables[i])) || (data is None && prefix is Some
            && prefix->Some_0.is_prefix_of(tables[i])),
{
}

/// std's `str::starts_with` with a string as the pattern: whether `name`
/// begins with the text of `prefix`.
#[verifier::external_body]
fn has_prefix(name: &str, prefix: &str) -> (r: bool)
    ensures
        r == prefix@.is_prefix_of(name@),
{
    name.starts_with(prefix)
}

/// Checks that every name of `check_tables` is one of `actual`. The error
/// carries all the names that are not, in the order of `check_tables`.
pub fn check_if_table_exists(actual: &[String], check_tables: &[String]) -> (r: Result<
    (),
    PmaError,
>)
    ensures
        match r {
            Ok(_) => missing(names(actual@), names(check_tables@)).len() == 0,
            Err(e) => e@ == PmaErrorView::UnknownTable(
                missing(names(actual@), names(check_tables@)),
            ) && missing(names(actual@), names(check_tables@)).len() > 0,
        },
{
    let mut invalid_tables: Vec<String> = Vec::new();
    let mut i: usize = 0;
    assert(names(invalid_tables@) =~= Seq::empty());
    while i < check_tables.len()
        invariant
            i <= check_tables@.len(),
            names(invalid_tables@) == missing(
                names(actual@),
                names(check_tables@).take(i as int),
            ),
        decreases check_tables@.len() - i,
    {
        proof {
            let upto = names(check_tables@).take(i + 1);
            assert(upto.drop_last() =~= names(check_tables@).take(i as int));
            assert(upto.last() == check_tables@[i as int]@);
        }
        if !contains_name(actual, &check_tables[i]) {
            let name = check_tables[i].clone();
            assert(names(invalid_tables@.push(name)) =~= names(invalid_tables@).push(name@));
            invalid_tables.push(name);
        }
        i += 1;
    }
    assert(names(check_tables@).take(i as int) =~= names(check_tables@));
    if invalid_tables.len() > 0 {
        Err(PmaError::UnknownTable(invalid_tables))
    } else {
        Ok(())
    }
}

/// Decides whether the rows of `table` are exported under `option`.
pub fn data_included(option: &ExportOption, table: &String) -> (r: bool)
    ensures
        r == includes_data(
            option.all_data,
            opt_names(option.data),
            opt_text(option.data_prefix),
            table@,
        ),
{
    if option.all_data {
        return true;
    }
    match &option.data {
        Some(d) => contains_name(d.as_slice(), table),
        None => match &option.data_prefix {
            Some(p) => has_prefix(table.as_str(), p.as_str()),
            None => false,
        },
    }
}

/// Turns the resolved table list and the user's options into the export
/// configuration. Fails where the explicit data list names a table that is
/// not in `tables`; else every table is selected with its structure, and with
/// its data as the policy decides.
pub fn opt_to_config(tables: Vec<String>, option: ExportOption) -> (r: Result<
    ExportConfig,
    PmaError,
>)
    ensures
        match r {
            Err(e) => option.data is Some && missing(
                names(tables@),
                names(option.data->Some_0@),
            ).len() > 0 && e@ == PmaErrorView::UnknownTable(
                missing(names(tables@), names(option.data->Some_0@)),
            ),
            Ok(config) => (option.data is Some ==> missing(
                names(tables@),
                names(option.data->Some_0@),
            ).len() == 0) && config.output_path@ == option.output@ && config.pma@ == (
            PMAExportConfigView {
                db: option.db@,
                tables: selection(
                    names(tables@),
                    option.all_data,
                    opt_names(option.data),
                    opt_text(option.data_prefix),
                ),
                separate_files: option.separate_files,
                create_database: false,
            }),
        },
{
    match &option.data {
        Some(d) => {
            match check_if_table_exists(tables.as_slice(), d.as_slice()) {
                Err(e) => {
                    return Err(e);
                },
                Ok(_) => {},
            }
        },
        None => {},
    }
    let mut selected: Vec<Table> = Vec::new();
    let mut i: usize = 0;
    while i < tables.len()
        invariant
            i <= tables@.len(),
            selected@.len() == i,
            forall|j: int|
                0 <= j < i ==> (#[trigger] selected@[j])@ == selection(
                    names(tables@),
                    option.all_data,
                    opt_names(option.data),
                    opt_text(option.data_prefix),
                )[j],
        decreases tables@.len() - i,
    {
        let data = data_included(&option, &tables[i]);
        let name = tables[i].clone();
        selected.push(Table { name, structure: true, data });
        i += 1;
    }
    let config = ExportConfig {
        pma: PMAExportConfig {
            db: option.db,
            tables: selected,
            separate_files: option.separate_files,
            create_database: false,
        },
        output_path: option.output,
    };
    assert(config.pma@.tables =~= selection(
        names(tables@),
        option.all_data,
        opt_names(option.data),
        opt_text(option.data_prefix),
    ));
    Ok(config)
}

} // verus!
