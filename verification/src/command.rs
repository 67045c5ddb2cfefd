use vstd::prelude::*;

verus! {

/// What one invocation was asked to do.
#[derive(Debug)]
pub struct Opt {
    /// Location of the console.
    pub url: String,
    /// Language of the console.
    pub lang: String,
    pub command: Command,
}

#[derive(Debug)]
pub enum Command {
    /// Export the specified tables.
    Export { tables: Vec<String>, export_option: ExportOption },
    /// Export all tables, or those whose name matches `filter_table`.
    ExportAll { filter_table: Option<String>, export_option: ExportOption },
}

#[derive(Debug)]
pub struct ExportOption {
    /// Database name.
    pub db: String,
    /// Include the data of every table.
    pub all_data: bool,
    /// Include the data of these tables.
    pub data: Option<Vec<String>>,
    /// Include the data of the tables whose name starts with this prefix.
    pub data_prefix: Option<String>,
    /// Destination of the exported files.
    pub output: String,
    /// One file per table.
    pub separate_files: bool,
}

} // verus!
