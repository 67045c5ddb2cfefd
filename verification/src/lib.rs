pub mod command;
pub mod error;
pub mod export;
pub mod materialize;
pub mod names;
pub mod pma_client;
pub mod read_zip;
