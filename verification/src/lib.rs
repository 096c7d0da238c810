//! Locates an installed application's executable by name using one of several
//! discovery strategies, ranks candidate matches by version metadata, and
//! prepares the resolved executable for launch with tokenized parameters.

pub mod chars;
pub mod digits;
pub mod version;
pub mod data;
pub mod args;
pub mod expand;
pub mod fsops;
pub mod errors;
pub mod shell;
pub mod probe;
pub mod resolve;
pub mod launch;
