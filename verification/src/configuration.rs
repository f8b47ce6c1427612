//! Process configuration: the directory's base URL and the record store's
//! connection details. Loaded once at startup by the surrounding program and
//! treated as immutable for the process lifetime; the logic only ever reads
//! plain values out of it.

use vstd::prelude::*;

verus! {

/// Where the external user directory lives.
pub struct JsonPlaceholder {
    pub url: String,
}

/// How to reach the record store: the connection string (which carries the
/// credentials), and the database holding the user collection.
pub struct Database {
    pub url: String,
    pub user: String,
    pub database_name: String,
    pub password: String,
}

/// The whole configuration: one section per backing source.
pub struct Configuration {
    pub json_placeholder: JsonPlaceholder,
    pub database: Database,
}

} // verus!
