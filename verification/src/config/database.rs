use vstd::prelude::*;

verus! {

/// Where the document database is and how to sign in to it.
#[derive(Debug)]
pub struct DatabaseConfig {
    pub host: String,
    pub port: u16,
    pub name: String,
    pub user: Option<String>,
    pub password: Option<String>,
    /// The database that holds the credentials; "admin" where none is set.
    pub auth_source: Option<String>,
    pub pool_size: u32,
}

} // verus!
