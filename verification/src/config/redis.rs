use vstd::prelude::*;

verus! {

/// Where the key-value cache is.
#[derive(Debug)]
pub struct RedisConfig {
    pub host: String,
    pub port: u16,
    pub password: Option<String>,
    /// The index of the logical database; the server has 256 of them.
    pub db: u32,
}

} // verus!
