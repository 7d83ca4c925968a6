//! Where the record is kept.

use vstd::prelude::*;

verus! {

/// Where the record is kept and the key that opens it.
#[derive(Debug, PartialEq, Eq)]
pub struct Config {
    pub db_url: String,
    pub api_key: String,
}

} // verus!
