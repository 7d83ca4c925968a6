//! The record: the best score that was ever stored.

use vstd::prelude::*;
use vstd::string::StringExecFns;
use crate::config::Config;

verus! {

/// The record as it is stored.
#[derive(Clone, Copy, Debug, PartialEq, Eq, Structural)]
pub struct Record {
    pub value: u16,
}

impl Record {
    /// The address of the record: the address of the store, the path of the
    /// score, and the key.
    pub open spec fn spec_url(config: Config) -> Seq<char> {
        config.db_url@ + "/score.json?auth="@ + config.api_key@
    }

    /// The address under which the record is fetched and stored.
    pub fn url(config: &Config) -> (url: String)
        ensures
            url@ == Self::spec_url(*config),
    {
        let mut url = String::from_str(config.db_url.as_str());
        url.append("/score.json?auth=");
        url.append(config.api_key.as_str());
        url
    }
}

} // verus!
