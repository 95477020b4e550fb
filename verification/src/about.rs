//! What the node binary says about itself.

use vstd::prelude::*;
use vstd::string::*;

verus! {

/// The name of the implementation.
pub fn impl_name() -> (name: String)
    ensures
        name@ == "Substrate Node"@,
{
    "Substrate Node".to_owned()
}

/// Where users are sent for support.
pub fn support_url() -> (url: String)
    ensures
        url@ == "support.anonymous.an"@,
{
    "support.anonymous.an".to_owned()
}

/// The first year of the copyright notice.
pub fn copyright_start_year() -> (year: i32)
    ensures
        year == 2017,
{
    2017
}

} // verus!
