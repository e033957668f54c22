use vstd::prelude::*;
use crate::util::text::same_text;

pub mod blob;
pub mod cache;
pub mod document;
pub mod timeseries;

verus! {

/// Object-storage region the server addresses.
#[derive(Clone, Debug)]
pub enum StorageRegion {
    UsEast1,
    UsWest2,
    /// Any other region, reached at the configured endpoint.
    Custom { name: String, endpoint: String },
}

/// The two well-known region names map to their regions; any other name is
/// a custom region at the configured endpoint.
pub fn storage_region(region: &str, endpoint: &str) -> (r: StorageRegion)
    ensures
        region@ == "us-east-1"@ ==> r is UsEast1,
        region@ == "us-west-2"@ ==> r is UsWest2,
        region@ != "us-east-1"@ && region@ != "us-west-2"@ ==> (r matches StorageRegion::Custom {
            name,
            endpoint: e,
        } && name@ == region@ && e@ == endpoint@),
{
    proof {
        reveal_strlit("us-east-1");
        reveal_strlit("us-west-2");
        assert("us-east-1"@[3] != "us-west-2"@[3]);
    }
    if same_text(region, "us-east-1") {
        StorageRegion::UsEast1
    } else if same_text(region, "us-west-2") {
        StorageRegion::UsWest2
    } else {
        StorageRegion::Custom { name: String::from_str(region), endpoint: String::from_str(endpoint) }
    }
}

} // verus!
