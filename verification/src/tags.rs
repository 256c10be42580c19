//! Tags that posts are filed under.
use vstd::prelude::*;
use crate::clock::utc_now_micros;
use crate::ids::{new_uuid_v4, uuid_is_v4};

verus! {

/// A stored tag. `created_at` is in microseconds since the epoch.
#[derive(Clone, Debug)]
pub struct Tags {
    pub uuid: u128,
    pub name: String,
    pub created_at: i64,
}

/// A row that may hold a tag's UUID.
#[derive(Clone, Debug)]
pub struct TestTags {
    pub uuid: Option<u128>,
}

impl Tags {
    /// A new tag with the given name, a random UUID and the current time.
    pub fn from(name: String) -> (r: Tags)
        ensures
            r.name == name,
            uuid_is_v4(r.uuid),
    {
        let uuid = new_uuid_v4();
        let created_at = utc_now_micros();
        Tags { uuid, name, created_at }
    }
}

} // verus!
