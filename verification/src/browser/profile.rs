//! Browser profiles: where each lives, how long it is kept, and when it has
//! expired.
use vstd::prelude::*;

use crate::text::{owned, path_join, path_join_str};
use crate::time::UtcTimestamp;

verus! {

/// The lifetime of profiles made from the browser configuration: a day.
pub open spec fn default_profile_ttl_secs() -> u64 {
    86400
}

/// A browser profile directory.
#[derive(Clone, Debug)]
pub struct BrowserProfile {
    id: String,
    path: String,
    created_at: UtcTimestamp,
    ttl_secs: u64,
}

impl BrowserProfile {
    pub closed spec fn spec_id(self) -> Seq<char> {
        self.id@
    }

    pub closed spec fn spec_path(self) -> Seq<char> {
        self.path@
    }

    pub closed spec fn spec_created_at(self) -> UtcTimestamp {
        self.created_at
    }

    pub closed spec fn spec_ttl_secs(self) -> u64 {
        self.ttl_secs
    }

    /// The profile `id` under `base`, created at `created_at`.
    pub fn new(base: &str, id: String, created_at: UtcTimestamp, ttl_secs: u64) -> (r: Self)
        ensures
            r.spec_id() == id@,
            r.spec_path() == path_join(base@, id@),
            r.spec_created_at() == created_at,
            r.spec_ttl_secs() == ttl_secs,
    {
        let path = path_join_str(base, id.as_str());
        BrowserProfile { id, path, created_at, ttl_secs }
    }

    pub fn id(&self) -> (r: &str)
        ensures
            r@ == self.spec_id(),
    {
        self.id.as_str()
    }

    pub fn path(&self) -> (r: &str)
        ensures
            r@ == self.spec_path(),
    {
        self.path.as_str()
    }

    pub fn created_at(&self) -> (r: UtcTimestamp)
        ensures
            r == self.spec_created_at(),
    {
        self.created_at
    }

    pub fn ttl(&self) -> (r: u64)
        ensures
            r == self.spec_ttl_secs(),
    {
        self.ttl_secs
    }

    /// The marker file written when the profile is used.
    pub fn marker_path(&self) -> (r: String)
        ensures
            r@ == path_join(self.spec_path(), ".last_used"@),
    {
        path_join_str(self.path.as_str(), ".last_used")
    }
}

/// Hands out profile directories under one base directory.
#[derive(Clone, Debug)]
pub struct ProfileManager {
    base_dir: String,
    ttl_secs: u64,
}

impl ProfileManager {
    pub closed spec fn spec_base_dir(self) -> Seq<char> {
        self.base_dir@
    }

    pub closed spec fn spec_ttl_secs(self) -> u64 {
        self.ttl_secs
    }

    /// A manager of profiles under `base_dir` that live `ttl_secs` seconds
    /// (the directory itself is created by the caller).
    pub fn new(base_dir: &str, ttl_secs: u64) -> (r: Self)
        ensures
            r.spec_base_dir() == base_dir@,
            r.spec_ttl_secs() == ttl_secs,
    {
        ProfileManager { base_dir: owned(base_dir), ttl_secs }
    }

    /// A manager whose profiles live a day.
    pub fn from_config(base_dir: &str) -> (r: Self)
        ensures
            r.spec_base_dir() == base_dir@,
            r.spec_ttl_secs() == default_profile_ttl_secs(),
    {
        Self::new(base_dir, 86400)
    }

    pub fn base_dir(&self) -> (r: &str)
        ensures
            r@ == self.spec_base_dir(),
    {
        self.base_dir.as_str()
    }

    pub fn ttl(&self) -> (r: u64)
        ensures
            r == self.spec_ttl_secs(),
    {
        self.ttl_secs
    }

    /// A new profile with the given id, created at `now`.
    pub fn allocate(&self, id: String, now: UtcTimestamp) -> (r: BrowserProfile)
        ensures
            r.spec_id() == id@,
            r.spec_path() == path_join(self.spec_base_dir(), id@),
            r.spec_created_at() == now,
            r.spec_ttl_secs() == self.spec_ttl_secs(),
    {
        BrowserProfile::new(self.base_dir.as_str(), id, now, self.ttl_secs)
    }

    /// Whether a profile last modified `age_secs` seconds and `age_nanos`
    /// nanoseconds ago has outlived the lifetime (strictly).
    pub fn is_expired(&self, age_secs: u64, age_nanos: u32) -> (r: bool)
        ensures
            r == (age_secs > self.spec_ttl_secs() || (age_secs == self.spec_ttl_secs() && age_nanos > 0)),
    {
        age_secs > self.ttl_secs || (age_secs == self.ttl_secs && age_nanos > 0)
    }
}

} // verus!
