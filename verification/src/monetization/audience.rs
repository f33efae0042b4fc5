//! The audience store: how it opens its database.
use vstd::prelude::*;

use crate::storage::{open_mode, spec_open_mode, OpenMode};
use crate::text::owned;

verus! {

/// Errors of the audience store that its own logic raises.
#[derive(Clone, Debug)]
pub enum AudienceError {
    /// No database path was given.
    MissingStore,
}

/// Options for opening the audience store.
#[derive(Clone, Debug)]
pub struct AudienceStoreBuilder {
    path: Option<String>,
    read_only: bool,
    create_if_missing: bool,
}

/// An audience store: its database file and how it is opened.
#[derive(Clone, Debug)]
pub struct AudienceStore {
    pub path: String,
    pub mode: OpenMode,
}

impl AudienceStoreBuilder {
    pub closed spec fn spec_path(self) -> Option<Seq<char>> {
        match self.path {
            Some(p) => Some(p@),
            None => None,
        }
    }

    pub closed spec fn spec_read_only(self) -> bool {
        self.read_only
    }

    pub closed spec fn spec_create_if_missing(self) -> bool {
        self.create_if_missing
    }

    /// No path, read-write, creating a missing file.
    pub fn new() -> (r: Self)
        ensures
            r.spec_path() is None,
            !r.spec_read_only(),
            r.spec_create_if_missing(),
    {
        AudienceStoreBuilder { path: None, read_only: false, create_if_missing: true }
    }

    pub fn path(self, path: &str) -> (r: Self)
        ensures
            r.spec_path() == Some(path@),
            r.spec_read_only() == self.spec_read_only(),
            r.spec_create_if_missing() == self.spec_create_if_missing(),
    {
        AudienceStoreBuilder { path: Some(owned(path)), ..self }
    }

    pub fn read_only(self, value: bool) -> (r: Self)
        ensures
            r.spec_path() == self.spec_path(),
            r.spec_read_only() == value,
            r.spec_create_if_missing() == self.spec_create_if_missing(),
    {
        AudienceStoreBuilder { read_only: value, ..self }
    }

    pub fn create_if_missing(self, value: bool) -> (r: Self)
        ensures
            r.spec_path() == self.spec_path(),
            r.spec_read_only() == self.spec_read_only(),
            r.spec_create_if_missing() == value,
    {
        AudienceStoreBuilder { create_if_missing: value, ..self }
    }

    /// The store, or `MissingStore` when no path was given.
    pub fn build(self) -> (r: Result<AudienceStore, AudienceError>)
        ensures
            match self.spec_path() {
                Some(p) => r is Ok && r->Ok_0.path@ == p && r->Ok_0.mode == spec_open_mode(
                    self.spec_read_only(),
                    self.spec_create_if_missing(),
                ),
                None => r is Err,
            },
    {
        let mode = open_mode(self.read_only, self.create_if_missing);
        match self.path {
            Some(path) => Ok(AudienceStore { path, mode }),
            None => Err(AudienceError::MissingStore),
        }
    }
}

} // verus!
