//! The playout queue store: how it opens its database.
use vstd::prelude::*;

use crate::storage::{open_mode, spec_open_mode, OpenMode};
use crate::text::owned;

verus! {

/// Errors of the queue store that its own logic raises.
#[derive(Clone, Debug)]
pub enum QueueError {
    /// No database path was given.
    MissingStore,
}

/// Options for opening the playout queue store.
#[derive(Clone, Debug)]
pub struct PlayoutQueueStoreBuilder {
    path: Option<String>,
    read_only: bool,
    create_if_missing: bool,
}

/// A playout queue store: its database file and how it is opened.
#[derive(Clone, Debug)]
pub struct PlayoutQueueStore {
    pub path: String,
    pub mode: OpenMode,
}

impl PlayoutQueueStoreBuilder {
    pub closed spec fn spec_path(self) -> Option<Seq<char>> {
        match self.path {
            Some(p) => Some(p@),
            None => None,
        }
    }

    pub closed spec fn spec_read_only(self) -> bool {
        self.read_only
    }

    pub closed spec fn spec_create_if_missing(self) -> bool {
        self.create_if_missing
    }

    /// No path, read-write, creating a missing file.
    pub fn new() -> (r: Self)
        ensures
            r.spec_path() is None,
            !r.spec_read_only(),
            r.spec_create_if_missing(),
    {
        PlayoutQueueStoreBuilder { path: None, read_only: false, create_if_missing: true }
    }

    pub fn path(self, path: &str) -> (r: Self)
        ensures
            r.spec_path() == Some(path@),
            r.spec_read_only() == self.spec_read_only(),
            r.spec_create_if_missing() == self.spec_create_if_missing(),
    {
        PlayoutQueueStoreBuilder { path: Some(owned(path)), ..self }
    }

    pub fn read_only(self, value: bool) -> (r: Self)
        ensures
            r.spec_path() == self.spec_path(),
            r.spec_read_only() == value,
            r.spec_create_if_missing() == self.spec_create_if_missing(),
    {
        PlayoutQueueStoreBuilder { read_only: value, ..self }
    }

    pub fn create_if_missing(self, value: bool) -> (r: Self)
        ensures
            r.spec_path() == self.spec_path(),
            r.spec_read_only() == self.spec_read_only(),
            r.spec_create_if_missing() == value,
    {
        PlayoutQueueStoreBuilder { create_if_missing: value, ..self }
    }

    /// The store, or `MissingStore` when no path was given.
    pub fn build(self) -> (r: Result<PlayoutQueueStore, QueueError>)
        ensures
            match self.spec_path() {
                Some(p) => r is Ok && r->Ok_0.path@ == p && r->Ok_0.mode == spec_open_mode(
                    self.spec_read_only(),
                    self.spec_create_if_missing(),
                ),
                None => r is Err,
            },
    {
        let mode = open_mode(self.read_only, self.create_if_missing);
        match self.path {
            Some(path) => Ok(PlayoutQueueStore { path, mode }),
            None => Err(QueueError::MissingStore),
        }
    }
}

} // verus!
