//! How a SQLite-backed store opens its database file.
use vstd::prelude::*;

verus! {

/// The open flags a store asks for: read-only, or read-write with or
/// without creating a missing file.
#[derive(Clone, Copy, Debug, PartialEq, Eq, Structural)]
pub enum OpenMode {
    ReadOnly,
    ReadWrite,
    ReadWriteCreate,
}

/// Read-only wins; otherwise the file is created when asked to.
pub open spec fn spec_open_mode(read_only: bool, create_if_missing: bool) -> OpenMode {
    if read_only {
        OpenMode::ReadOnly
    } else if create_if_missing {
        OpenMode::ReadWriteCreate
    } else {
        OpenMode::ReadWrite
    }
}

pub fn open_mode(read_only: bool, create_if_missing: bool) -> (m: OpenMode)
    ensures
        m == spec_open_mode(read_only, create_if_missing),
{
    if read_only {
        OpenMode::ReadOnly
    } else if create_if_missing {
        OpenMode::ReadWriteCreate
    } else {
        OpenMode::ReadWrite
    }
}

} // verus!
