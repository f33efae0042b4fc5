//! How the plan store opens its database, and the checks of its audit.
use vstd::prelude::*;

use crate::compliance::audit::blank;
use crate::plan::models::{PlanAuditKind, PlanStatus, status_of_text};
use crate::storage::{open_mode, spec_open_mode, OpenMode};
use crate::text::owned;

verus! {

/// Errors of the plan store that its own logic raises.
#[derive(Clone, Debug)]
pub enum PlanStoreError {
    /// No database path was given.
    MissingStore,
}

/// Options for opening the plan store.
#[derive(Clone, Debug)]
pub struct SqlitePlanStoreBuilder {
    path: Option<String>,
    read_only: bool,
    create_if_missing: bool,
}

/// A plan store: its database file and how it is opened.
#[derive(Clone, Debug)]
pub struct SqlitePlanStore {
    pub path: String,
    pub mode: OpenMode,
}

impl SqlitePlanStoreBuilder {
    pub closed spec fn spec_path(self) -> Option<Seq<char>> {
        match self.path {
            Some(p) => Some(p@),
            None => None,
        }
    }

    pub closed spec fn spec_read_only(self) -> bool {
        self.read_only
    }

    pub closed spec fn spec_create_if_missing(self) -> bool {
        self.create_if_missing
    }

    /// No path, read-write, creating a missing file.
    pub fn new() -> (r: Self)
        ensures
            r.spec_path() is None,
            !r.spec_read_only(),
            r.spec_create_if_missing(),
    {
        SqlitePlanStoreBuilder { path: None, read_only: false, create_if_missing: true }
    }

    pub fn path(self, path: &str) -> (r: Self)
        ensures
            r.spec_path() == Some(path@),
            r.spec_read_only() == self.spec_read_only(),
            r.spec_create_if_missing() == self.spec_create_if_missing(),
    {
        SqlitePlanStoreBuilder { path: Some(owned(path)), ..self }
    }

    pub fn read_only(self, value: bool) -> (r: Self)
        ensures
            r.spec_path() == self.spec_path(),
            r.spec_read_only() == value,
            r.spec_create_if_missing() == self.spec_create_if_missing(),
    {
        SqlitePlanStoreBuilder { read_only: value, ..self }
    }

    pub fn create_if_missing(self, value: bool) -> (r: Self)
        ensures
            r.spec_path() == self.spec_path(),
            r.spec_read_only() == self.spec_read_only(),
            r.spec_create_if_missing() == value,
    {
        SqlitePlanStoreBuilder { create_if_missing: value, ..self }
    }

    /// The store, or `MissingStore` when no path was given.
    pub fn build(self) -> (r: Result<SqlitePlanStore, PlanStoreError>)
        ensures
            match self.spec_path() {
                Some(p) => r is Ok && r->Ok_0.path@ == p && r->Ok_0.mode == spec_open_mode(
                    self.spec_read_only(),
                    self.spec_create_if_missing(),
                ),
                None => r is Err,
            },
    {
        let mode = open_mode(self.read_only, self.create_if_missing);
        match self.path {
            Some(path) => Ok(SqlitePlanStore { path, mode }),
            None => Err(PlanStoreError::MissingStore),
        }
    }
}

/// A flag raised by the store audit.
#[derive(Clone, Debug)]
pub struct PlanAuditFlag {
    pub kind: PlanAuditKind,
    pub note: Option<String>,
}

/// The status recorded for a row: its text read as a status, `Planned` when unknown.
pub open spec fn row_status(text: Seq<char>) -> PlanStatus {
    match status_of_text(text) {
        Some(s) => s,
        None => PlanStatus::Planned,
    }
}

/// Minutes since the plan was last touched; zero when it has no date.
pub open spec fn age_of(age_minutes: Option<i64>) -> int {
    match age_minutes {
        Some(m) => m as int,
        None => 0,
    }
}

/// Kinds raised for a row, in the order they are checked: a plan left
/// planned for more than a day, a blank licence proof, missing HD, a plan
/// selected or in progress for more than six hours.
pub open spec fn audit_kinds(
    status: PlanStatus,
    age_minutes: Option<i64>,
    license_proof: Option<String>,
    hd_missing: i64,
) -> Seq<PlanAuditKind> {
    let age = age_of(age_minutes);
    (if status == PlanStatus::Planned && age > 1440 {
        seq![PlanAuditKind::Expired]
    } else {
        Seq::empty()
    }) + (if blank(license_proof) {
        seq![PlanAuditKind::MissingLicense]
    } else {
        Seq::empty()
    }) + (if hd_missing != 0 {
        seq![PlanAuditKind::HdMissing]
    } else {
        Seq::empty()
    }) + (if (status == PlanStatus::InProgress || status == PlanStatus::Selected) && age > 360 {
        seq![PlanAuditKind::Stuck]
    } else {
        Seq::empty()
    })
}

pub open spec fn note_of(k: PlanAuditKind) -> Option<Seq<char>> {
    match k {
        PlanAuditKind::Expired => Some("plano aguardando seleção há mais de 24h"@),
        PlanAuditKind::MissingLicense => Some("license_proof ausente"@),
        PlanAuditKind::HdMissing => None,
        PlanAuditKind::Stuck => Some("plano bloqueado há mais de 6h"@),
    }
}

fn flag(kind: PlanAuditKind) -> (f: PlanAuditFlag)
    ensures
        f.kind == kind,
        match note_of(kind) {
            Some(n) => f.note is Some && f.note.unwrap()@ == n,
            None => f.note is None,
        },
{
    let note = match kind {
        PlanAuditKind::Expired => Some(owned("plano aguardando seleção há mais de 24h")),
        PlanAuditKind::MissingLicense => Some(owned("license_proof ausente")),
        PlanAuditKind::HdMissing => None,
        PlanAuditKind::Stuck => Some(owned("plano bloqueado há mais de 6h")),
    };
    PlanAuditFlag { kind, note }
}

/// The status of a stored row and the flags the audit raises for it. The
/// age is in whole minutes; a plan's age in hours exceeds 24 (or 6) exactly
/// when its age in minutes exceeds 1440 (or 360).
pub fn audit_row(
    status_text: &str,
    age_minutes: Option<i64>,
    license_proof: &Option<String>,
    hd_missing: i64,
) -> (r: (PlanStatus, Vec<PlanAuditFlag>))
    ensures
        r.0 == row_status(status_text@),
        r.1@.len() == audit_kinds(r.0, age_minutes, *license_proof, hd_missing).len(),
        forall|i: int|
            0 <= i < r.1@.len() ==> {
                let k = audit_kinds(r.0, age_minutes, *license_proof, hd_missing)[i];
                &&& (#[trigger] r.1@[i]).kind == k
                &&& match note_of(k) {
                    Some(n) => r.1@[i].note is Some && r.1@[i].note.unwrap()@ == n,
                    None => r.1@[i].note is None,
                }
            },
{
    let status = match PlanStatus::parse(status_text) {
        Ok(s) => s,
        Err(_) => PlanStatus::Planned,
    };
    let age: i64 = match age_minutes {
        Some(m) => m,
        None => 0,
    };
    let ghost kinds = audit_kinds(status, age_minutes, *license_proof, hd_missing);
    let mut flags: Vec<PlanAuditFlag> = Vec::new();
    let ghost mut expected: Seq<PlanAuditKind> = Seq::empty();
    if status == PlanStatus::Planned && age > 1440 {
        flags.push(flag(PlanAuditKind::Expired));
        proof { expected = expected.push(PlanAuditKind::Expired); }
    }
    let lic = match license_proof {
        Some(v) => {
            let cs = crate::text::chars_of(v.as_str());
            let (a, b) = crate::text::trim_bounds(&cs);
            a == b
        },
        None => true,
    };
    if lic {
        flags.push(flag(PlanAuditKind::MissingLicense));
        proof { expected = expected.push(PlanAuditKind::MissingLicense); }
    }
    if hd_missing != 0 {
        flags.push(flag(PlanAuditKind::HdMissing));
        proof { expected = expected.push(PlanAuditKind::HdMissing); }
    }
    if (status == PlanStatus::InProgress || status == PlanStatus::Selected) && age > 360 {
        flags.push(flag(PlanAuditKind::Stuck));
        proof { expected = expected.push(PlanAuditKind::Stuck); }
    }
    assert(expected =~= kinds);
    assert(forall|i: int| 0 <= i < flags@.len() ==> flags@[i].kind == expected[i]);
    (status, flags)
}

} // verus!
