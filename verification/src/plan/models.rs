//! Plan statuses, audit kinds and blacklist entries.
use vstd::prelude::*;

use crate::text::{concat2, join, join_strings, owned, str_eq, views};
use crate::time::UtcTimestamp;

verus! {

/// Where a plan stands in its life.
#[derive(Clone, Copy, Debug, PartialEq, Eq, Structural)]
pub enum PlanStatus {
    Planned,
    Selected,
    InProgress,
    Downloaded,
    Edited,
    Ready,
    Failed,
    Archived,
}

pub open spec fn status_text(s: PlanStatus) -> Seq<char> {
    match s {
        PlanStatus::Planned => "planned"@,
        PlanStatus::Selected => "selected"@,
        PlanStatus::InProgress => "in_progress"@,
        PlanStatus::Downloaded => "downloaded"@,
        PlanStatus::Edited => "edited"@,
        PlanStatus::Ready => "ready"@,
        PlanStatus::Failed => "failed"@,
        PlanStatus::Archived => "archived"@,
    }
}

pub open spec fn is_terminal(s: PlanStatus) -> bool {
    s == PlanStatus::Ready || s == PlanStatus::Failed || s == PlanStatus::Archived
}

/// The status whose text is `t`, if any.
pub open spec fn status_of_text(t: Seq<char>) -> Option<PlanStatus> {
    if t == "planned"@ {
        Some(PlanStatus::Planned)
    } else if t == "selected"@ {
        Some(PlanStatus::Selected)
    } else if t == "in_progress"@ {
        Some(PlanStatus::InProgress)
    } else if t == "downloaded"@ {
        Some(PlanStatus::Downloaded)
    } else if t == "edited"@ {
        Some(PlanStatus::Edited)
    } else if t == "ready"@ {
        Some(PlanStatus::Ready)
    } else if t == "failed"@ {
        Some(PlanStatus::Failed)
    } else if t == "archived"@ {
        Some(PlanStatus::Archived)
    } else {
        None
    }
}

impl PlanStatus {
    /// Snake-case name of the status.
    pub fn as_str(&self) -> (r: &'static str)
        ensures
            r@ == status_text(*self),
    {
        match self {
            PlanStatus::Planned => "planned",
            PlanStatus::Selected => "selected",
            PlanStatus::InProgress => "in_progress",
            PlanStatus::Downloaded => "downloaded",
            PlanStatus::Edited => "edited",
            PlanStatus::Ready => "ready",
            PlanStatus::Failed => "failed",
            PlanStatus::Archived => "archived",
        }
    }

    /// Ready, failed and archived plans go no further.
    pub fn terminal(&self) -> (r: bool)
        ensures
            r == is_terminal(*self),
    {
        match self {
            PlanStatus::Ready | PlanStatus::Failed | PlanStatus::Archived => true,
            _ => false,
        }
    }

    /// The status named by `s`, or the message `unknown plan status: s`.
    pub fn parse(s: &str) -> (r: Result<PlanStatus, String>)
        ensures
            match status_of_text(s@) {
                Some(st) => r == Ok::<PlanStatus, String>(st),
                None => r is Err && r->Err_0@ == "unknown plan status: "@ + s@,
            },
    {
        if str_eq(s, "planned") {
            Ok(PlanStatus::Planned)
        } else if str_eq(s, "selected") {
            Ok(PlanStatus::Selected)
        } else if str_eq(s, "in_progress") {
            Ok(PlanStatus::InProgress)
        } else if str_eq(s, "downloaded") {
            Ok(PlanStatus::Downloaded)
        } else if str_eq(s, "edited") {
            Ok(PlanStatus::Edited)
        } else if str_eq(s, "ready") {
            Ok(PlanStatus::Ready)
        } else if str_eq(s, "failed") {
            Ok(PlanStatus::Failed)
        } else if str_eq(s, "archived") {
            Ok(PlanStatus::Archived)
        } else {
            Err(concat2("unknown plan status: ", s))
        }
    }
}

/// Reading back the name of a status gives the status.
pub proof fn law_status_text_round_trip(s: PlanStatus)
    ensures
        status_of_text(status_text(s)) == Some(s),
{
    reveal_strlit("planned");
    reveal_strlit("selected");
    reveal_strlit("in_progress");
    reveal_strlit("downloaded");
    reveal_strlit("edited");
    reveal_strlit("ready");
    reveal_strlit("failed");
    reveal_strlit("archived");
    assert("planned"@[0] == 'p');
    assert("selected"@[0] == 's');
    assert("in_progress"@[0] == 'i');
    assert("downloaded"@[0] == 'd');
    assert("edited"@[0] == 'e');
    assert("ready"@[0] == 'r');
    assert("failed"@[0] == 'f');
    assert("archived"@[0] == 'a');
}

/// Why a plan was flagged by the store audit.
#[derive(Clone, Copy, Debug, PartialEq, Eq, Structural)]
pub enum PlanAuditKind {
    Expired,
    MissingLicense,
    HdMissing,
    Stuck,
}

pub open spec fn audit_kind_text(k: PlanAuditKind) -> Seq<char> {
    match k {
        PlanAuditKind::Expired => "expired"@,
        PlanAuditKind::MissingLicense => "missing_license"@,
        PlanAuditKind::HdMissing => "hd_missing"@,
        PlanAuditKind::Stuck => "stuck"@,
    }
}

impl PlanAuditKind {
    /// Snake-case name of the kind.
    pub fn label(&self) -> (r: &'static str)
        ensures
            r@ == audit_kind_text(*self),
    {
        match self {
            PlanAuditKind::Expired => "expired",
            PlanAuditKind::MissingLicense => "missing_license",
            PlanAuditKind::HdMissing => "hd_missing",
            PlanAuditKind::Stuck => "stuck",
        }
    }
}

/// A domain barred from discovery.
#[derive(Clone, Debug)]
pub struct PlanBlacklistEntry {
    pub domain: String,
    pub reason: Option<String>,
    pub created_at: Option<UtcTimestamp>,
}

/// A plan's tags as stored: joined by commas, `None` when there are none.
pub fn serialize_tags(tags: &Vec<String>) -> (r: Option<String>)
    ensures
        tags@.len() == 0 ==> r is None,
        tags@.len() > 0 ==> (r matches Some(t) && t@ == join(views(tags@), seq![','])),
{
    if tags.len() == 0 {
        None
    } else {
        proof {
            reveal_strlit(",");
            assert(","@ =~= seq![',']);
            assert(tags@.map_values(|x: String| x@) =~= views(tags@));
        }
        Some(join_strings(tags, ","))
    }
}

} // verus!
