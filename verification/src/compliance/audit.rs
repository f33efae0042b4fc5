//! Audit of consent and licensing records: what proof, source, expiry and
//! verification each plan's records lack.
use vstd::prelude::*;

use crate::text::{
    chars_of, compare_text, concat2, i64_to_decimal, join, join_strings, lemma_text_lt_irreflexive,
    lemma_text_lt_transitive, lemma_text_lt_trichotomy, owned, signed_decimal, str_eq, text_lt,
    trim, trim_bounds, views,
};
use crate::time::{spec_display_utc, trunc_div, UtcTimestamp};

verus! {

/// One consent or licensing record.
#[derive(Clone, Debug)]
pub struct ConsentLogEntry {
    pub plan_id: String,
    pub license_proof: Option<String>,
    pub consent_source: Option<String>,
    pub verified_at: UtcTimestamp,
    pub expires_at: Option<UtcTimestamp>,
    pub jurisdiction: Option<String>,
    pub notes: Option<String>,
}

/// Absent, or only whitespace.
pub open spec fn blank(o: Option<String>) -> bool {
    match o {
        Some(v) => trim(v@).len() == 0,
        None => true,
    }
}

fn is_blank(o: &Option<String>) -> (r: bool)
    ensures
        r == blank(*o),
{
    match o {
        Some(v) => {
            let cs = chars_of(v.as_str());
            let (a, b) = trim_bounds(&cs);
            a == b
        },
        None => true,
    }
}

impl ConsentLogEntry {
    /// No proof, or a blank one.
    pub fn license_proof_is_empty(&self) -> (r: bool)
        ensures
            r == blank(self.license_proof),
    {
        is_blank(&self.license_proof)
    }

    /// No consent source, or a blank one.
    pub fn consent_source_is_empty(&self) -> (r: bool)
        ensures
            r == blank(self.consent_source),
    {
        is_blank(&self.consent_source)
    }
}

/// Kinds of gaps the audit reports.
#[derive(Clone, Copy, Debug, PartialEq, Eq, Structural)]
pub enum LicenseAuditFindingKind {
    MissingProof,
    MissingConsentSource,
    MissingExpiry,
    ExpiredConsent,
    ExpiringSoon,
    VerificationStale,
    DuplicatePlan,
}

/// One gap found for a plan.
#[derive(Clone, Debug)]
pub struct LicenseAuditFinding {
    pub plan_id: String,
    pub kind: LicenseAuditFindingKind,
    pub message: String,
    pub reference_time: UtcTimestamp,
    pub source: String,
}

/// A finding as plain values.
pub struct FindingSpec {
    pub plan_id: Seq<char>,
    pub kind: LicenseAuditFindingKind,
    pub message: Seq<char>,
    pub reference_time: UtcTimestamp,
    pub source: Seq<char>,
}

impl View for LicenseAuditFinding {
    type V = FindingSpec;

    open spec fn view(&self) -> FindingSpec {
        FindingSpec {
            plan_id: self.plan_id@,
            kind: self.kind,
            message: self.message@,
            reference_time: self.reference_time,
            source: self.source@,
        }
    }
}

/// A record and the file it came from.
#[derive(Clone, Debug)]
pub struct ConsentRecord {
    pub entry: ConsentLogEntry,
    pub source: String,
}

/// The records of one plan.
#[derive(Clone, Debug)]
pub struct PlanConsentGroup {
    pub plan_id: String,
    pub records: Vec<ConsentRecord>,
}

/// Records grouped by plan, the plans kept in ascending order of their ids.
pub struct ConsentLedger {
    groups: Vec<PlanConsentGroup>,
    total_entries: usize,
}

pub open spec fn groups_sorted(g: Seq<PlanConsentGroup>) -> bool {
    forall|i: int, j: int| 0 <= i < j < g.len() ==> text_lt(#[trigger] g[i].plan_id@, #[trigger] g[j].plan_id@)
}

pub open spec fn groups_consistent(g: Seq<PlanConsentGroup>) -> bool {
    forall|i: int, k: int|
        0 <= i < g.len() && 0 <= k < g[i].records@.len() ==> (#[trigger] g[i].records@[k]).entry.plan_id@
            == g[i].plan_id@
}

pub open spec fn groups_nonempty(g: Seq<PlanConsentGroup>) -> bool {
    forall|i: int| 0 <= i < g.len() ==> (#[trigger] g[i]).records@.len() > 0
}

/// Number of records over all groups.
pub open spec fn record_count(g: Seq<PlanConsentGroup>) -> nat
    decreases g.len(),
{
    if g.len() == 0 {
        0
    } else {
        record_count(g.drop_last()) + g.last().records@.len()
    }
}

/// `new` is `old` with `rec` appended to the group at `p`, which is the
/// group of its plan; every other group unchanged.
pub open spec fn appended_at(old: Seq<PlanConsentGroup>, new: Seq<PlanConsentGroup>, rec: ConsentRecord, p: int) -> bool {
    &&& 0 <= p < old.len()
    &&& old[p].plan_id@ == rec.entry.plan_id@
    &&& new.len() == old.len()
    &&& new[p].plan_id == old[p].plan_id
    &&& new[p].records@ == old[p].records@.push(rec)
    &&& forall|k: int| 0 <= k < old.len() && k != p ==> #[trigger] new[k] == old[k]
}

/// `new` is `old` with a new group for `rec`'s plan, holding `rec` alone,
/// inserted at `p`; no group of `old` had that plan.
pub open spec fn inserted_at(old: Seq<PlanConsentGroup>, new: Seq<PlanConsentGroup>, rec: ConsentRecord, p: int) -> bool {
    &&& 0 <= p <= old.len()
    &&& forall|k: int| 0 <= k < old.len() ==> (#[trigger] old[k]).plan_id@ != rec.entry.plan_id@
    &&& new.len() == old.len() + 1
    &&& new[p].plan_id@ == rec.entry.plan_id@
    &&& new[p].records@ == seq![rec]
    &&& forall|k: int| 0 <= k < p ==> #[trigger] new[k] == old[k]
    &&& forall|k: int| p < k < new.len() ==> #[trigger] new[k] == old[k - 1]
}

/// The groups after filing `rec`: appended to the group of its plan, or in
/// a new group of its own.
pub open spec fn filed_at(old: Seq<PlanConsentGroup>, new: Seq<PlanConsentGroup>, rec: ConsentRecord, p: int) -> bool {
    appended_at(old, new, rec, p) || inserted_at(old, new, rec, p)
}

impl ConsentLedger {
    pub closed spec fn spec_groups(self) -> Seq<PlanConsentGroup> {
        self.groups@
    }

    pub closed spec fn spec_total(self) -> nat {
        self.total_entries as nat
    }

    pub open spec fn wf(self) -> bool {
        &&& groups_sorted(self.spec_groups())
        &&& groups_consistent(self.spec_groups())
        &&& groups_nonempty(self.spec_groups())
    }

    /// An empty ledger.
    pub fn new() -> (r: Self)
        ensures
            r.wf(),
            r.spec_groups().len() == 0,
            r.spec_total() == 0,
    {
        ConsentLedger { groups: Vec::new(), total_entries: 0 }
    }

    /// Number of records added.
    pub fn total_entries(&self) -> (r: usize)
        ensures
            r == self.spec_total(),
    {
        self.total_entries
    }

    /// The groups, in ascending order of plan id.
    pub fn groups(&self) -> (r: &Vec<PlanConsentGroup>)
        ensures
            r@ == self.spec_groups(),
    {
        &self.groups
    }

    /// Files a record under its plan: appended to the plan's group, or in a
    /// new group at the place that keeps the plans in order.
    #[verifier::spinoff_prover]
    pub fn add(&mut self, record: ConsentRecord)
        requires
            old(self).wf(),
            old(self).spec_total() < usize::MAX,
        ensures
            final(self).wf(),
            final(self).spec_total() == old(self).spec_total() + 1,
            exists|p: int|
                0 <= p < final(self).spec_groups().len() && final(self).spec_groups()[p].plan_id@
                    == record.entry.plan_id@ && final(self).spec_groups()[p].records@.last()
                    == record,
            forall|q: int|
                0 <= q < old(self).spec_groups().len() ==> exists|p: int|
                    0 <= p < final(self).spec_groups().len() && (#[trigger] final(self).spec_groups()[p]).plan_id@
                        == (#[trigger] old(self).spec_groups()[q]).plan_id@,
            exists|p: int| #[trigger] filed_at(old(self).spec_groups(), final(self).spec_groups(), record, p),
    {
        let key = chars_of(record.entry.plan_id.as_str());
        let n = self.groups.len();
        let mut p: usize = 0;
        while p < n
            invariant
                n == self.groups@.len(),
                p <= n,
                key@ == record.entry.plan_id@,
                forall|j: int| 0 <= j < p ==> text_lt(#[trigger] self.groups@[j].plan_id@, key@),
            ensures
                p <= n,
                forall|j: int| 0 <= j < p ==> text_lt(#[trigger] self.groups@[j].plan_id@, key@),
                p < n ==> !text_lt(self.groups@[p as int].plan_id@, key@),
            decreases n - p,
        {
            let gk = chars_of(self.groups[p].plan_id.as_str());
            let c = compare_text(&gk, &key);
            if c >= 0 {
                break;
            }
            p = p + 1;
        }
        let found = if p < n {
            let gk = chars_of(self.groups[p].plan_id.as_str());
            compare_text(&gk, &key) == 0
        } else {
            false
        };
        let ghost old_groups = self.groups@;
        let ghost rec = record;
        if found {
            let mut g = self.groups.remove(p);
            let ghost before = g.records@;
            g.records.push(record);
            self.groups.insert(p, g);
            assert(appended_at(old_groups, self.groups@, rec, p as int)) by {
                assert(self.groups@[p as int].records@ == before.push(rec));
                assert(before == old_groups[p as int].records@);
                assert forall|k: int| 0 <= k < old_groups.len() && k != p implies #[trigger] self.groups@[k]
                    == old_groups[k] by {
                    if k < p {
                    } else {
                    }
                }
            }
            assert(filed_at(old_groups, self.groups@, rec, p as int));
            assert forall|k: int| 0 <= k < self.groups@.len() implies (#[trigger] self.groups@[k]).plan_id@
                == old_groups[k].plan_id@ by {
                if k == p {
                } else {
                    assert(self.groups@[k] == old_groups[k]);
                }
            }
            assert forall|i: int, j: int|
                0 <= i < j < self.groups@.len() implies text_lt(
                #[trigger] self.groups@[i].plan_id@,
                #[trigger] self.groups@[j].plan_id@,
            ) by {
                assert(self.groups@[i].plan_id@ == old_groups[i].plan_id@);
                assert(self.groups@[j].plan_id@ == old_groups[j].plan_id@);
            }
            assert forall|i: int, k: int|
                0 <= i < self.groups@.len() && 0 <= k < self.groups@[i].records@.len() implies (
                #[trigger] self.groups@[i].records@[k]).entry.plan_id@ == self.groups@[i].plan_id@ by {
                if i != p {
                    assert(self.groups@[i] == old_groups[i]);
                }
            }
            assert forall|q: int|
                0 <= q < old_groups.len() implies exists|r: int|
                    0 <= r < self.groups@.len() && (#[trigger] self.groups@[r]).plan_id@
                        == (#[trigger] old_groups[q]).plan_id@ by {
                assert(self.groups@[q].plan_id@ == old_groups[q].plan_id@);
            }
        } else {
            let mut records = Vec::new();
            let plan_id = record.entry.plan_id.clone();
            records.push(record);
            let g = PlanConsentGroup { plan_id, records };
            self.groups.insert(p, g);
            assert forall|k: int| 0 <= k < old_groups.len() implies (#[trigger] old_groups[k]).plan_id@
                != rec.entry.plan_id@ by {
                lemma_text_lt_irreflexive(key@);
                if k < p {
                    assert(text_lt(old_groups[k].plan_id@, key@));
                } else {
                    lemma_text_lt_trichotomy(old_groups[p as int].plan_id@, key@);
                    if k > p {
                        assert(text_lt(old_groups[p as int].plan_id@, old_groups[k].plan_id@));
                        lemma_text_lt_transitive(key@, old_groups[p as int].plan_id@, old_groups[k].plan_id@);
                    }
                }
            }
            assert(inserted_at(old_groups, self.groups@, rec, p as int)) by {
                assert(self.groups@[p as int].records@ =~= seq![rec]);
                assert forall|k: int| 0 <= k < p implies #[trigger] self.groups@[k] == old_groups[k] by {}
                assert forall|k: int| p < k < self.groups@.len() implies #[trigger] self.groups@[k] == old_groups[k
                    - 1] by {}
            }
            assert(filed_at(old_groups, self.groups@, rec, p as int));
            assert forall|i: int, j: int|
                0 <= i < j < self.groups@.len() implies text_lt(
                #[trigger] self.groups@[i].plan_id@,
                #[trigger] self.groups@[j].plan_id@,
            ) by {
                if j < p {
                    assert(self.groups@[i] == old_groups[i]);
                    assert(self.groups@[j] == old_groups[j]);
                } else if j == p {
                    assert(self.groups@[i] == old_groups[i]);
                } else if i == p {
                    assert(self.groups@[j] == old_groups[j - 1]);
                    if p < n {
                        lemma_text_lt_trichotomy(old_groups[p as int].plan_id@, key@);
                        assert(text_lt(key@, old_groups[p as int].plan_id@));
                        if j - 1 > p {
                            lemma_text_lt_transitive(key@, old_groups[p as int].plan_id@, old_groups[j - 1].plan_id@);
                        }
                    }
                } else if i < p {
                    assert(self.groups@[i] == old_groups[i]);
                    assert(self.groups@[j] == old_groups[j - 1]);
                } else {
                    assert(self.groups@[i] == old_groups[i - 1]);
                    assert(self.groups@[j] == old_groups[j - 1]);
                }
            }
            assert forall|q: int|
                0 <= q < old_groups.len() implies exists|r: int|
                    0 <= r < self.groups@.len() && (#[trigger] self.groups@[r]).plan_id@
                        == (#[trigger] old_groups[q]).plan_id@ by {
                if q < p {
                    assert(self.groups@[q] == old_groups[q]);
                } else {
                    assert(self.groups@[q + 1] == old_groups[q]);
                }
            }
        }
        self.total_entries = self.total_entries + 1;
        assert(self.groups@[p as int].plan_id@ == record.entry.plan_id@);
        assert(self.groups@[p as int].records@.last() == record);
        assert forall|q: int|
            0 <= q < old_groups.len() implies exists|r: int|
                0 <= r < self.groups@.len() && (#[trigger] self.groups@[r]).plan_id@
                    == (#[trigger] old_groups[q]).plan_id@ by {
            if found || q < p {
                assert(self.groups@[q].plan_id@ == old_groups[q].plan_id@);
            } else {
                assert(self.groups@[q + 1].plan_id@ == old_groups[q].plan_id@);
            }
        }
    }
}

/// Grace before expiry and maximum age of a verification, in seconds.
#[derive(Clone, Copy, Debug)]
pub struct LicenseAuditor {
    expiry_grace_secs: i64,
    verification_max_age_secs: i64,
}

/// Counts of findings by kind.
#[derive(Clone, Copy, Debug)]
pub struct FindingCounts {
    pub missing_proof: usize,
    pub missing_consent_source: usize,
    pub missing_expiry: usize,
    pub expired_consent: usize,
    pub expiring_soon: usize,
    pub verification_stale: usize,
    pub duplicate_plan: usize,
}

pub open spec fn count_of(c: FindingCounts, k: LicenseAuditFindingKind) -> usize {
    match k {
        LicenseAuditFindingKind::MissingProof => c.missing_proof,
        LicenseAuditFindingKind::MissingConsentSource => c.missing_consent_source,
        LicenseAuditFindingKind::MissingExpiry => c.missing_expiry,
        LicenseAuditFindingKind::ExpiredConsent => c.expired_consent,
        LicenseAuditFindingKind::ExpiringSoon => c.expiring_soon,
        LicenseAuditFindingKind::VerificationStale => c.verification_stale,
        LicenseAuditFindingKind::DuplicatePlan => c.duplicate_plan,
    }
}

impl FindingCounts {
    /// The count for a kind (zero when none was found).
    pub fn get(&self, kind: LicenseAuditFindingKind) -> (r: usize)
        ensures
            r == count_of(*self, kind),
    {
        match kind {
            LicenseAuditFindingKind::MissingProof => self.missing_proof,
            LicenseAuditFindingKind::MissingConsentSource => self.missing_consent_source,
            LicenseAuditFindingKind::MissingExpiry => self.missing_expiry,
            LicenseAuditFindingKind::ExpiredConsent => self.expired_consent,
            LicenseAuditFindingKind::ExpiringSoon => self.expiring_soon,
            LicenseAuditFindingKind::VerificationStale => self.verification_stale,
            LicenseAuditFindingKind::DuplicatePlan => self.duplicate_plan,
        }
    }
}

/// Summary of an audit.
#[derive(Clone, Copy, Debug)]
pub struct LicenseAuditSummary {
    pub total_entries: usize,
    pub unique_plans: usize,
    pub findings_by_kind: FindingCounts,
}

/// Summary and findings, ordered by plan id.
#[derive(Clone, Debug)]
pub struct LicenseAuditReport {
    pub summary: LicenseAuditSummary,
    pub findings: Vec<LicenseAuditFinding>,
}

pub open spec fn finding(
    pid: Seq<char>,
    kind: LicenseAuditFindingKind,
    message: Seq<char>,
    t: UtcTimestamp,
    source: Seq<char>,
) -> FindingSpec {
    FindingSpec { plan_id: pid, kind, message, reference_time: t, source }
}

pub open spec fn display_of(t: UtcTimestamp) -> Seq<char> {
    spec_display_utc(t.spec_secs(), t.spec_nanos())
}

/// Findings for one record, in the order they are checked.
pub open spec fn record_findings(
    pid: Seq<char>,
    rec: ConsentRecord,
    now: UtcTimestamp,
    grace: i64,
    max_age: i64,
) -> Seq<FindingSpec> {
    let e = rec.entry;
    let src = rec.source@;
    let proof = if blank(e.license_proof) {
        seq![
            finding(
                pid,
                LicenseAuditFindingKind::MissingProof,
                "Registro não possui license_proof"@,
                e.verified_at,
                src,
            ),
        ]
    } else {
        Seq::empty()
    };
    let source = if blank(e.consent_source) {
        seq![
            finding(
                pid,
                LicenseAuditFindingKind::MissingConsentSource,
                "Registro não informa consent_source"@,
                e.verified_at,
                src,
            ),
        ]
    } else {
        Seq::empty()
    };
    let expiry = match e.expires_at {
        Some(x) => if x.total_nanos() <= now.total_nanos() {
            seq![
                finding(
                    pid,
                    LicenseAuditFindingKind::ExpiredConsent,
                    "Consentimento expirado em "@ + display_of(x),
                    x,
                    src,
                ),
            ]
        } else if x.total_nanos() - now.total_nanos() <= grace * 1_000_000_000 {
            seq![
                finding(
                    pid,
                    LicenseAuditFindingKind::ExpiringSoon,
                    "Consentimento expira em "@ + display_of(x),
                    x,
                    src,
                ),
            ]
        } else {
            Seq::empty()
        },
        None => seq![
            finding(
                pid,
                LicenseAuditFindingKind::MissingExpiry,
                "Registro não define expires_at"@,
                e.verified_at,
                src,
            ),
        ],
    };
    let stale = if now.total_nanos() - e.verified_at.total_nanos() > max_age * 1_000_000_000 {
        seq![
            finding(
                pid,
                LicenseAuditFindingKind::VerificationStale,
                "Verificação ("@ + display_of(e.verified_at) + ") ultrapassa "@ + signed_decimal(
                    trunc_div(max_age as int, 86400),
                ) + " dias"@,
                e.verified_at,
                src,
            ),
        ]
    } else {
        Seq::empty()
    };
    proof + source + expiry + stale
}


proof fn lemma_kind_count_concat(a: Seq<FindingSpec>, b: Seq<FindingSpec>, k: LicenseAuditFindingKind)
    ensures
        kind_count(a + b, k) == kind_count(a, k) + kind_count(b, k),
    decreases b.len(),
{
    if b.len() > 0 {
        lemma_kind_count_concat(a, b.drop_last(), k);
        assert((a + b).drop_last() =~= a + b.drop_last());
    } else {
        assert(a + b =~= a);
    }
}

proof fn lemma_kind_count_single(f: FindingSpec, k: LicenseAuditFindingKind)
    ensures
        kind_count(seq![f], k) == (if f.kind == k {
            1nat
        } else {
            0nat
        }),
{
    assert(seq![f].drop_last() =~= Seq::<FindingSpec>::empty());
    assert(kind_count(Seq::<FindingSpec>::empty(), k) == 0);
    assert(seq![f].last() == f);
}

proof fn lemma_record_kind_count(
    pid: Seq<char>,
    rec: ConsentRecord,
    now: UtcTimestamp,
    grace: i64,
    max_age: i64,
    k: LicenseAuditFindingKind,
)
    ensures
        kind_count(record_findings(pid, rec, now, grace, max_age), k) == (if blank(rec.entry.license_proof)
            && k == LicenseAuditFindingKind::MissingProof {
            1nat
        } else {
            0nat
        }) + (if blank(rec.entry.consent_source) && k == LicenseAuditFindingKind::MissingConsentSource {
            1nat
        } else {
            0nat
        }) + (match rec.entry.expires_at {
            Some(x) => if x.total_nanos() <= now.total_nanos() {
                if k == LicenseAuditFindingKind::ExpiredConsent {
                    1nat
                } else {
                    0nat
                }
            } else if x.total_nanos() - now.total_nanos() <= (grace as int) * 1_000_000_000 {
                if k == LicenseAuditFindingKind::ExpiringSoon {
                    1nat
                } else {
                    0nat
                }
            } else {
                0nat
            },
            None => if k == LicenseAuditFindingKind::MissingExpiry {
                1nat
            } else {
                0nat
            },
        }) + (if now.total_nanos() - rec.entry.verified_at.total_nanos() > (max_age as int) * 1_000_000_000
            && k == LicenseAuditFindingKind::VerificationStale {
            1nat
        } else {
            0nat
        }),
{
    let e = rec.entry;
    let src = rec.source@;
    let proof_part = if blank(e.license_proof) {
        seq![
            finding(
                pid,
                LicenseAuditFindingKind::MissingProof,
                "Registro não possui license_proof"@,
                e.verified_at,
                src,
            ),
        ]
    } else {
        Seq::empty()
    };
    let source_part = if blank(e.consent_source) {
        seq![
            finding(
                pid,
                LicenseAuditFindingKind::MissingConsentSource,
                "Registro não informa consent_source"@,
                e.verified_at,
                src,
            ),
        ]
    } else {
        Seq::empty()
    };
    let expiry_part = match e.expires_at {
        Some(x) => if x.total_nanos() <= now.total_nanos() {
            seq![
                finding(
                    pid,
                    LicenseAuditFindingKind::ExpiredConsent,
                    "Consentimento expirado em "@ + display_of(x),
                    x,
                    src,
                ),
            ]
        } else if x.total_nanos() - now.total_nanos() <= (grace as int) * 1_000_000_000 {
            seq![
                finding(
                    pid,
                    LicenseAuditFindingKind::ExpiringSoon,
                    "Consentimento expira em "@ + display_of(x),
                    x,
                    src,
                ),
            ]
        } else {
            Seq::empty()
        },
        None => seq![
            finding(
                pid,
                LicenseAuditFindingKind::MissingExpiry,
                "Registro não define expires_at"@,
                e.verified_at,
                src,
            ),
        ],
    };
    let stale_part = if now.total_nanos() - e.verified_at.total_nanos() > (max_age as int) * 1_000_000_000 {
        seq![
            finding(
                pid,
                LicenseAuditFindingKind::VerificationStale,
                "Verificação ("@ + display_of(e.verified_at) + ") ultrapassa "@ + signed_decimal(
                    trunc_div(max_age as int, 86400),
                ) + " dias"@,
                e.verified_at,
                src,
            ),
        ]
    } else {
        Seq::empty()
    };
    assert(record_findings(pid, rec, now, grace, max_age) == proof_part + source_part + expiry_part + stale_part);
    lemma_kind_count_concat(proof_part + source_part + expiry_part, stale_part, k);
    lemma_kind_count_concat(proof_part + source_part, expiry_part, k);
    lemma_kind_count_concat(proof_part, source_part, k);
    assert(kind_count(Seq::<FindingSpec>::empty(), k) == 0);
    if proof_part.len() > 0 {
        lemma_kind_count_single(proof_part[0], k);
        assert(proof_part == seq![proof_part[0]]);
    }
    if source_part.len() > 0 {
        lemma_kind_count_single(source_part[0], k);
        assert(source_part == seq![source_part[0]]);
    }
    if expiry_part.len() > 0 {
        lemma_kind_count_single(expiry_part[0], k);
        assert(expiry_part == seq![expiry_part[0]]);
    }
    if stale_part.len() > 0 {
        lemma_kind_count_single(stale_part[0], k);
        assert(stale_part == seq![stale_part[0]]);
    }
}

/// A consent is reported as expiring soon exactly when it expires after the
/// audit's instant and no later than the expiry grace after it; the maximum
/// age of a verification plays no part.
pub proof fn law_expiring_soon_within_grace(
    pid: Seq<char>,
    rec: ConsentRecord,
    now: UtcTimestamp,
    grace: i64,
    max_age: i64,
)
    ensures
        kind_count(record_findings(pid, rec, now, grace, max_age), LicenseAuditFindingKind::ExpiringSoon) == match rec.entry.expires_at {
            Some(x) => if now.total_nanos() < x.total_nanos() && x.total_nanos() <= now.total_nanos() + grace * 1_000_000_000 {
                1nat
            } else {
                0nat
            },
            None => 0nat,
        },
{
    lemma_record_kind_count(pid, rec, now, grace, max_age, LicenseAuditFindingKind::ExpiringSoon);
}

/// Each record is judged on its own facts: it is reported expired exactly
/// when its expiry is not after the audit's instant, as lacking an expiry
/// exactly when it has none, and as stale exactly when its verification is
/// more than the maximum age before the audit (whatever the grace); each at
/// most once.
pub proof fn law_record_expiry_and_staleness(
    pid: Seq<char>,
    rec: ConsentRecord,
    now: UtcTimestamp,
    grace: i64,
    max_age: i64,
)
    ensures
        kind_count(record_findings(pid, rec, now, grace, max_age), LicenseAuditFindingKind::ExpiredConsent) == match rec.entry.expires_at {
            Some(x) => if x.total_nanos() <= now.total_nanos() {
                1nat
            } else {
                0nat
            },
            None => 0nat,
        },
        kind_count(record_findings(pid, rec, now, grace, max_age), LicenseAuditFindingKind::MissingExpiry) == if rec.entry.expires_at is None {
            1nat
        } else {
            0nat
        },
        kind_count(record_findings(pid, rec, now, grace, max_age), LicenseAuditFindingKind::VerificationStale) == if now.total_nanos() - rec.entry.verified_at.total_nanos() > (max_age as int) * 1_000_000_000 {
            1nat
        } else {
            0nat
        },
        kind_count(record_findings(pid, rec, now, grace, max_age), LicenseAuditFindingKind::MissingProof) == if blank(rec.entry.license_proof) {
            1nat
        } else {
            0nat
        },
        kind_count(record_findings(pid, rec, now, grace, max_age), LicenseAuditFindingKind::MissingConsentSource) == if blank(rec.entry.consent_source) {
            1nat
        } else {
            0nat
        },
{
    lemma_record_kind_count(pid, rec, now, grace, max_age, LicenseAuditFindingKind::ExpiredConsent);
    lemma_record_kind_count(pid, rec, now, grace, max_age, LicenseAuditFindingKind::MissingExpiry);
    lemma_record_kind_count(pid, rec, now, grace, max_age, LicenseAuditFindingKind::VerificationStale);
    lemma_record_kind_count(pid, rec, now, grace, max_age, LicenseAuditFindingKind::MissingProof);
    lemma_record_kind_count(pid, rec, now, grace, max_age, LicenseAuditFindingKind::MissingConsentSource);
}

/// Findings for the first `n` records of a group.
pub open spec fn records_findings(
    pid: Seq<char>,
    recs: Seq<ConsentRecord>,
    now: UtcTimestamp,
    grace: i64,
    max_age: i64,
) -> Seq<FindingSpec>
    decreases recs.len(),
{
    if recs.len() == 0 {
        Seq::empty()
    } else {
        records_findings(pid, recs.drop_last(), now, grace, max_age) + record_findings(
            pid,
            recs.last(),
            now,
            grace,
            max_age,
        )
    }
}

/// The non-blank proofs of the records, each kept once, in order of first appearance.
pub open spec fn distinct_proofs(recs: Seq<ConsentRecord>) -> Seq<Seq<char>>
    decreases recs.len(),
{
    if recs.len() == 0 {
        Seq::empty()
    } else {
        let d = distinct_proofs(recs.drop_last());
        let e = recs.last().entry;
        if blank(e.license_proof) || d.contains(e.license_proof.unwrap()@) {
            d
        } else {
            d.push(e.license_proof.unwrap()@)
        }
    }
}

/// All findings for a group: those of its records, then a duplicate finding
/// when its records name more than one proof.
pub open spec fn group_findings(
    g: PlanConsentGroup,
    now: UtcTimestamp,
    grace: i64,
    max_age: i64,
) -> Seq<FindingSpec> {
    let recs = g.records@;
    let d = distinct_proofs(recs);
    records_findings(g.plan_id@, recs, now, grace, max_age) + if d.len() > 1 {
        seq![
            finding(
                g.plan_id@,
                LicenseAuditFindingKind::DuplicatePlan,
                "Múltiplos license_proof encontrados: "@ + join(d, ", "@),
                recs[0].entry.verified_at,
                recs[0].source@,
            ),
        ]
    } else {
        Seq::empty()
    }
}

/// Findings for the first groups, concatenated.
pub open spec fn ledger_findings(
    gs: Seq<PlanConsentGroup>,
    now: UtcTimestamp,
    grace: i64,
    max_age: i64,
) -> Seq<FindingSpec>
    decreases gs.len(),
{
    if gs.len() == 0 {
        Seq::empty()
    } else {
        ledger_findings(gs.drop_last(), now, grace, max_age) + group_findings(
            gs.last(),
            now,
            grace,
            max_age,
        )
    }
}

/// Number of findings of a kind.
pub open spec fn kind_count(fs: Seq<FindingSpec>, k: LicenseAuditFindingKind) -> nat
    decreases fs.len(),
{
    if fs.len() == 0 {
        0
    } else {
        kind_count(fs.drop_last(), k) + if fs.last().kind == k {
            1nat
        } else {
            0nat
        }
    }
}

pub open spec fn finding_views(fs: Seq<LicenseAuditFinding>) -> Seq<FindingSpec> {
    fs.map_values(|f: LicenseAuditFinding| f@)
}

fn push_finding(
    findings: &mut Vec<LicenseAuditFinding>,
    plan_id: &str,
    kind: LicenseAuditFindingKind,
    message: String,
    reference_time: UtcTimestamp,
    source: &str,
)
    ensures
        finding_views(final(findings)@) == finding_views(old(findings)@).push(
            finding(plan_id@, kind, message@, reference_time, source@),
        ),
{
    let ghost before = finding_views(findings@);
    findings.push(
        LicenseAuditFinding {
            plan_id: owned(plan_id),
            kind,
            message,
            reference_time,
            source: owned(source),
        },
    );
    assert(finding_views(findings@) =~= before.push(
        finding(plan_id@, kind, message@, reference_time, source@),
    ));
}

/// The trimmed lines that hold records: neither blank nor `#` comments.
pub open spec fn record_lines_of(lines: Seq<Seq<char>>) -> Seq<Seq<char>>
    decreases lines.len(),
{
    if lines.len() == 0 {
        Seq::empty()
    } else {
        let rest = record_lines_of(lines.drop_last());
        let t = trim(lines.last());
        if t.len() == 0 || t[0] == '#' {
            rest
        } else {
            rest.push(t)
        }
    }
}

impl LicenseAuditor {
    pub closed spec fn spec_grace(self) -> i64 {
        self.expiry_grace_secs
    }

    pub closed spec fn spec_max_age(self) -> i64 {
        self.verification_max_age_secs
    }

    /// Whether a file holds consent logs: its extension is `json`, `jsonl`,
    /// `log` or `ndjson` (exactly).
    pub fn is_supported_log(path: &str) -> (r: bool)
        ensures
            r == (crate::text::extension(path@) matches Some(e) && (e == "json"@ || e == "jsonl"@
                || e == "log"@ || e == "ndjson"@)),
    {
        match crate::text::extension_of(path) {
            Some(e) => str_eq(e.as_str(), "json") || str_eq(e.as_str(), "jsonl") || str_eq(
                e.as_str(),
                "log",
            ) || str_eq(e.as_str(), "ndjson"),
            None => false,
        }
    }

    /// The records of a consent log: its lines trimmed, blank lines and `#`
    /// comments left out; each one is a JSON record.
    pub fn record_lines(content: &str) -> (r: Vec<String>)
        ensures
            views(r@) == record_lines_of(crate::text::pieces(content@, '\n')),
    {
        let lines = crate::text::split_pieces(content, '\n');
        let ghost lv = views(lines@);
        let mut out: Vec<String> = Vec::new();
        let mut i: usize = 0;
        while i < lines.len()
            invariant
                i <= lines@.len(),
                lv == views(lines@),
                views(out@) == record_lines_of(lv.take(i as int)),
            decreases lines@.len() - i,
        {
            assert(lv.take(i + 1).drop_last() =~= lv.take(i as int));
            assert(lv.take(i + 1).last() == lines@[i as int]@);
            let t = crate::text::trim_str(lines[i].as_str());
            let n = t.unicode_len();
            if n > 0 && t.get_char(0) != '#' {
                let ghost before = views(out@);
                out.push(t);
                assert(views(out@) =~= before.push(t@));
            }
            i = i + 1;
        }
        assert(lv.take(lines@.len() as int) =~= lv);
        out
    }

    /// An auditor with the given grace before expiry and maximum age of a
    /// verification, both in seconds.
    pub fn new(expiry_grace_secs: i64, verification_max_age_secs: i64) -> (r: Self)
        ensures
            r.spec_grace() == expiry_grace_secs,
            r.spec_max_age() == verification_max_age_secs,
    {
        LicenseAuditor { expiry_grace_secs, verification_max_age_secs }
    }

    fn record_checks(
        &self,
        findings: &mut Vec<LicenseAuditFinding>,
        plan_id: &str,
        rec: &ConsentRecord,
        now: &UtcTimestamp,
    )
        ensures
            finding_views(final(findings)@) == finding_views(old(findings)@) + record_findings(
                plan_id@,
                *rec,
                *now,
                self.spec_grace(),
                self.spec_max_age(),
            ),
    {
        let ghost before = finding_views(findings@);
        let e = &rec.entry;
        let src = rec.source.as_str();
        if e.license_proof_is_empty() {
            push_finding(
                findings,
                plan_id,
                LicenseAuditFindingKind::MissingProof,
                owned("Registro não possui license_proof"),
                e.verified_at,
                src,
            );
        }
        let ghost after_proof = finding_views(findings@);
        if e.consent_source_is_empty() {
            push_finding(
                findings,
                plan_id,
                LicenseAuditFindingKind::MissingConsentSource,
                owned("Registro não informa consent_source"),
                e.verified_at,
                src,
            );
        }
        let ghost after_source = finding_views(findings@);
        let now_ns = now.as_nanos();
        match &e.expires_at {
            Some(x) => {
                let x_ns = x.as_nanos();
                if x_ns <= now_ns {
                    let text = x.display();
                    push_finding(
                        findings,
                        plan_id,
                        LicenseAuditFindingKind::ExpiredConsent,
                        concat2("Consentimento expirado em ", text.as_str()),
                        *x,
                        src,
                    );
                } else if x_ns - now_ns <= (self.expiry_grace_secs as i128) * 1_000_000_000 {
                    let text = x.display();
                    push_finding(
                        findings,
                        plan_id,
                        LicenseAuditFindingKind::ExpiringSoon,
                        concat2("Consentimento expira em ", text.as_str()),
                        *x,
                        src,
                    );
                }
            },
            None => {
                push_finding(
                    findings,
                    plan_id,
                    LicenseAuditFindingKind::MissingExpiry,
                    owned("Registro não define expires_at"),
                    e.verified_at,
                    src,
                );
            },
        }
        let ghost after_expiry = finding_views(findings@);
        if now_ns - e.verified_at.as_nanos() > (self.verification_max_age_secs as i128)
            * 1_000_000_000 {
            let mut msg = owned("Verificação (");
            let text = e.verified_at.display();
            msg.append(text.as_str());
            msg.append(") ultrapassa ");
            let days: i64 = if self.verification_max_age_secs >= 0 {
                self.verification_max_age_secs / 86400
            } else {
                -((-(self.verification_max_age_secs as i128)) / 86400) as i64
            };
            let d = i64_to_decimal(days);
            msg.append(d.as_str());
            msg.append(" dias");
            push_finding(
                findings,
                plan_id,
                LicenseAuditFindingKind::VerificationStale,
                msg,
                e.verified_at,
                src,
            );
        }
        assert(finding_views(findings@) =~= before + record_findings(
            plan_id@,
            *rec,
            *now,
            self.spec_grace(),
            self.spec_max_age(),
        ));
    }

    fn group_checks(
        &self,
        findings: &mut Vec<LicenseAuditFinding>,
        g: &PlanConsentGroup,
        now: &UtcTimestamp,
    )
        requires
            g.records@.len() > 0,
        ensures
            finding_views(final(findings)@) == finding_views(old(findings)@) + group_findings(
                *g,
                *now,
                self.spec_grace(),
                self.spec_max_age(),
            ),
    {
        let ghost before = finding_views(findings@);
        let mut proofs: Vec<String> = Vec::new();
        let mut i: usize = 0;
        let ghost recs = g.records@;
        assert(recs.take(0) =~= Seq::<ConsentRecord>::empty());
        while i < g.records.len()
            invariant
                recs == g.records@,
                i <= recs.len(),
                finding_views(findings@) == before + records_findings(
                    g.plan_id@,
                    recs.take(i as int),
                    *now,
                    self.spec_grace(),
                    self.spec_max_age(),
                ),
                views(proofs@) == distinct_proofs(recs.take(i as int)),
            decreases recs.len() - i,
        {
            let rec = &g.records[i];
            self.record_checks(findings, g.plan_id.as_str(), rec, now);
            assert(recs.take(i + 1).drop_last() =~= recs.take(i as int));
            if !rec.entry.license_proof_is_empty() {
                match &rec.entry.license_proof {
                    Some(p) => {
                        let mut seen = false;
                        let mut k: usize = 0;
                        while k < proofs.len()
                            invariant
                                k <= proofs@.len(),
                                seen == (exists|m: int| 0 <= m < k && proofs@[m]@ == p@),
                            decreases proofs@.len() - k,
                        {
                            if str_eq(proofs[k].as_str(), p.as_str()) {
                                seen = true;
                            }
                            k = k + 1;
                        }
                        proof {
                            let d = views(proofs@);
                            if d.contains(p@) {
                                let m = choose|m: int| 0 <= m < d.len() && d[m] == p@;
                                assert(proofs@[m]@ == p@);
                            }
                            if seen {
                                let m = choose|m: int| 0 <= m < k && proofs@[m]@ == p@;
                                assert(d[m] == p@);
                            }
                        }
                        if !seen {
                            let ghost d0 = views(proofs@);
                            proofs.push(p.clone());
                            assert(views(proofs@) =~= d0.push(p@));
                        }
                    },
                    None => {},
                }
            }
            i = i + 1;
        }
        assert(recs.take(recs.len() as int) =~= recs);
        if proofs.len() > 1 {
            let joined = join_strings(&proofs, ", ");
            let first = &g.records[0];
            push_finding(
                findings,
                g.plan_id.as_str(),
                LicenseAuditFindingKind::DuplicatePlan,
                concat2("Múltiplos license_proof encontrados: ", joined.as_str()),
                first.entry.verified_at,
                first.source.as_str(),
            );
        }
        assert(finding_views(findings@) =~= before + group_findings(
            *g,
            *now,
            self.spec_grace(),
            self.spec_max_age(),
        ));
    }

    /// The audit of a ledger at instant `now`.
    pub fn build_report(&self, ledger: &ConsentLedger, now: UtcTimestamp) -> (r: LicenseAuditReport)
        requires
            ledger.wf(),
        ensures
            r.summary.total_entries == ledger.spec_total(),
            r.summary.unique_plans == ledger.spec_groups().len(),
            finding_views(r.findings@) == ledger_findings(
                ledger.spec_groups(),
                now,
                self.spec_grace(),
                self.spec_max_age(),
            ),
            forall|k: LicenseAuditFindingKind|
                count_of(r.summary.findings_by_kind, k) == kind_count(finding_views(r.findings@), k),
    {
        let groups = ledger.groups();
        let ghost gs = groups@;
        let mut findings: Vec<LicenseAuditFinding> = Vec::new();
        let mut i: usize = 0;
        assert(gs.take(0) =~= Seq::<PlanConsentGroup>::empty());
        assert(finding_views(findings@) =~= Seq::<FindingSpec>::empty());
        while i < groups.len()
            invariant
                gs == groups@,
                gs == ledger.spec_groups(),
                ledger.wf(),
                i <= gs.len(),
                finding_views(findings@) == ledger_findings(
                    gs.take(i as int),
                    now,
                    self.spec_grace(),
                    self.spec_max_age(),
                ),
            decreases gs.len() - i,
        {
            assert(gs[i as int].records@.len() > 0);
            self.group_checks(&mut findings, &groups[i], &now);
            assert(gs.take(i + 1).drop_last() =~= gs.take(i as int));
            i = i + 1;
        }
        assert(gs.take(gs.len() as int) =~= gs);
        let counts = count_findings(&findings);
        LicenseAuditReport {
            summary: LicenseAuditSummary {
                total_entries: ledger.total_entries(),
                unique_plans: groups.len(),
                findings_by_kind: counts,
            },
            findings,
        }
    }
}

fn bump(c: FindingCounts, kind: LicenseAuditFindingKind) -> (r: FindingCounts)
    requires
        count_of(c, kind) < usize::MAX,
    ensures
        forall|k: LicenseAuditFindingKind|
            count_of(r, k) == count_of(c, k) + if k == kind {
                1int
            } else {
                0int
            },
{
    let mut r = c;
    match kind {
        LicenseAuditFindingKind::MissingProof => r.missing_proof = c.missing_proof + 1,
        LicenseAuditFindingKind::MissingConsentSource => r.missing_consent_source
            = c.missing_consent_source + 1,
        LicenseAuditFindingKind::MissingExpiry => r.missing_expiry = c.missing_expiry + 1,
        LicenseAuditFindingKind::ExpiredConsent => r.expired_consent = c.expired_consent + 1,
        LicenseAuditFindingKind::ExpiringSoon => r.expiring_soon = c.expiring_soon + 1,
        LicenseAuditFindingKind::VerificationStale => r.verification_stale = c.verification_stale
            + 1,
        LicenseAuditFindingKind::DuplicatePlan => r.duplicate_plan = c.duplicate_plan + 1,
    }
    r
}

/// Counts of the findings by kind.
pub fn count_findings(findings: &Vec<LicenseAuditFinding>) -> (c: FindingCounts)
    ensures
        forall|k: LicenseAuditFindingKind|
            count_of(c, k) == kind_count(finding_views(findings@), k),
{
    let ghost fs = finding_views(findings@);
    let mut c = FindingCounts {
        missing_proof: 0,
        missing_consent_source: 0,
        missing_expiry: 0,
        expired_consent: 0,
        expiring_soon: 0,
        verification_stale: 0,
        duplicate_plan: 0,
    };
    let mut i: usize = 0;
    assert(fs.take(0) =~= Seq::<FindingSpec>::empty());
    while i < findings.len()
        invariant
            fs == finding_views(findings@),
            i <= findings@.len(),
            forall|k: LicenseAuditFindingKind|
                count_of(c, k) == kind_count(fs.take(i as int), k),
            forall|k: LicenseAuditFindingKind| count_of(c, k) <= i,
        decreases findings@.len() - i,
    {
        assert(fs.take(i + 1).drop_last() =~= fs.take(i as int));
        assert(fs.take(i + 1).last() == findings@[i as int]@);
        assert(count_of(c, findings@[i as int].kind) <= i);
        c = bump(c, findings[i].kind);
        i = i + 1;
    }
    assert(fs.take(findings@.len() as int) =~= fs);
    c
}

pub proof fn lemma_record_findings_plan(
    pid: Seq<char>,
    rec: ConsentRecord,
    now: UtcTimestamp,
    grace: i64,
    max_age: i64,
)
    ensures
        forall|i: int|
            0 <= i < record_findings(pid, rec, now, grace, max_age).len() ==> (#[trigger] record_findings(
                pid,
                rec,
                now,
                grace,
                max_age,
            )[i]).plan_id == pid,
{
}

pub proof fn lemma_records_findings_plan(
    pid: Seq<char>,
    recs: Seq<ConsentRecord>,
    now: UtcTimestamp,
    grace: i64,
    max_age: i64,
)
    ensures
        forall|i: int|
            0 <= i < records_findings(pid, recs, now, grace, max_age).len() ==> (#[trigger] records_findings(
                pid,
                recs,
                now,
                grace,
                max_age,
            )[i]).plan_id == pid,
    decreases recs.len(),
{
    if recs.len() > 0 {
        lemma_records_findings_plan(pid, recs.drop_last(), now, grace, max_age);
        lemma_record_findings_plan(pid, recs.last(), now, grace, max_age);
        let a = records_findings(pid, recs.drop_last(), now, grace, max_age);
        let b = record_findings(pid, recs.last(), now, grace, max_age);
        assert forall|i: int| 0 <= i < (a + b).len() implies (#[trigger] (a + b)[i]).plan_id == pid by {
            if i < a.len() {
                assert((a + b)[i] == a[i]);
            } else {
                assert((a + b)[i] == b[i - a.len()]);
            }
        }
    }
}

pub proof fn lemma_group_findings_plan(g: PlanConsentGroup, now: UtcTimestamp, grace: i64, max_age: i64)
    ensures
        forall|i: int|
            0 <= i < group_findings(g, now, grace, max_age).len() ==> (#[trigger] group_findings(
                g,
                now,
                grace,
                max_age,
            )[i]).plan_id == g.plan_id@,
{
    lemma_records_findings_plan(g.plan_id@, g.records@, now, grace, max_age);
    let a = records_findings(g.plan_id@, g.records@, now, grace, max_age);
    let gf = group_findings(g, now, grace, max_age);
    assert forall|i: int| 0 <= i < gf.len() implies (#[trigger] gf[i]).plan_id == g.plan_id@ by {
        if i < a.len() {
            assert(gf[i] == a[i]);
        }
    }
}

pub proof fn lemma_ledger_findings_plans(
    gs: Seq<PlanConsentGroup>,
    now: UtcTimestamp,
    grace: i64,
    max_age: i64,
    i: int,
) -> (k: int)
    requires
        0 <= i < ledger_findings(gs, now, grace, max_age).len(),
    ensures
        0 <= k < gs.len(),
        ledger_findings(gs, now, grace, max_age)[i].plan_id == gs[k].plan_id@,
        i >= ledger_findings(gs.drop_last(), now, grace, max_age).len() ==> k == gs.len() - 1,
    decreases gs.len(),
{
    let a = ledger_findings(gs.drop_last(), now, grace, max_age);
    let b = group_findings(gs.last(), now, grace, max_age);
    if i < a.len() {
        let k = lemma_ledger_findings_plans(gs.drop_last(), now, grace, max_age, i);
        assert((a + b)[i] == a[i]);
        k
    } else {
        lemma_group_findings_plan(gs.last(), now, grace, max_age);
        assert((a + b)[i] == b[i - a.len()]);
        gs.len() - 1
    }
}

/// Findings come out grouped by plan, in ascending order of plan id: of two
/// findings, the earlier has the same plan id or a smaller one.
pub proof fn law_findings_ordered_by_plan(
    gs: Seq<PlanConsentGroup>,
    now: UtcTimestamp,
    grace: i64,
    max_age: i64,
    i: int,
    j: int,
)
    requires
        groups_sorted(gs),
        0 <= i < j < ledger_findings(gs, now, grace, max_age).len(),
    ensures
        ledger_findings(gs, now, grace, max_age)[i].plan_id == ledger_findings(
            gs,
            now,
            grace,
            max_age,
        )[j].plan_id || text_lt(
            ledger_findings(gs, now, grace, max_age)[i].plan_id,
            ledger_findings(gs, now, grace, max_age)[j].plan_id,
        ),
    decreases gs.len(),
{
    let a = ledger_findings(gs.drop_last(), now, grace, max_age);
    let b = group_findings(gs.last(), now, grace, max_age);
    let f = ledger_findings(gs, now, grace, max_age);
    assert(f == a + b);
    if j < a.len() {
        assert(groups_sorted(gs.drop_last()));
        law_findings_ordered_by_plan(gs.drop_last(), now, grace, max_age, i, j);
        assert(f[i] == a[i]);
        assert(f[j] == a[j]);
    } else {
        let kj = lemma_ledger_findings_plans(gs, now, grace, max_age, j);
        let ki = lemma_ledger_findings_plans(gs, now, grace, max_age, i);
        if i >= a.len() {
        } else {
            let k2 = lemma_ledger_findings_plans(gs.drop_last(), now, grace, max_age, i);
            assert(f[i] == a[i]);
            assert(gs.drop_last()[k2] == gs[k2]);
            assert(text_lt(gs[k2].plan_id@, gs[kj].plan_id@));
        }
    }
}

} // verus!
