//! The primary and backup CDNs: their configuration, the backup upload
//! commands and what rclone reports of them, and which segments go stale.
use vstd::prelude::*;

use super::replicator::{build_remote_path, capture_count, captured_count, remote_path};
use crate::text::{concat2, owned, str_eq, views};

verus! {

/// The CDN facts that other components need.
#[derive(Clone, Debug)]
pub struct CdnCoordinator {
    pub provider: String,
    pub primary_hostname: String,
    pub backup_hostname: String,
    pub manifest_ttl_seconds: u64,
    pub segment_ttl_seconds: u64,
    pub health_check_url: String,
}

/// The primary CDN: its API, DNS record, hostnames, TTLs and edge worker.
#[derive(Clone, Debug)]
pub struct PrimaryCdnConfig {
    pub provider: String,
    pub api_base: String,
    pub zone_id: String,
    pub account_id: String,
    pub api_token_path: String,
    pub dns_record_id: String,
    pub dns_record_name: String,
    pub primary_hostname: String,
    pub backup_hostname: String,
    pub health_check_url: String,
    pub manifest_ttl_seconds: u64,
    pub segment_ttl_seconds: u64,
    pub metrics_log_path: String,
    pub worker_script_path: String,
    pub worker_service: String,
    pub worker_environment: String,
}

/// The backup CDN: what is uploaded where, and how long segments live.
#[derive(Clone, Debug)]
pub struct BackupCdnConfig {
    pub provider: String,
    pub rclone_path: String,
    pub source_paths: Vec<String>,
    pub remote: String,
    pub manifest_path: String,
    pub ttl_days: u64,
    pub switch_script: String,
    pub log_path: String,
}

impl CdnCoordinator {
    /// The coordinator facts of a primary CDN configuration.
    pub fn from_primary(config: &PrimaryCdnConfig) -> (r: Self)
        ensures
            r.provider@ == config.provider@,
            r.primary_hostname@ == config.primary_hostname@,
            r.backup_hostname@ == config.backup_hostname@,
            r.manifest_ttl_seconds == config.manifest_ttl_seconds,
            r.segment_ttl_seconds == config.segment_ttl_seconds,
            r.health_check_url@ == config.health_check_url@,
    {
        CdnCoordinator {
            provider: config.provider.clone(),
            primary_hostname: config.primary_hostname.clone(),
            backup_hostname: config.backup_hostname.clone(),
            manifest_ttl_seconds: config.manifest_ttl_seconds,
            segment_ttl_seconds: config.segment_ttl_seconds,
            health_check_url: config.health_check_url.clone(),
        }
    }
}

/// The arguments of the `rclone copy` that uploads one path to the backup:
/// four parallel transfers, never overwriting.
pub open spec fn copy_args(path: Seq<char>, remote: Seq<char>) -> Seq<Seq<char>> {
    seq![
        "copy"@,
        path,
        remote_path(remote, path),
        "--fast-list"@,
        "--transfers"@,
        "4"@,
        "--immutable"@,
    ]
}

/// The arguments of the backup upload of one path.
pub fn backup_copy_arguments(path: &str, remote: &str) -> (r: Vec<String>)
    ensures
        views(r@) == copy_args(path@, remote@),
{
    let mut args: Vec<String> = Vec::new();
    args.push(owned("copy"));
    args.push(owned(path));
    args.push(build_remote_path(remote, path));
    args.push(owned("--fast-list"));
    args.push(owned("--transfers"));
    args.push(owned("4"));
    args.push(owned("--immutable"));
    assert(views(args@) =~= copy_args(path@, remote@));
    args
}

/// The pattern of rclone's file count.
pub open spec fn files_pattern() -> Seq<char> {
    "Transferred:\\s+([0-9]+)/([0-9]+)"@
}

/// The pattern of rclone's byte count.
pub open spec fn bytes_pattern() -> Seq<char> {
    "Bytes,\\s+([0-9]+)"@
}

/// The files and bytes that an `rclone copy` reports as uploaded (0 where
/// it reports none).
pub fn parse_rclone_transfer(stdout: &[u8]) -> (r: (u64, u64))
    ensures
        r.0 == captured_count(files_pattern(), stdout@),
        r.1 == captured_count(bytes_pattern(), stdout@),
{
    let files = capture_count("Transferred:\\s+([0-9]+)/([0-9]+)", stdout);
    let bytes = capture_count("Bytes,\\s+([0-9]+)", stdout);
    (files, bytes)
}

/// Whether a backup segment is removed: it is older than the backup's
/// lifetime and the manifest does not list its name.
pub fn is_stale_segment(age_secs: u64, age_nanos: u32, ttl_days: u64, name: &str, valid: &Vec<String>) -> (r: bool)
    requires
        ttl_days * 86400 <= u64::MAX,
    ensures
        r == ((age_secs > ttl_days * 86400 || (age_secs == ttl_days * 86400 && age_nanos > 0))
            && !views(valid@).contains(name@)),
{
    let ttl = ttl_days * 86400;
    let older = age_secs > ttl || (age_secs == ttl && age_nanos > 0);
    if !older {
        return false;
    }
    let mut i: usize = 0;
    while i < valid.len()
        invariant
            i <= valid@.len(),
            forall|k: int| 0 <= k < i ==> views(valid@)[k] != name@,
        decreases valid@.len() - i,
    {
        if str_eq(valid[i].as_str(), name) {
            assert(views(valid@)[i as int] == name@);
            return false;
        }
        i = i + 1;
    }
    assert(!views(valid@).contains(name@));
    true
}


/// The DNS change that points the CDN's record at a host.
#[derive(Clone, Debug)]
pub struct DnsRecordUpdate {
    pub record_type: String,
    pub name: String,
    pub content: String,
    pub ttl: u32,
    pub proxied: bool,
}

/// `a + b + c`, joined as strings.
fn concat3(a: &str, b: &str, c: &str) -> (r: String)
    ensures
        r@ == a@ + b@ + c@,
{
    let ab = concat2(a, b);
    let r = concat2(ab.as_str(), c);
    assert(r@ =~= a@ + b@ + c@);
    r
}

impl PrimaryCdnConfig {
    /// The analytics endpoint of the zone.
    pub fn analytics_url(&self) -> (r: String)
        ensures
            r@ == self.api_base@ + "/zones/"@ + self.zone_id@ + "/analytics/dashboard"@,
    {
        let head = concat3(self.api_base.as_str(), "/zones/", self.zone_id.as_str());
        concat2(head.as_str(), "/analytics/dashboard")
    }

    /// The endpoint of the zone's DNS record.
    pub fn dns_record_url(&self) -> (r: String)
        ensures
            r@ == self.api_base@ + "/zones/"@ + self.zone_id@ + "/dns_records/"@ + self.dns_record_id@,
    {
        let head = concat3(self.api_base.as_str(), "/zones/", self.zone_id.as_str());
        concat3(head.as_str(), "/dns_records/", self.dns_record_id.as_str())
    }

    /// The endpoint that takes the edge worker's script.
    pub fn worker_script_url(&self) -> (r: String)
        ensures
            r@ == self.api_base@ + "/accounts/"@ + self.account_id@ + "/workers/services/"@ + self.worker_service@
                + "/environments/"@ + self.worker_environment@ + "/script"@,
    {
        let a = concat3(self.api_base.as_str(), "/accounts/", self.account_id.as_str());
        let b = concat3(a.as_str(), "/workers/services/", self.worker_service.as_str());
        let c = concat3(b.as_str(), "/environments/", self.worker_environment.as_str());
        concat2(c.as_str(), "/script")
    }

    /// The change that points the record at `hostname`: a proxied CNAME
    /// with a two-minute TTL.
    pub fn dns_update(&self, hostname: &str) -> (r: DnsRecordUpdate)
        ensures
            r.record_type@ == "CNAME"@,
            r.name@ == self.dns_record_name@,
            r.content@ == hostname@,
            r.ttl == 120,
            r.proxied,
    {
        DnsRecordUpdate {
            record_type: owned("CNAME"),
            name: self.dns_record_name.clone(),
            content: owned(hostname),
            ttl: 120,
            proxied: true,
        }
    }
}

} // verus!
