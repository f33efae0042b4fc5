use vvtv_core::compliance::csam::{CsamHashEntry, CsamScanReport, CsamScanner};
use vvtv_core::compliance::drm::{extract_snippet, DrmDetectionConfig, DrmScanReport, DrmScanner};
use vvtv_core::compliance::audit::{ConsentLedger, ConsentLogEntry, ConsentRecord, LicenseAuditor};
use vvtv_core::compliance::ComplianceError;
use vvtv_core::time::UtcTimestamp;

const ABC_SHA256: &str = "ba7816bf8f01cfea414140de5dae2223b00361a396177a9cb410ff61f20015ad";

#[test]
fn csv_database_parses_entries_and_skips_comments() {
    let content = format!(
        "# authority list\n\n{} , label-a , extra\n{}\n",
        ABC_SHA256.to_uppercase(),
        "0".repeat(64)
    );
    let entries = CsamScanner::parse_csv_lines(&content, "db.csv").unwrap();
    assert_eq!(entries.len(), 2);
    assert_eq!(entries[0].sha256, ABC_SHA256);
    assert_eq!(entries[0].label, "label-a");
    assert_eq!(entries[1].label, "");
}

#[test]
fn csv_database_reports_the_invalid_line() {
    let content = format!("{}\nnot-a-hash,x\n", ABC_SHA256);
    match CsamScanner::parse_csv_lines(&content, "db.csv") {
        Err(ComplianceError::InvalidHash { line, path }) => {
            assert_eq!(line, 2);
            assert_eq!(path, "db.csv");
        }
        other => panic!("unexpected {other:?}"),
    }
}

#[test]
fn scanner_matches_the_content_hash() {
    let scanner = CsamScanner::from_entries(vec![
        CsamHashEntry { sha256: "f".repeat(64), label: "other".into() },
        CsamHashEntry { sha256: ABC_SHA256.into(), label: "known".into() },
    ]);
    assert!(scanner.is_ready());
    let finding = scanner.check_contents("media/a.bin", b"abc").unwrap();
    assert_eq!(finding.hash, ABC_SHA256);
    assert_eq!(finding.label, "known");
    assert_eq!(finding.path, "media/a.bin");
    assert!(scanner.check_contents("media/b.bin", b"abd").is_none());
    let mut report = CsamScanReport::new();
    report.record(Some(finding));
    report.record(None);
    assert_eq!(report.files_scanned, 2);
    assert!(!report.is_clean());
}

#[test]
fn json_databases_are_recognized() {
    assert!(CsamScanner::is_json_database(Some("JSON"), "a,b"));
    assert!(CsamScanner::is_json_database(None, "  \n[ {} ]"));
    assert!(!CsamScanner::is_json_database(Some("csv"), "abc"));
}

#[test]
fn drm_defaults_and_extensions() {
    let config = DrmDetectionConfig::default();
    assert_eq!(config.patterns.len(), 8);
    assert_eq!(config.allowed_extensions.len(), 6);
    let scanner = DrmScanner::new(config);
    assert!(scanner.is_allowed("streams/master.M3U8"));
    assert!(scanner.is_allowed("/a/b/page.html"));
    assert!(!scanner.is_allowed("/a/b/.html"));
    assert!(!scanner.is_allowed("/a/b/video.mp4"));
    assert!(!scanner.is_allowed("/a/b/README"));
}

#[test]
fn drm_scan_finds_the_first_pattern_with_context() {
    let scanner = DrmScanner::new(DrmDetectionConfig::default());
    let text = "#EXTM3U\n#EXT-X-KEY:METHOD=SAMPLE-AES,URI=\"skd://key\"\n#EXTINF:4,\n";
    let finding = scanner.scan_text("live.m3u8", text).unwrap().unwrap();
    assert_eq!(finding.pattern, "ext-x-key");
    assert_eq!(finding.snippet, "#EXT-X-KEY:METHOD=SAMPLE-AES,URI=\"skd://key\"");
    assert!(scanner.scan_text("clean.m3u8", "#EXTM3U\n#EXTINF:4,\n").unwrap().is_none());
    let mut report = DrmScanReport::new();
    report.record(Some(finding));
    assert!(!report.is_clean());
}

#[test]
fn snippets_are_cut_at_lines_and_at_most_121_bytes() {
    let text = "first line\nsecond MARK line\nthird";
    assert_eq!(extract_snippet(text, 18, 22).as_deref(), Some("second MARK line"));
    let long = format!("{}MARK{}", "a".repeat(300), "b".repeat(300));
    let snippet = extract_snippet(&long, 300, 304).unwrap();
    assert_eq!(snippet.len(), 121 + 4 + 121);
    assert_eq!(extract_snippet("short", 3, 10), None);
    let accented = format!("{}MARK", "é".repeat(100));
    assert_eq!(extract_snippet(&accented, 200, 204), None);
    let whole = format!("{}é", "x".repeat(10));
    assert_eq!(extract_snippet(&whole, 10, 12).as_deref(), Some("xxxxxxxxxxé"));
}

fn consent(plan: &str, proof: &str) -> ConsentRecord {
    ConsentRecord {
        entry: ConsentLogEntry {
            plan_id: plan.into(),
            license_proof: Some(proof.into()),
            consent_source: Some("owner".into()),
            verified_at: UtcTimestamp::from_unix(1704067200, 0).unwrap(),
            expires_at: Some(UtcTimestamp::from_unix(221845392000, 0).unwrap()),
            jurisdiction: None,
            notes: None,
        },
        source: "a.jsonl".into(),
    }
}

#[test]
fn same_plan_with_same_proof_is_one_plan_without_findings() {
    let mut ledger = ConsentLedger::new();
    ledger.add(consent("p1", "contract-A"));
    ledger.add(consent("p1", "contract-A"));
    assert_eq!(ledger.groups().len(), 1);
    assert_eq!(ledger.groups()[0].records.len(), 2);
    let auditor = LicenseAuditor::new(30 * 86400, 36500 * 86400);
    let report = auditor.build_report(&ledger, UtcTimestamp::from_unix(1709251200, 0).unwrap());
    assert_eq!(report.summary.total_entries, 2);
    assert_eq!(report.summary.unique_plans, 1);
    assert!(report.findings.is_empty());
    assert_eq!(report.summary.findings_by_kind.duplicate_plan, 0);
}

#[test]
fn ledger_keeps_plans_in_order() {
    let mut ledger = ConsentLedger::new();
    ledger.add(consent("p2", "x"));
    ledger.add(consent("p1", "y"));
    ledger.add(consent("p3", "z"));
    ledger.add(consent("p2", "w"));
    let ids: Vec<&str> = ledger.groups().iter().map(|g| g.plan_id.as_str()).collect();
    assert_eq!(ids, vec!["p1", "p2", "p3"]);
    assert_eq!(ledger.groups()[1].records.len(), 2);
    assert_eq!(ledger.total_entries(), 4);
}
