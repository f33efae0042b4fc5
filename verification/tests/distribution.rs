use vvtv_core::distribution::cdn::{
    backup_copy_arguments, is_stale_segment, parse_rclone_transfer, CdnCoordinator,
    PrimaryCdnConfig,
};
use vvtv_core::distribution::edge::{EdgeConfig, EdgeOrchestrator, SegmentSnapshot};
use vvtv_core::distribution::replicator::{
    build_remote_path, check_arguments, command_text, extract_transferred_bytes,
    parse_differences, sync_arguments,
};
use vvtv_core::distribution::security::{
    token_expiry, DistributionSecurity, DistributionSecurityError, SecurityConfig,
};
use vvtv_core::time::UtcTimestamp;

fn now() -> UtcTimestamp {
    let t = chrono::Utc::now();
    UtcTimestamp::from_unix(t.timestamp(), t.timestamp_subsec_nanos()).unwrap()
}

#[test]
fn evaluates_buffer_status() {
    let config = EdgeConfig {
        init_command: "logline".into(),
        init_args: vec!["--init-node".into(), "--role=edge".into()],
        region: "eu-west".into(),
        latency_targets: vec!["https://voulezvous.tv/live.m3u8".into()],
        latency_log_path: "/tmp/latency.log".into(),
        heatmap_output_path: "/tmp/heatmap.json".into(),
        buffer_seconds: 15,
        reload_threshold_seconds: 20,
    };
    let orchestrator = EdgeOrchestrator::new(config);
    let segments = vec![
        SegmentSnapshot { path: "segment1.ts".into(), age_seconds: 5, duration_seconds: 4 },
        SegmentSnapshot { path: "segment2.ts".into(), age_seconds: 9, duration_seconds: 4 },
        SegmentSnapshot { path: "segment3.ts".into(), age_seconds: 13, duration_seconds: 4 },
    ];
    let status = orchestrator.evaluate_buffer(&segments);
    assert!(!status.needs_reload);
    assert_eq!(status.total_buffer_seconds, 12);
    assert_eq!(status.newest_segment_age, 5);

    let degraded_segments = vec![SegmentSnapshot {
        path: "segment4.ts".into(),
        age_seconds: 25,
        duration_seconds: 4,
    }];
    let status = orchestrator.evaluate_buffer(&degraded_segments);
    assert!(status.needs_reload);
    assert_eq!(orchestrator.init_command_text(), "logline --init-node --role=edge");
    let empty = orchestrator.evaluate_buffer(&[]);
    assert_eq!(empty.newest_segment_age, u64::MAX);
    assert!(empty.needs_reload);
}

fn security() -> DistributionSecurity {
    let config = SecurityConfig {
        tls_required: true,
        certificate_path: "cert.pem".into(),
        token_secret_path: "secret.key".into(),
        token_ttl_minutes: 5,
        firewall_sources: vec!["tailscale".into(), "cloudflare".into()],
        access_log_path: "access.log".into(),
    };
    DistributionSecurity::with_secret(config, b"super-secret-key".to_vec())
}

#[test]
fn issues_and_validates_token() {
    let security = security();
    let issued_at = now();
    let token = security.issue_token("/live/segment1.ts", &issued_at).unwrap();
    security.validate_token(&token, "/live/segment1.ts", &issued_at).unwrap();
    assert!(security.validate_token(&token, "/live/segment2.ts", &issued_at).is_err());
}

#[test]
fn tokens_expire_and_carry_a_url_safe_signature() {
    let security = security();
    let issued_at = UtcTimestamp::from_unix(1_700_000_000, 0).unwrap();
    let token = security.try_issue_token("/seg.ts", &issued_at).unwrap().unwrap();
    assert_eq!(token.expires_at.secs(), 1_700_000_300);
    assert_eq!(token.token.len(), 43);
    assert!(token.token.chars().all(|c| c.is_ascii_alphanumeric() || c == '-' || c == '_'));
    assert_ne!(token.token, "/seg.ts");
    let later = UtcTimestamp::from_unix(1_700_000_301, 0).unwrap();
    assert!(matches!(
        security.validate_token(&token, "/seg.ts", &later),
        Err(DistributionSecurityError::TokenExpired)
    ));
    let mut forged = token.clone();
    forged.token.push('x');
    assert!(matches!(
        security.validate_token(&forged, "/seg.ts", &issued_at),
        Err(DistributionSecurityError::InvalidSignature)
    ));
    assert!(security.tls_required());
    assert_eq!(security.firewall_sources().len(), 2);
}

#[test]
fn token_expiry_refuses_out_of_range_lifetimes() {
    let t = UtcTimestamp::from_unix(0, 0).unwrap();
    assert_eq!(token_expiry(&t, 1).unwrap().secs(), 60);
    assert!(token_expiry(&t, u64::MAX / 2).is_none());
    assert!(token_expiry(&t, 153_722_867_280_912).is_none());
}

#[test]
fn remote_paths_and_rclone_arguments() {
    assert_eq!(build_remote_path("b2:bucket//", "/data/media/"), "b2:bucket/media");
    assert_eq!(build_remote_path("b2:bucket", "/"), "b2:bucket/");
    let sync = sync_arguments("/data/hls", "b2:vv", Some(20));
    assert_eq!(
        sync,
        vec!["sync", "/data/hls", "b2:vv/hls", "--fast-list", "--transfers", "4", "--bwlimit", "20M"]
    );
    let check = check_arguments("/data/hls", "b2:vv/");
    assert_eq!(check, vec!["check", "/data/hls", "b2:vv/hls", "--size-only", "--one-way"]);
    assert_eq!(command_text("rclone", &check), "rclone check /data/hls b2:vv/hls --size-only --one-way");
    let copy = backup_copy_arguments("/data/hls", "r2:backup");
    assert_eq!(copy.last().map(String::as_str), Some("--immutable"));
}

#[test]
fn rclone_output_is_read() {
    assert_eq!(extract_transferred_bytes(b"Transferred:   \t 1234 / 2000, 61%"), 1234);
    assert_eq!(extract_transferred_bytes(b"nothing"), 0);
    assert_eq!(parse_differences(b"2024 NOTICE: 7 Differences found"), 7);
    assert_eq!(parse_differences(b"1 difference found"), 1);
    assert_eq!(parse_rclone_transfer(b"Transferred: 3/5 files\nBytes, 4096 total"), (3, 4096));
}

#[test]
fn stale_segments_are_old_and_unlisted() {
    let listed = vec!["seg1.ts".to_string()];
    assert!(is_stale_segment(86_401, 0, 1, "seg2.ts", &listed));
    assert!(!is_stale_segment(86_401, 0, 1, "seg1.ts", &listed));
    assert!(!is_stale_segment(86_400, 0, 1, "seg2.ts", &listed));
}

#[test]
fn coordinator_copies_the_primary_facts() {
    let config = PrimaryCdnConfig {
        provider: "cloudflare".into(),
        api_base: "https://api".into(),
        zone_id: "z".into(),
        account_id: "a".into(),
        api_token_path: "t".into(),
        dns_record_id: "d".into(),
        dns_record_name: "live".into(),
        primary_hostname: "live.example".into(),
        backup_hostname: "backup.example".into(),
        health_check_url: "https://live.example/health".into(),
        manifest_ttl_seconds: 10,
        segment_ttl_seconds: 60,
        metrics_log_path: "m.log".into(),
        worker_script_path: "w.js".into(),
        worker_service: "svc".into(),
        worker_environment: "prod".into(),
    };
    let coordinator = CdnCoordinator::from_primary(&config);
    assert_eq!(coordinator.backup_hostname, "backup.example");
    assert_eq!(coordinator.segment_ttl_seconds, 60);
    assert_eq!(config.analytics_url(), "https://api/zones/z/analytics/dashboard");
    assert_eq!(config.dns_record_url(), "https://api/zones/z/dns_records/d");
    assert_eq!(
        config.worker_script_url(),
        "https://api/accounts/a/workers/services/svc/environments/prod/script"
    );
    let update = config.dns_update("backup.example");
    assert_eq!(update.record_type, "CNAME");
    assert_eq!(update.name, "live");
    assert_eq!(update.content, "backup.example");
    assert_eq!(update.ttl, 120);
    assert!(update.proxied);
}
