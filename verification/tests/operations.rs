use vvtv_core::curation::{promote, TokenBucket};
use vvtv_core::plan::models::serialize_tags;
use vvtv_core::plan::planner::enforce_diversity;
use vvtv_core::plan::selection::generate_slot_seed_robust;
use vvtv_core::processor::error::ProcessorError;
use vvtv_core::processor::segments::{local_segment_name, ready_directory, resolve_segment_url};
use vvtv_core::compliance::audit::LicenseAuditor;
use vvtv_core::business_logic::{selection_top_k, Scheduling, SeedStrategy, SelectionMethod};
use vvtv_core::incident::{
    IncidentChannel, IncidentHistoryWriter, IncidentNotification, IncidentNotifier,
    IncidentReport, IncidentSeverity, IncidentTimelineEntry, SeverityRouting,
};
use vvtv_core::monetization::spots::{microspot_plan_id, random_cadence};
use vvtv_core::monitor::{
    recommended_actions, AlertSeverity, AlertStateType, BusinessMetricType, VisualReviewPanel,
};
use vvtv_core::plan::models::PlanStatus;
use vvtv_core::plan::realizer::{outcome_updates_for, RealizationOutcome, StoreUpdate};
use vvtv_core::config::DownloadSection;
use vvtv_core::processor::types::{MasteringStrategy, RetryPolicy, StagingPaths};
use vvtv_core::quality::rgb_to_hex;
use vvtv_core::text::{extension_of, file_name_of};
use vvtv_core::time::UtcTimestamp;

fn now() -> UtcTimestamp {
    let t = chrono::Utc::now();
    UtcTimestamp::from_unix(t.timestamp(), t.timestamp_subsec_nanos()).unwrap()
}

fn report(id: &str) -> IncidentReport {
    IncidentReport {
        incident_id: id.to_string(),
        title: "Buffer underflow".to_string(),
        severity: IncidentSeverity::Critical,
        category: "Operacional".to_string(),
        detected_at: now(),
        resolved_at: Some(now()),
        summary: "Buffer caiu abaixo de 1h".to_string(),
        impact: "Transmissão interrompida por 12 minutos".to_string(),
        root_cause: "CDN origin offline".to_string(),
        lessons_learned: vec!["Monitorar TTL do manifest".to_string()],
        actions_taken: vec!["Failover automático executado".to_string()],
        preventive_actions: vec!["Adicionar alerta pré-falha".to_string()],
        timeline: vec![IncidentTimelineEntry::new(now(), "Alerta recebido".to_string())],
        author: Some("Eng. Operações".to_string()),
    }
}

#[test]
fn markdown_contains_sections() {
    let markdown = report("INC-001").to_markdown();
    assert!(markdown.contains("# VVTV POSTMORTEM"));
    assert!(markdown.contains("## Linha do tempo"));
    assert!(markdown.contains("## Lições aprendidas"));
}

#[test]
fn notifier_respects_routing() {
    let routing = SeverityRouting {
        critical: vec![IncidentChannel::Telegram, IncidentChannel::Email],
        high: vec![IncidentChannel::Log],
        medium: vec![IncidentChannel::Log],
        low: vec![IncidentChannel::Log],
    };
    let notifier = IncidentNotifier::new(routing, None, None).with_dry_run(true);
    let notification = IncidentNotification {
        incident_id: "INC-DRY".to_string(),
        title: "Teste".to_string(),
        severity: IncidentSeverity::High,
        summary: "Resumo".to_string(),
        impact: "Nenhum".to_string(),
        detected_at: now(),
        resolved_at: None,
        link: None,
    };
    let commands = notifier.commands(&notification);
    assert!(commands.is_empty());
    let dispatch = notifier.notify(&notification, &vec![]);
    assert_eq!(dispatch.actions.len(), 1);
    assert_eq!(dispatch.actions[0].channel, IncidentChannel::Log);
}

#[test]
fn history_paths_name_the_incident() {
    let writer = IncidentHistoryWriter::new("/var/vvtv/incidents");
    let r = report("INC/42 x");
    let (md, json) = writer.planned_paths(&r);
    assert!(md.starts_with("/var/vvtv/incidents/"));
    assert!(md.ends_with(".md"));
    assert!(json.ends_with(".json"));
    assert!(!md["/var/vvtv/incidents/".len()..].contains('/'));
}

#[test]
fn alert_states_and_actions() {
    assert_eq!(AlertSeverity::Critical.state_label(), "critical");
    assert!(matches!(AlertStateType::from_label("warning"), AlertStateType::Warning));
    assert!(matches!(AlertStateType::from_label("info"), AlertStateType::Okay));
    assert_eq!(BusinessMetricType::HdDetectionSlowRate.storage_key(), "hddetectionslowrate");
    let actions = recommended_actions("diversity_loss");
    assert_eq!(actions.len(), 3);
    assert_eq!(actions[0], "Check business logic temperature setting");
    assert_eq!(recommended_actions("other"), vec!["Check system logs for more details".to_string()]);
}

#[test]
fn review_page_lists_captures_and_questions() {
    let panel = VisualReviewPanel::new("/qc/captures", "/qc/review.html");
    let page = panel.page_html(&vec!["/qc/captures/a.png".to_string()]);
    assert!(page.starts_with("<!DOCTYPE html>"));
    assert!(page.contains("<div class=\"frame\"><img src=\"file:///qc/captures/a.png\" alt=\"QC frame\"></div>"));
    assert_eq!(page.matches("<li>").count(), 6);
    assert!(page.ends_with("</html>"));
}

#[test]
fn realizer_fails_a_plan_on_its_last_attempt() {
    let updates = outcome_updates_for(2, 3, RealizationOutcome::Retry { note: "timeout".into() });
    assert_eq!(updates.len(), 3);
    assert!(matches!(updates[0], StoreUpdate::IncrementFailure));
    assert!(matches!(updates[2], StoreUpdate::FailPlan { ref note } if note == "limite de tentativas excedido"));
    let retry = outcome_updates_for(0, 3, RealizationOutcome::Retry { note: "timeout".into() });
    assert!(matches!(retry[2], StoreUpdate::UpdateStatus(PlanStatus::Selected)));
    let done = outcome_updates_for(0, 3, RealizationOutcome::Downloaded { mark_ready: true });
    assert_eq!(done.len(), 4);
    assert!(matches!(done[2], StoreUpdate::FinalizeReady));
}

#[test]
fn spots_cadence_and_ids() {
    for _ in 0..20 {
        let c = random_cadence(0, -5);
        assert_eq!(c, 1);
        let d = random_cadence(25, 40);
        assert!((25..=40).contains(&d));
    }
    assert_eq!(microspot_plan_id("acme", 1_700_000_000), "microspot:acme:1700000000");
}

#[test]
fn defaults_of_the_policy() {
    let s = Scheduling::default();
    assert_eq!(s.slot_duration_minutes, 15);
    assert_eq!(s.global_seed_or_default(), 42);
    assert!(matches!(SelectionMethod::default(), SelectionMethod::GumbelTopK));
    assert!(matches!(SeedStrategy::default(), SeedStrategy::SlotHash));
    assert_eq!(selection_top_k(Some(0), 5), 1);
    assert_eq!(selection_top_k(None, 5), 5);
}

#[test]
fn paths_colours_and_names() {
    assert_eq!(file_name_of("/a/b/c.tar.gz").as_deref(), Some("c.tar.gz"));
    assert_eq!(file_name_of("/a/b/..").as_deref(), None);
    assert_eq!(file_name_of("a/b/.").as_deref(), Some("b"));
    assert_eq!(extension_of("/a/b/c.tar.gz").as_deref(), Some("gz"));
    assert_eq!(extension_of("/a/.bashrc").as_deref(), None);
    assert_eq!(extension_of("/a/b.").as_deref(), Some(""));
    assert_eq!(rgb_to_hex((255, 16, 0)), "#ff1000");
    let staging = StagingPaths::new("/stage/p1".to_string());
    assert_eq!(staging.remux, "/stage/p1/remux");
    assert_eq!(MasteringStrategy::Transcode.as_str(), "transcode");
}

#[test]
fn seed_changes_with_slot() {
    let now = now();
    let later = UtcTimestamp::from_unix(now.secs() + 15 * 60, now.nanos()).unwrap();
    let seed_a = generate_slot_seed_robust(&now, 15 * 60, 1, 99);
    let seed_b = generate_slot_seed_robust(&later, 15 * 60, 1, 99);
    assert_ne!(seed_a, seed_b);
}

#[test]
fn seed_is_stable_within_a_slot() {
    let a = UtcTimestamp::from_unix(900 * 1000, 0).unwrap();
    let b = UtcTimestamp::from_unix(900 * 1000 + 899, 5).unwrap();
    assert_eq!(
        generate_slot_seed_robust(&a, 900, 7, 42),
        generate_slot_seed_robust(&b, 900, 7, 42)
    );
    let c = UtcTimestamp::from_unix(-1, 0).unwrap();
    let d = UtcTimestamp::from_unix(-30, 0).unwrap();
    assert_eq!(generate_slot_seed_robust(&c, 10, 0, 0), generate_slot_seed_robust(&d, 10, 0, 0));
}

#[test]
fn segments_are_named_and_resolved() {
    assert_eq!(local_segment_name("seg", 0, "chunk-1.ts"), "seg_0001.ts");
    assert_eq!(local_segment_name("dash", 12344, "init"), "dash_12345.m4s");
    assert_eq!(
        resolve_segment_url("https://cdn.example/a/master.m3u8", "v/seg1.ts").unwrap(),
        "https://cdn.example/a/v/seg1.ts"
    );
    assert_eq!(
        resolve_segment_url("https://cdn.example/a/master.m3u8", "https://other/s.ts").unwrap(),
        "https://other/s.ts"
    );
    assert!(matches!(resolve_segment_url("not a url", "seg.ts"), Err(ProcessorError::Download(_))));
    assert_eq!(ready_directory("/var/vvtv", "p1"), "/var/vvtv/ready/p1");
}

#[test]
fn consent_logs_are_read_line_by_line() {
    assert!(LicenseAuditor::is_supported_log("/logs/consent.jsonl"));
    assert!(!LicenseAuditor::is_supported_log("/logs/consent.JSON"));
    let lines = LicenseAuditor::record_lines("# header\n {\"a\":1} \n\n{\"b\":2}");
    assert_eq!(lines, vec!["{\"a\":1}".to_string(), "{\"b\":2}".to_string()]);
}

#[test]
fn diversity_rule_reserves_places_for_kinds() {
    let items: Vec<(String, String)> = vec![
        ("p1".into(), "music".into()),
        ("p2".into(), "music".into()),
        ("p3".into(), "doc".into()),
        ("p4".into(), "music".into()),
        ("p5".into(), "art".into()),
    ];
    assert_eq!(enforce_diversity(&items, 3, 2), vec![0, 2, 1]);
    assert_eq!(enforce_diversity(&items, 4, 3), vec![0, 2, 4, 1]);
    assert_eq!(enforce_diversity(&items, 0, 1), Vec::<usize>::new());
    let dup: Vec<(String, String)> = vec![("p1".into(), "a".into()), ("p1".into(), "b".into())];
    assert_eq!(enforce_diversity(&dup, 2, 1), vec![0]);
}

#[test]
fn promotion_moves_forward_within_reach() {
    let order: Vec<String> = vec!["a".into(), "b".into(), "c".into(), "d".into()];
    assert_eq!(promote(order.clone(), 3, 2), vec!["a", "d", "b", "c"]);
    assert_eq!(promote(order.clone(), 1, 5), vec!["b", "a", "c", "d"]);
    assert_eq!(promote(order, 2, 0), vec!["a", "b", "c", "d"]);
    assert_eq!(serialize_tags(&vec![]), None);
    assert_eq!(serialize_tags(&vec!["x".into(), "y".into()]).as_deref(), Some("x,y"));
}

#[test]
fn retry_policy_from_download_settings() {
    let section = DownloadSection {
        tool: "aria2".into(),
        max_retries: 3,
        retry_delay_seconds: [5, 20],
        bandwidth_limit_mbps: 0,
        resume_enabled: true,
    };
    let policy = RetryPolicy::try_from(section.clone()).unwrap();
    assert_eq!(policy.attempts, 3);
    assert_eq!(policy.delay_range, [5, 20]);
    let none = DownloadSection { max_retries: 0, ..section };
    match RetryPolicy::try_from(none) {
        Err(ProcessorError::InvalidMedia(m)) => assert_eq!(m, "max_retries must be greater than zero"),
        other => panic!("unexpected {:?}", other),
    }
}

#[test]
fn timestamp_format_refuses_unknown_specifiers() {
    let t = UtcTimestamp::from_unix(1709251200, 0).unwrap();
    assert_eq!(t.format("%Y-%m-%d %H:%M").as_deref(), Some("2024-03-01 00:00"));
    assert_eq!(t.format("%Q"), None);
    assert_eq!(t.format("%"), None);
}

#[test]
fn token_bucket_refills() {
    let start = 1_000;
    let mut bucket = TokenBucket::new(2_000_000, 6_000_000, start);
    assert!(bucket.take(1_000_000, start));
    assert!(bucket.take(1_000_000, start));
    assert!(!bucket.take(1_000_000, start));
    let later = start + 3_600_000;
    assert!(bucket.take(1_000_000, later));
}

#[test]
fn token_bucket_refills_in_proportion_and_caps() {
    let mut bucket = TokenBucket::new(2_000_000, 3_600_000, 0);
    assert!(bucket.take(2_000_000, 0));
    assert_eq!(bucket.tokens, 0);
    // 3.6 tokens per hour: ten minutes bring 0.6 of a token.
    assert!(!bucket.take(1_000_000, 600_000));
    assert_eq!(bucket.tokens, 600_000);
    // A clock that goes back brings nothing.
    assert!(!bucket.take(1_000_000, 0));
    assert_eq!(bucket.tokens, 600_000);
    // Ten hours later the bucket is full, not beyond.
    assert!(bucket.take(0, 36_000_000));
    assert_eq!(bucket.tokens, 2_000_000);
    let mut idle = TokenBucket::new(1_000_000, -5, 0);
    assert!(idle.take(1_000_000, 0));
    assert!(!idle.take(1_000_000, 100_000_000));
}
