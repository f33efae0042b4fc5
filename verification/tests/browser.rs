use vvtv_core::browser::automation::{
    chromium_launch_plan, language_script, page_scripts, select_user_agent, viewport_from_draws, viewport_size,
    ProxyPool,
};
use vvtv_core::browser::discovery_loop::{
    candidate_step, CandidateOutcome, CandidateStep, DiscoveryConfig, DiscoveryStats, RateLimiter,
};
use vvtv_core::browser::error::BrowserError;
use vvtv_core::browser::error_handler::{BrowserErrorCategory, ErrorCategorizer};
use vvtv_core::browser::metadata::{
    bitrate_for_resolution, collapse_whitespace, escape_js, parse_height, MetadataExtractor,
    RawMetadataPayload,
};
use vvtv_core::browser::pbd::{
    capture_from_payload, infer_capture_kind, select_quality_options, BrowserCaptureKind,
    QualityOption,
};
use vvtv_core::browser::profile::ProfileManager;
use vvtv_core::browser::qa::{
    recording_label, screenshot_step, RecorderExit, ScreenshotStep, SessionRecorder, SessionRecorderConfig,
    SmokeMode, SmokeTestOptions,
};
use vvtv_core::browser::searcher::{
    Candidate, ContentSearcher, SearchConfig, SearchEngine, SearchResultRaw,
};
use vvtv_core::browser::fingerprint::{
    audio_mask_script, canvas_noise_script, webgl_mask_script, FingerprintMasker,
};
use vvtv_core::browser::ip_rotator::IpRotator;
use vvtv_core::config::{ChromiumSection, FingerprintSection, FlagsSection, IpRotationSection, SelectorSection};

fn extractor() -> MetadataExtractor {
    let section = SelectorSection {
        video_element: "video".into(),
        play_buttons: vec![".play".into()],
        quality_menu: vec![".quality".into()],
        consent_buttons: vec![".consent".into()],
    };
    MetadataExtractor::new(section)
}

#[test]
fn bitrate_for_resolution_maps_values() {
    assert_eq!(bitrate_for_resolution("1080p"), Some(6_000_000));
    assert_eq!(bitrate_for_resolution("720p"), Some(3_200_000));
    assert_eq!(bitrate_for_resolution("360p"), Some(1_000_000));
    assert_eq!(bitrate_for_resolution("abc"), None);
}

#[test]
fn categorize_bot_detection() {
    let err = BrowserError::Network("captcha challenge".into());
    assert!(matches!(
        ErrorCategorizer::categorize(&err),
        BrowserErrorCategory::BotDetection
    ));
}

#[test]
fn normalize_tags_filters_duplicates() {
    let extractor = extractor();
    let result = extractor.normalize_tags(vec![
        "Ambient Nights".into(),
        "ambient nights".into(),
        "   ".into(),
    ]);
    assert_eq!(result.len(), 1);
    assert_eq!(result[0].normalized, "ambient nights");
}

#[test]
fn normalize_tags_strips_symbols_and_keeps_raw_text() {
    let extractor = extractor();
    let result = extractor.normalize_tags(vec![
        "  Lo-Fi   Beats!!  ".into(),
        "lo-fi beats".into(),
        "***".into(),
        "Jazz_Café".into(),
    ]);
    assert_eq!(result.len(), 2);
    assert_eq!(result[0].raw, "Lo-Fi   Beats!!");
    assert_eq!(result[0].normalized, "lo-fi beats");
    assert_eq!(result[1].normalized, "jazz_caf");
}

#[test]
fn bitrate_table_covers_every_band() {
    assert_eq!(bitrate_for_resolution("2160p"), Some(14_000_000));
    assert_eq!(bitrate_for_resolution("1440p"), Some(8_500_000));
    assert_eq!(bitrate_for_resolution("1440p60"), Some(14_000_000));
    assert_eq!(bitrate_for_resolution("480p"), Some(1_800_000));
    assert_eq!(bitrate_for_resolution("240p"), Some(600_000));
    assert_eq!(bitrate_for_resolution("99999999999p"), None);
}

#[test]
fn parse_height_reads_all_digits() {
    assert_eq!(parse_height("HD 1080p"), Some(1080));
    assert_eq!(parse_height("4K (2160p)"), Some(42160));
    assert_eq!(parse_height("auto"), None);
}

#[test]
fn escape_js_escapes_backslashes_and_quotes() {
    assert_eq!(escape_js(r#"a"b\c"#), r#"a\"b\\c"#);
    assert_eq!(escape_js("plain"), "plain");
}

#[test]
fn collapse_whitespace_joins_words() {
    assert_eq!(collapse_whitespace("  a \t b\n\nc  "), "a b c");
    assert_eq!(collapse_whitespace("   "), "");
}

#[test]
fn select_title_takes_last_longest_nonblank() {
    let extractor = extractor();
    let title = extractor.select_title(vec![
        "   ".into(),
        "Short".into(),
        " Longer title ".into(),
        "Same length!".into(),
    ]);
    assert_eq!(title.as_deref(), Some("Longer title"));
    assert_eq!(extractor.select_title(vec!["  ".into()]), None);
}

#[test]
fn assemble_normalizes_the_payload() {
    let extractor = extractor();
    let payload = RawMetadataPayload {
        title_candidates: vec!["Clip".into()],
        tags: vec!["Rain".into()],
        breadcrumbs: vec![" Home ".into(), "  ".into(), "Videos".into()],
        resolution_labels: vec!["Auto".into(), " 720p ".into(), "1080p".into()],
        license_text: Some("  ".into()),
    };
    let meta = extractor.assemble(payload, Some(90));
    assert_eq!(meta.title.as_deref(), Some("Clip"));
    assert_eq!(meta.duration_seconds, Some(90));
    assert_eq!(meta.tags.len(), 1);
    assert_eq!(meta.breadcrumbs, vec!["Home".to_string(), "Videos".to_string()]);
    assert_eq!(meta.resolution_label.as_deref(), Some("720p"));
    assert_eq!(meta.expected_bitrate, Some(3_200_000));
    assert_eq!(meta.license_hint, None);
}

#[test]
fn capture_kind_follows_the_url() {
    assert!(matches!(infer_capture_kind("https://x/master.m3u8"), BrowserCaptureKind::HlsMaster));
    assert!(matches!(infer_capture_kind("https://x/v1.m3u8"), BrowserCaptureKind::HlsMediaPlaylist));
    assert!(matches!(infer_capture_kind("https://x/a.mpd"), BrowserCaptureKind::DashManifest));
    assert!(matches!(infer_capture_kind("https://x/a.webm"), BrowserCaptureKind::Progressive));
    assert!(matches!(infer_capture_kind("https://x/page"), BrowserCaptureKind::Unknown));
}

#[test]
fn capture_prefers_a_captured_manifest() {
    let capture = capture_from_payload(
        Some("https://x/video.mp4".into()),
        &vec![],
        vec!["https://x/ad.js".into(), "https://x/master.m3u8".into()],
        Some("1080p".into()),
    )
    .unwrap();
    assert_eq!(capture.url, "https://x/master.m3u8");
    assert!(matches!(capture.kind, BrowserCaptureKind::HlsMaster));
    assert_eq!(capture.associated_requests.len(), 2);
    let fallback = capture_from_payload(None, &vec!["".into(), "https://x/v.mp4".into()], vec![], None)
        .unwrap();
    assert_eq!(fallback.url, "https://x/v.mp4");
    let missing = capture_from_payload(None, &vec![], vec![], None);
    assert!(matches!(missing, Err(BrowserError::Network(m)) if m == "unable to determine manifest url"));
}

#[test]
fn quality_options_follow_priority() {
    let options = vec![
        QualityOption { index: 0, text: "480p".into() },
        QualityOption { index: 1, text: "1080P HD".into() },
        QualityOption { index: 2, text: "720p".into() },
    ];
    let chosen = select_quality_options(&vec!["1080p".into(), "4k".into(), "720p".into()], &options);
    assert_eq!(chosen.len(), 2);
    assert_eq!(chosen[0].index, 1);
    assert_eq!(chosen[1].index, 2);
}

fn searcher(engine: SearchEngine, filter: Vec<String>, max: usize) -> ContentSearcher {
    ContentSearcher::new(SearchConfig {
        search_engine: engine,
        scroll_iterations: 2,
        max_results: max,
        filter_domains: filter,
        delay_range_ms: (0, 0),
    })
}

#[test]
fn query_urls_are_form_encoded() {
    let s = searcher(SearchEngine::Google, vec![], 5);
    assert_eq!(
        s.build_query_url("lo fi/jazz"),
        "https://www.google.com/search?q=lo+fi%2Fjazz&tbm=vid"
    );
    let d = searcher(SearchEngine::DuckDuckGo, vec![], 5);
    assert_eq!(
        d.build_query_url("a&b"),
        "https://duckduckgo.com/?q=a%26b&ia=video&iax=videos"
    );
}

#[test]
fn engine_names_parse_in_any_case() {
    assert!(matches!(SearchEngine::parse("DDG"), Ok(SearchEngine::DuckDuckGo)));
    assert!(matches!(SearchEngine::parse("Bing"), Ok(SearchEngine::Bing)));
    assert_eq!(SearchEngine::Google.label(), "google");
    assert!(matches!(
        SearchEngine::parse("Yahoo"),
        Err(BrowserError::Configuration(m)) if m == "invalid search engine: yahoo"
    ));
}

#[test]
fn candidates_are_deduplicated_ranked_and_filtered() {
    let s = searcher(SearchEngine::Bing, vec!["vimeo".into()], 1);
    let raw = vec![
        SearchResultRaw { url: "https://Vimeo.com/1".into(), title: Some("Rain".into()), snippet: None },
        SearchResultRaw { url: "".into(), title: None, snippet: None },
        SearchResultRaw { url: "https://Vimeo.com/1".into(), title: None, snippet: None },
        SearchResultRaw { url: "https://example.org/x".into(), title: None, snippet: Some("video".into()) },
        SearchResultRaw { url: "https://vimeo.com/2".into(), title: None, snippet: None },
    ];
    let cands = s.normalize_candidates(raw);
    assert_eq!(cands.len(), 3);
    assert_eq!(cands[0].rank, 1);
    assert_eq!(cands[0].domain, "vimeo.com");
    assert_eq!(cands[2].rank, 3);
    let kept: Vec<Candidate> = s.filter_candidates(cands);
    assert_eq!(kept.len(), 1);
    assert_eq!(kept[0].url, "https://Vimeo.com/1");
}

#[test]
fn discovery_stats_follow_outcomes() {
    let config = DiscoveryConfig {
        max_plans_per_run: 1,
        candidate_delay_range_ms: (0, 0),
        stop_on_first_error: true,
        dry_run: false,
        debug: false,
    };
    let mut stats = DiscoveryStats::new("rain", "google", false);
    assert!(stats.has_room(&config));
    assert!(!stats.waits_before_next());
    assert!(stats.record_candidate(CandidateOutcome::PlanCreated, config.stop_on_first_error));
    assert!(!stats.has_room(&config));
    assert!(stats.waits_before_next());
    stats.record_wait(250);
    let go_on = stats.record_candidate(
        CandidateOutcome::Failed { url: "https://x".into(), error: "boom".into() },
        config.stop_on_first_error,
    );
    assert!(!go_on);
    assert_eq!(stats.candidates_processed, 1);
    assert_eq!(stats.total_wait_ms, 250);
    assert_eq!(stats.errors, vec!["https://x: boom".to_string()]);
    assert!(matches!(candidate_step(BrowserCaptureKind::Unknown, false), CandidateStep::Reject));
    assert!(matches!(candidate_step(BrowserCaptureKind::Progressive, true), CandidateStep::Skip));
}

#[test]
fn rate_limiter_draws_within_bounds() {
    assert_eq!(RateLimiter::new((0, 0)).next_delay(), 0);
    for _ in 0..50 {
        let d = RateLimiter::new((900, 300)).next_delay();
        assert!((300..=900).contains(&d));
    }
}

#[test]
fn recorder_arguments_and_warnings() {
    let recorder = SessionRecorder::new(SessionRecorderConfig::default());
    let args = recorder.ffmpeg_arguments(30, "out.mp4");
    assert_eq!(
        args,
        vec!["-y", "-f", "x11grab", "-i", ":0.0", "-t", "30", "-vcodec", "libx264", "out.mp4"]
    );
    assert_eq!(
        recorder.output_path("smoke", "20240101000000"),
        "artifacts/qa/video/smoke_20240101000000.mp4"
    );
    assert_eq!(recorder.finish_warning(&RecorderExit::Succeeded), None);
    assert_eq!(
        recorder.finish_warning(&RecorderExit::Unavailable).as_deref(),
        Some("ffmpeg not available; generated placeholder video")
    );
    assert_eq!(
        recorder.finish_warning(&RecorderExit::ExecError("denied".into())).as_deref(),
        Some("ffmpeg execution error: denied")
    );
}

#[test]
fn profiles_expire_strictly_after_their_lifetime() {
    let manager = ProfileManager::from_config("/tmp/profiles");
    assert_eq!(manager.ttl(), 86400);
    assert!(!manager.is_expired(86400, 0));
    assert!(manager.is_expired(86400, 1));
    assert_eq!(manager.base_dir(), "/tmp/profiles");
}

fn escape_js_reference(input: &str) -> String {
    input.replace("\\", "\\\\").replace('"', "\\\"")
}

fn expected_script(section: &SelectorSection) -> String {
        let selectors = section;
        let tag_selector = selectors
            .play_buttons
            .iter()
            .map(|s| format!("'{}'", escape_js_reference(s)))
            .collect::<Vec<_>>()
            .join(",");
        let breadcrumb_selector = "[class*='breadcrumb'] a, nav.breadcrumb a";
        let quality_selector = selectors
            .quality_menu
            .iter()
            .map(|s| {
                format!(
                    "document.querySelectorAll('{} *'), document.querySelectorAll('{}')",
                    escape_js_reference(s),
                    escape_js_reference(s)
                )
            })
            .collect::<Vec<_>>()
            .join(",");
        let license_candidates = vec![
            "meta[name='license']",
            "meta[property='og:site_name']",
            "meta[name='copyright']",
        ];
        format!(
            r#"
(() => {{
    const pick = (list) => Array.from(list).map(el => (el.textContent || '').trim()).filter(Boolean);
    const unique = (items) => Array.from(new Set(items));
    const titleCandidates = unique([
        document.title || '',
        (document.querySelector('h1') || {{}}).innerText || '',
        (document.querySelector("meta[property='og:title']") || {{}}).content || '',
        (document.querySelector("meta[name='title']") || {{}}).content || ''
    ].filter(Boolean));
    const tagSelectors = [{tag_selector}];
    const tags = unique(tagSelectors.flatMap(selector => pick(document.querySelectorAll(selector))));
    const breadcrumbs = unique(pick(document.querySelectorAll('{breadcrumb_selector}')));
    const qualityNodes = [{quality_selector}];
    const resolutionLabels = unique(qualityNodes.flatMap(nodes => pick(nodes)));
    const licenseNodes = [{license_selectors}];
    const licenseText = licenseNodes
        .map(sel => document.querySelector(sel))
        .filter(Boolean)
        .map(node => (node.content || node.innerText || '').trim())
        .find(Boolean) || null;
    return {{
        title_candidates: titleCandidates,
        tags,
        breadcrumbs,
        resolution_labels: resolutionLabels,
        license_text: licenseText
    }};
}})()
"#,
            tag_selector = tag_selector,
            breadcrumb_selector = escape_js_reference(breadcrumb_selector),
            quality_selector = quality_selector,
            license_selectors = license_candidates
                .into_iter()
                .map(|s| format!("'{}'", escape_js_reference(s)))
                .collect::<Vec<_>>()
                .join(","),
        )
    }


#[test]
fn scraper_script_matches_the_page_template() {
    let section = SelectorSection {
        video_element: "video".into(),
        play_buttons: vec![".play".into(), "a[title=\"x\"]".into()],
        quality_menu: vec![".quality".into()],
        consent_buttons: vec![".consent".into()],
    };
    let extractor = MetadataExtractor::new(section.clone());
    assert_eq!(extractor.dom_scraper_script(), expected_script(&section));
}

#[test]
fn proxy_pool_reads_lists() {
    let mut pool = ProxyPool::from_env_list(" http://a:1 , ,http://b:2");
    assert!(!pool.wants_file(true));
    let p = pool.next().unwrap();
    assert!(p == "http://a:1" || p == "http://b:2");
    let mut empty = ProxyPool::from_env_list("  ");
    assert!(empty.wants_file(true));
    assert!(!empty.wants_file(false));
    assert_eq!(empty.next(), None);
    empty.extend_from_file("socks5://c:3\n\n  socks5://d:4  \n");
    let q = empty.next().unwrap();
    assert!(q == "socks5://c:3" || q == "socks5://d:4");
    pool.extend_from_file("");
    assert_eq!(
        select_user_agent(&vec![]),
        "Mozilla/5.0 (Macintosh; Intel Mac OS X 13_4) AppleWebKit/605.1.15 (KHTML, like Gecko)"
    );
    assert_eq!(select_user_agent(&vec!["UA-1".to_string()]), "UA-1");
    for _ in 0..30 {
        let (w, h) = viewport_size(&vec![[1920, 1080]], 16);
        assert!((1904..=1936).contains(&w));
        assert!((1064..=1096).contains(&h));
        let (w0, h0) = viewport_size(&vec![[100, 3000]], 0);
        assert_eq!((w0, h0), (640, 1600));
    }
}

fn chromium_section(disable_gpu: bool, sandbox: bool) -> ChromiumSection {
    ChromiumSection {
        executable_path: "/usr/bin/chromium".into(),
        headless: true,
        sandbox,
        disable_gpu,
        max_memory_mb: None,
        max_tabs_per_instance: None,
        tab_timeout_seconds: Some(30),
    }
}

#[test]
fn chromium_launch_plan_lists_flags_in_order() {
    let flags = FlagsSection {
        no_first_run: true,
        disable_automation_controlled: true,
        disable_blink_features: vec!["AutomationControlled".into(), "Other".into()],
        mute_audio: true,
        autoplay_policy: "no-user-gesture-required".into(),
        lang: Some("pt-BR".into()),
        accept_language: Some("pt-BR,en".into()),
    };
    let plan = chromium_launch_plan(
        &chromium_section(true, false),
        &flags,
        "/profiles/p1",
        1366,
        768,
        "UA/1.0",
        &Some("http://proxy:8080".to_string()),
        false,
    );
    assert_eq!(
        plan.args,
        vec![
            "--user-agent=UA/1.0",
            "--window-size=1366,768",
            "--disable-gpu",
            "--mute-audio",
            "--autoplay-policy=no-user-gesture-required",
            "--lang=pt-BR",
            "--proxy-server=http://proxy:8080",
            "--disable-blink-features=AutomationControlled",
            "--disable-blink-features=Other",
            "--no-first-run",
            "--disable-features=AutomationControlled",
            "--accept-lang=pt-BR,en",
            "--disable-background-timer-throttling",
            "--password-store=basic",
        ]
    );
    assert_eq!(plan.executable_path, "/usr/bin/chromium");
    assert_eq!(plan.user_data_dir, "/profiles/p1");
    assert!(plan.is_landscape);
    assert!(plan.with_head);
    assert!(plan.no_sandbox);
    assert_eq!(plan.request_timeout_secs, Some(30));
}

#[test]
fn chromium_launch_plan_minimal_flags() {
    let flags = FlagsSection {
        no_first_run: false,
        disable_automation_controlled: false,
        disable_blink_features: vec![],
        mute_audio: false,
        autoplay_policy: String::new(),
        lang: None,
        accept_language: None,
    };
    let plan = chromium_launch_plan(&chromium_section(false, true), &flags, "p", 700, 900, "ua", &None, true);
    assert_eq!(
        plan.args,
        vec![
            "--user-agent=ua",
            "--window-size=700,900",
            "--disable-background-timer-throttling",
            "--password-store=basic",
        ]
    );
    assert!(!plan.is_landscape);
    assert!(!plan.with_head);
    assert!(!plan.no_sandbox);
}

fn fingerprint_section(canvas: bool, webgl: bool, audio: bool) -> FingerprintSection {
    FingerprintSection {
        enable_canvas_noise: canvas,
        enable_webgl_mask: webgl,
        enable_audio_mask: audio,
        canvas_noise_range: [-3, 5],
        audio_noise: "0.0001".into(),
        webgl_vendor: None,
        webgl_renderer: Some("ANGLE".into()),
    }
}

fn expected_canvas(min: i32, max: i32) -> String {
    format!(
            r#"
            (() => {{
                const randomInt = (min, max) => {{
                    return Math.floor(Math.random() * (max - min + 1)) + min;
                }};
                const originalToDataURL = HTMLCanvasElement.prototype.toDataURL;
                HTMLCanvasElement.prototype.toDataURL = function() {{
                    try {{
                        const ctx = this.getContext('2d');
                        if (ctx) {{
                            const imageData = ctx.getImageData(0, 0, this.width, this.height);
                            for (let i = 0; i < imageData.data.length; i += 4) {{
                                const delta = randomInt({min}, {max});
                                imageData.data[i] = Math.min(255, Math.max(0, imageData.data[i] + delta));
                            }}
                            ctx.putImageData(imageData, 0, 0);
                        }}
                    }} catch (_) {{}}
                    return originalToDataURL.apply(this, arguments);
                }};
            }})();
            "#
        )
}

fn expected_webgl(vendor: &str, renderer: &str) -> String {
    format!(
            r#"
            (() => {{
                const spoofParam = (proto) => {{
                    if (!proto || !proto.getParameter) {{
                        return;
                    }}
                    const original = proto.getParameter;
                    proto.getParameter = function(param) {{
                        if (param === 37445) {{
                            return '{vendor}';
                        }}
                        if (param === 37446) {{
                            return '{renderer}';
                        }}
                        return original.apply(this, arguments);
                    }};
                }};
                spoofParam(WebGLRenderingContext?.prototype);
                spoofParam(WebGL2RenderingContext?.prototype);
            }})();
            "#
        )
}

fn expected_audio(noise: &str) -> String {
    format!(
            r#"
            (() => {{
                const noiseLevel = {noise};
                const origGetChannelData = AudioBuffer?.prototype?.getChannelData;
                if (!origGetChannelData) {{
                    return;
                }}
                AudioBuffer.prototype.getChannelData = function(channel) {{
                    const data = origGetChannelData.call(this, channel);
                    if (data) {{
                        for (let i = 0; i < data.length; i++) {{
                            data[i] = data[i] + (Math.random() * noiseLevel - noiseLevel / 2);
                        }}
                    }}
                    return data;
                }};
            }})();
            "#
        )
}

#[test]
fn fingerprint_scripts_match_templates() {
    assert_eq!(canvas_noise_script(-3, 5), expected_canvas(-3, 5));
    assert_eq!(canvas_noise_script(0, 12), expected_canvas(0, 12));
    assert_eq!(webgl_mask_script("Intel Inc.", "ANGLE"), expected_webgl("Intel Inc.", "ANGLE"));
    assert_eq!(audio_mask_script("0.0001"), expected_audio("0.0001"));
}

#[test]
fn fingerprint_masker_applies_enabled_masks_in_order() {
    let all = FingerprintMasker::new(fingerprint_section(true, true, true)).scripts();
    assert_eq!(
        all,
        vec![
            expected_canvas(-3, 5),
            expected_webgl("Intel Inc.", "ANGLE"),
            expected_audio("0.0001"),
        ]
    );
    let webgl_only = FingerprintMasker::new(fingerprint_section(false, true, false)).scripts();
    assert_eq!(webgl_only, vec![expected_webgl("Intel Inc.", "ANGLE")]);
    assert!(FingerprintMasker::new(fingerprint_section(false, false, false)).scripts().is_empty());
    let mut defaults = fingerprint_section(false, true, false);
    defaults.webgl_renderer = None;
    assert_eq!(
        FingerprintMasker::new(defaults).scripts(),
        vec![expected_webgl("Intel Inc.", "Intel Iris OpenGL Engine")]
    )
}

fn expected_language_script(lang: &str) -> String {
    format!(
                "Object.defineProperty(navigator, 'language', {{ get: () => '{lang}' }});\nObject.defineProperty(navigator, 'languages', {{ get: () => ['{lang}', 'en-US'] }});"
            )
}

#[test]
fn page_scripts_set_language_then_hook_requests() {
    assert_eq!(language_script("pt-BR"), expected_language_script("pt-BR"));
    let mut flags = FlagsSection {
        no_first_run: false,
        disable_automation_controlled: false,
        disable_blink_features: vec![],
        mute_audio: false,
        autoplay_policy: String::new(),
        lang: Some("pt-BR".into()),
        accept_language: None,
    };
    let scripts = page_scripts(&flags);
    assert_eq!(scripts.len(), 2);
    assert_eq!(scripts[0], expected_language_script("pt-BR"));
    assert!(scripts[1].contains("__vvtvCapturedRequests"));
    flags.lang = None;
    let scripts = page_scripts(&flags);
    assert_eq!(scripts.len(), 1);
    assert!(scripts[0].contains("window.fetch"));
}

#[test]
fn smoke_run_decisions() {
    let options = SmokeTestOptions::default();
    assert_eq!(options.launch_overrides().headless, Some(true));
    let headed = SmokeTestOptions { mode: SmokeMode::Headed, ..SmokeTestOptions::default() };
    assert_eq!(headed.launch_overrides().headless, Some(false));
    assert!(!options.films(true));
    let filmed = SmokeTestOptions { record_video: true, ..SmokeTestOptions::default() };
    assert!(filmed.films(true));
    assert!(!filmed.films(false));
    assert_eq!(recording_label("20240601120000"), "smoke-20240601120000");
}

#[test]
fn smoke_screenshot_steps() {
    let options = SmokeTestOptions::default();
    match screenshot_step(&options, true, "20240601120000", 2) {
        ScreenshotStep::Save(path) => {
            assert_eq!(path, "artifacts/qa/screenshots/smoke_20240601120000_2.png")
        }
        other => panic!("unexpected {:?}", other),
    }
    match screenshot_step(&options, false, "t", 1) {
        ScreenshotStep::Warn(w) => assert_eq!(w, "screenshot capture returned empty data"),
        other => panic!("unexpected {:?}", other),
    }
    let elsewhere = SmokeTestOptions { screenshot_dir: Some("/tmp/shots/".into()), ..SmokeTestOptions::default() };
    match screenshot_step(&elsewhere, true, "t", 10) {
        ScreenshotStep::Save(path) => assert_eq!(path, "/tmp/shots/smoke_t_10.png"),
        other => panic!("unexpected {:?}", other),
    }
    let no_dir = SmokeTestOptions { screenshot_dir: None, ..SmokeTestOptions::default() };
    match screenshot_step(&no_dir, true, "t", 1) {
        ScreenshotStep::Save(path) => assert_eq!(path, "artifacts/qa/screenshots/smoke_t_1.png"),
        other => panic!("unexpected {:?}", other),
    }
    let none = SmokeTestOptions { capture_screenshot: false, ..SmokeTestOptions::default() };
    assert!(matches!(screenshot_step(&none, true, "t", 1), ScreenshotStep::Skip));
}

fn rotation_section(nodes: Vec<&str>) -> IpRotationSection {
    IpRotationSection {
        enabled: true,
        tailscale_binary: "tailscale".into(),
        exit_nodes: nodes.into_iter().map(|n| n.to_string()).collect(),
        cooldown_seconds: 0,
    }
}

#[test]
fn rotation_goes_round_the_usable_nodes() {
    let mut rotator = IpRotator::new(rotation_section(vec!["fra.exit.ts.net", "  ", "nyc.exit.ts.net"]));
    let expected = ["fra.exit.ts.net", "nyc.exit.ts.net", "fra.exit.ts.net", "nyc.exit.ts.net"];
    for node in expected {
        let (chosen, args) = rotator.prepare_rotation().unwrap();
        assert_eq!(chosen, node);
        assert_eq!(args, vec!["set".to_string(), "--exit-node".to_string(), node.to_string()]);
    }
    assert_eq!(rotator.binary(), "tailscale");
}

#[test]
fn rotation_without_nodes_does_nothing() {
    let mut rotator = IpRotator::new(rotation_section(vec![]));
    assert!(!rotator.has_exit_nodes());
    assert!(rotator.prepare_rotation().is_none());
}

#[test]
fn viewport_from_draws_moves_and_clamps() {
    let resolutions = vec![[1920, 1080], [600, 400]];
    assert_eq!(viewport_from_draws(&resolutions, 10, 0, 0, 20), (1910, 1090));
    assert_eq!(viewport_from_draws(&resolutions, 10, 1, 10, 10), (640, 480));
    assert_eq!(viewport_from_draws(&vec![], 5, 0, 5, 0), (1366, 763));
    assert_eq!(viewport_from_draws(&vec![[3000, 2000]], 0, 0, 0, 0), (2560, 1600));
}
