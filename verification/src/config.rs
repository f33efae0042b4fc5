//! Sections of the station's configuration files, as plain values.
use vstd::prelude::*;

use crate::text::{path_join, path_join_str};

verus! {

#[derive(Clone, Debug)]
pub struct SystemSection {
    pub node_name: String,
    pub node_role: String,
    pub node_id: String,
    pub environment: String,
}

#[derive(Clone, Debug)]
pub struct PathsSection {
    pub base_dir: String,
    pub data_dir: String,
    pub cache_dir: String,
    pub storage_dir: String,
    pub broadcast_dir: String,
    pub logs_dir: String,
    pub vault_dir: String,
}

#[derive(Clone, Debug)]
pub struct NetworkSection {
    pub tailscale_domain: String,
    pub rtmp_port: u16,
    pub hls_port: u16,
    pub control_port: u16,
    pub cdn_primary: String,
    pub cdn_backup: String,
}

#[derive(Clone, Debug)]
pub struct SecuritySection {
    pub sandbox_enabled: bool,
    pub fingerprint_randomization: bool,
    pub proxy_rotation_enabled: bool,
    pub csam_check_enabled: bool,
    pub drm_detection_abort: bool,
    pub allow_rtmp_from: Vec<String>,
    pub allow_hls_from: Vec<String>,
    pub allow_ssh_from: Vec<String>,
}

#[derive(Clone, Debug)]
pub struct MonitoringSection {
    pub health_check_interval_seconds: u64,
    pub metrics_collection_interval_seconds: u64,
    pub capture_interval_minutes: u64,
    pub alert_telegram_enabled: bool,
    pub alert_email_enabled: bool,
}

#[derive(Clone, Debug)]
pub struct ChromiumSection {
    pub executable_path: String,
    pub headless: bool,
    pub sandbox: bool,
    pub disable_gpu: bool,
    pub max_memory_mb: Option<u64>,
    pub max_tabs_per_instance: Option<u32>,
    pub tab_timeout_seconds: Option<u64>,
}

#[derive(Clone, Debug)]
pub struct FlagsSection {
    pub no_first_run: bool,
    pub disable_automation_controlled: bool,
    pub disable_blink_features: Vec<String>,
    pub mute_audio: bool,
    pub autoplay_policy: String,
    pub lang: Option<String>,
    pub accept_language: Option<String>,
}

#[derive(Clone, Debug)]
pub struct UserAgentSection {
    pub pool: Vec<String>,
    pub rotation_frequency: u32,
}

#[derive(Clone, Debug)]
pub struct HumanSimulationSection {
    pub mouse_speed_min_px_s: u32,
    pub mouse_speed_max_px_s: u32,
    pub mouse_jitter_px: u32,
    pub click_hesitation_ms: [u32; 2],
    pub click_duration_ms: [u32; 2],
    pub scroll_burst_px: [u32; 2],
    pub scroll_pause_ms: [u32; 2],
    pub scroll_near_player_slow: bool,
    pub typing_cadence_cpm: [u32; 2],
    pub typing_jitter_ms: [u32; 2],
    pub error_frequency_chars: [u32; 2],
    pub idle_duration_ms: [u32; 2],
    pub ociosidade_frequency: [u32; 2],
}

#[derive(Clone, Debug)]
pub struct PbdSection {
    pub enabled: bool,
    pub force_hd: bool,
    pub hd_priority: Vec<String>,
    pub playback_wait_seconds: [u32; 2],
    pub validation_buffer_seconds: u32,
}

#[derive(Clone, Debug)]
pub struct SelectorSection {
    pub video_element: String,
    pub play_buttons: Vec<String>,
    pub quality_menu: Vec<String>,
    pub consent_buttons: Vec<String>,
}

#[derive(Clone, Debug)]
pub struct ProxySection {
    pub enabled: bool,
    pub proxy_type: String,
    pub rotation_pages: u32,
    pub timeout_seconds: u32,
}

#[derive(Clone, Debug)]
pub struct SourcesSection {
    pub whitelist: Vec<String>,
    pub blacklist: Vec<String>,
}

/// Which fingerprint masks a browser applies. The audio noise level is kept
/// as the decimal text it is written into the masking script with.
#[derive(Clone, Debug)]
pub struct FingerprintSection {
    pub enable_canvas_noise: bool,
    pub enable_webgl_mask: bool,
    pub enable_audio_mask: bool,
    pub canvas_noise_range: [i32; 2],
    pub audio_noise: String,
    pub webgl_vendor: Option<String>,
    pub webgl_renderer: Option<String>,
}

#[derive(Clone, Debug)]
pub struct RetrySection {
    pub max_attempts: usize,
    pub schedule_minutes: Vec<u64>,
    pub jitter_seconds: u64,
}

#[derive(Clone, Debug)]
pub struct IpRotationSection {
    pub enabled: bool,
    pub tailscale_binary: String,
    pub exit_nodes: Vec<String>,
    pub cooldown_seconds: u64,
}

#[derive(Clone, Debug)]
pub struct ObservabilitySection {
    pub failure_log: String,
    pub metrics_db: String,
}

#[derive(Clone, Debug)]
pub struct DownloadSection {
    pub tool: String,
    pub max_retries: u32,
    pub retry_delay_seconds: [u32; 2],
    pub bandwidth_limit_mbps: u32,
    pub resume_enabled: bool,
}

#[derive(Clone, Debug)]
pub struct HlsSection {
    pub vod_only: bool,
    pub verify_sequence: bool,
    pub rewrite_playlist: bool,
}

#[derive(Clone, Debug)]
pub struct DashSection {
    pub prefer_h264: bool,
    pub remux_to_hls: bool,
}

#[derive(Clone, Debug)]
pub struct ProgressiveSection {
    pub head_check: bool,
    pub min_size_mb: u32,
}

#[derive(Clone, Debug)]
pub struct RemuxSection {
    pub prefer_copy: bool,
    pub faststart: bool,
    pub fallback_transcode: bool,
}

#[derive(Clone, Debug)]
pub struct TranscodeSection {
    pub codec: String,
    pub preset: String,
    pub crf: u8,
    pub profile: String,
    pub level: String,
    pub pix_fmt: String,
    pub keyint: u32,
    pub min_keyint: u32,
    pub scenecut: u32,
    pub vbv_maxrate: String,
    pub vbv_bufsize: String,
}

#[derive(Clone, Debug)]
pub struct ProfilesSection {
    pub hls_720p: ProfileEntry,
    pub hls_480p: ProfileEntry,
}

#[derive(Clone, Debug)]
pub struct ProfileEntry {
    pub scale: String,
    pub video_bitrate: String,
    pub maxrate: String,
    pub bufsize: String,
    pub audio_bitrate: String,
    pub preset: String,
    pub profile: String,
    pub level: String,
}

#[derive(Clone, Debug)]
pub struct QcSection {
    pub ffprobe_validation: bool,
    pub checksums_sha256: bool,
    pub duration_tolerance_percent: u32,
    pub min_duration_video_s: u32,
    pub min_duration_music_s: u32,
}

#[derive(Clone, Debug)]
pub struct RtmpSection {
    pub origin: String,
    pub chunk_size: u32,
    pub reconnect_attempts: u32,
    pub reconnect_delay_ms: u32,
}

#[derive(Clone, Debug)]
pub struct BroadcasterHlsSection {
    pub output_path: String,
    pub segment_duration: u32,
    pub playlist_length: String,
    pub segment_type: String,
    pub flags: Vec<String>,
}

#[derive(Clone, Debug)]
pub struct FailoverSection {
    pub enabled: bool,
    pub standby_encoder: bool,
    pub detection_timeout_seconds: u32,
    pub emergency_loop_hours: u32,
}

#[derive(Clone, Debug)]
pub struct WatchdogSection {
    pub interval_seconds: u32,
    pub restart_on_freeze: bool,
    pub restart_max_attempts: u32,
}

#[derive(Clone, Debug)]
pub struct FfmpegSection {
    pub log_level: String,
    pub stats_period: String,
    pub thread_queue_size: u32,
}

/// A path from the configuration resolved against the base directory:
/// absolute paths stay as they are, relative ones are joined to the base.
pub fn resolve_path(base_dir: &str, candidate: &str) -> (r: String)
    ensures
        r@ == path_join(base_dir@, candidate@),
{
    path_join_str(base_dir, candidate)
}

} // verus!
