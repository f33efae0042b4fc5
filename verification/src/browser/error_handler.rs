//! Classification of browser errors and the records kept of failures and runs.
use vstd::prelude::*;

use crate::browser::error::{error_text, BrowserError};
use crate::text::{contains, owned, spec_to_lowercase, str_contains, to_lowercase};
use crate::time::UtcTimestamp;

verus! {

/// What kind of trouble a browser error points to.
#[derive(Clone, Copy, Debug, PartialEq, Eq, Structural)]
pub enum BrowserErrorCategory {
    PlayerNotFound,
    HdUnavailable,
    BotDetection,
    ManifestInvalid,
    NetworkTimeout,
    NetworkOther,
    Unexpected,
}

pub open spec fn lc(s: Seq<char>) -> Seq<char> {
    spec_to_lowercase(s)
}

/// The category of an error, read from its kind and the words in its message
/// (matched in lower case, except for timeouts).
pub open spec fn category_of(e: BrowserError) -> BrowserErrorCategory {
    match e {
        BrowserError::Timeout(m) => if contains(m@, "video playback"@) || contains(
            m@,
            "validation"@,
        ) {
            BrowserErrorCategory::HdUnavailable
        } else {
            BrowserErrorCategory::NetworkTimeout
        },
        BrowserError::Network(m) => if contains(lc(m@), "captcha"@) || contains(lc(m@), "bot"@)
            || contains(lc(m@), "forbidden"@) {
            BrowserErrorCategory::BotDetection
        } else if contains(lc(m@), "manifest"@) {
            BrowserErrorCategory::ManifestInvalid
        } else if contains(lc(m@), "video element not found"@) {
            BrowserErrorCategory::PlayerNotFound
        } else {
            BrowserErrorCategory::NetworkOther
        },
        BrowserError::Metadata(m) => if contains(lc(m@), "manifest"@) {
            BrowserErrorCategory::ManifestInvalid
        } else {
            BrowserErrorCategory::Unexpected
        },
        BrowserError::Profile(m) => if contains(lc(m@), "play"@) {
            BrowserErrorCategory::PlayerNotFound
        } else {
            BrowserErrorCategory::Unexpected
        },
        BrowserError::Unexpected(m) => if contains(lc(m@), "captcha"@) {
            BrowserErrorCategory::BotDetection
        } else {
            BrowserErrorCategory::Unexpected
        },
        BrowserError::Launch(m) => if contains(lc(m@), "permission"@) {
            BrowserErrorCategory::Unexpected
        } else {
            BrowserErrorCategory::NetworkOther
        },
        BrowserError::Cdp(m) => if contains(lc(m@), "timeout"@) {
            BrowserErrorCategory::NetworkTimeout
        } else if contains(lc(m@), "captcha"@) {
            BrowserErrorCategory::BotDetection
        } else {
            BrowserErrorCategory::Unexpected
        },
        BrowserError::Io(_) => BrowserErrorCategory::NetworkOther,
        BrowserError::Qa(_) => BrowserErrorCategory::Unexpected,
        BrowserError::Telemetry(_) => BrowserErrorCategory::Unexpected,
        BrowserError::IpRotation(_) => BrowserErrorCategory::NetworkOther,
        BrowserError::Screenshot(_) => BrowserErrorCategory::Unexpected,
        BrowserError::SessionRecording(_) => BrowserErrorCategory::Unexpected,
        BrowserError::Configuration(_) => BrowserErrorCategory::Unexpected,
    }
}

/// Classifies browser errors.
pub struct ErrorCategorizer;

impl ErrorCategorizer {
    /// The category of an error.
    pub fn categorize(error: &BrowserError) -> (r: BrowserErrorCategory)
        ensures
            r == category_of(*error),
    {
        match error {
            BrowserError::Timeout(message) => {
                if str_contains(message.as_str(), "video playback") || str_contains(
                    message.as_str(),
                    "validation",
                ) {
                    BrowserErrorCategory::HdUnavailable
                } else {
                    BrowserErrorCategory::NetworkTimeout
                }
            },
            BrowserError::Network(message) => {
                let lower = to_lowercase(message.as_str());
                let l = lower.as_str();
                if str_contains(l, "captcha") || str_contains(l, "bot") || str_contains(
                    l,
                    "forbidden",
                ) {
                    BrowserErrorCategory::BotDetection
                } else if str_contains(l, "manifest") {
                    BrowserErrorCategory::ManifestInvalid
                } else if str_contains(l, "video element not found") {
                    BrowserErrorCategory::PlayerNotFound
                } else {
                    BrowserErrorCategory::NetworkOther
                }
            },
            BrowserError::Metadata(message) => {
                let lower = to_lowercase(message.as_str());
                if str_contains(lower.as_str(), "manifest") {
                    BrowserErrorCategory::ManifestInvalid
                } else {
                    BrowserErrorCategory::Unexpected
                }
            },
            BrowserError::Profile(message) => {
                let lower = to_lowercase(message.as_str());
                if str_contains(lower.as_str(), "play") {
                    BrowserErrorCategory::PlayerNotFound
                } else {
                    BrowserErrorCategory::Unexpected
                }
            },
            BrowserError::Unexpected(message) => {
                let lower = to_lowercase(message.as_str());
                if str_contains(lower.as_str(), "captcha") {
                    BrowserErrorCategory::BotDetection
                } else {
                    BrowserErrorCategory::Unexpected
                }
            },
            BrowserError::Launch(message) => {
                let lower = to_lowercase(message.as_str());
                if str_contains(lower.as_str(), "permission") {
                    BrowserErrorCategory::Unexpected
                } else {
                    BrowserErrorCategory::NetworkOther
                }
            },
            BrowserError::Cdp(message) => {
                let lower = to_lowercase(message.as_str());
                if str_contains(lower.as_str(), "timeout") {
                    BrowserErrorCategory::NetworkTimeout
                } else if str_contains(lower.as_str(), "captcha") {
                    BrowserErrorCategory::BotDetection
                } else {
                    BrowserErrorCategory::Unexpected
                }
            },
            BrowserError::Io(_) => BrowserErrorCategory::NetworkOther,
            BrowserError::Qa(_) => BrowserErrorCategory::Unexpected,
            BrowserError::Telemetry(_) => BrowserErrorCategory::Unexpected,
            BrowserError::IpRotation(_) => BrowserErrorCategory::NetworkOther,
            BrowserError::Screenshot(_) => BrowserErrorCategory::Unexpected,
            BrowserError::SessionRecording(_) => BrowserErrorCategory::Unexpected,
            BrowserError::Configuration(_) => BrowserErrorCategory::Unexpected,
        }
    }
}

/// The category of an error.
pub fn map_category(error: &BrowserError) -> (r: BrowserErrorCategory)
    ensures
        r == category_of(*error),
{
    ErrorCategorizer::categorize(error)
}

/// What was done after a failure.
#[derive(Clone, Debug)]
pub enum RemediationAction {
    RetryScheduled { delay_seconds: u64 },
    IpRotated { exit_node: Option<String> },
    Abort,
}

/// A failure as recorded in the failure log and database.
#[derive(Clone, Debug)]
pub struct FailureContext {
    pub timestamp: UtcTimestamp,
    pub url: String,
    pub category: BrowserErrorCategory,
    pub error_message: String,
    pub attempt: usize,
    pub proxy: Option<String>,
    pub action: RemediationAction,
}

/// A QA run as recorded in the database; paths are held as text.
#[derive(Clone, Debug)]
pub struct RunContext {
    pub timestamp: UtcTimestamp,
    pub scenario: String,
    pub url: String,
    pub success: bool,
    pub duration_ms: i64,
    pub screenshot_path: Option<String>,
    pub video_path: Option<String>,
    pub proxy_rotations: u64,
}

/// The record of a failure at instant `now`.
pub fn failure_context(
    now: UtcTimestamp,
    url: &str,
    error: &BrowserError,
    attempt: usize,
    proxy: Option<String>,
    action: RemediationAction,
) -> (r: FailureContext)
    ensures
        r.timestamp == now,
        r.url@ == url@,
        r.category == category_of(*error),
        r.error_message@ == error_text(*error),
        r.attempt == attempt,
        r.proxy == proxy,
        r.action == action,
{
    FailureContext {
        timestamp: now,
        url: owned(url),
        category: map_category(error),
        error_message: error.message(),
        attempt,
        proxy,
        action,
    }
}

/// The record of a run at instant `now`.
pub fn run_context(
    now: UtcTimestamp,
    scenario: &str,
    url: &str,
    success: bool,
    duration_ms: i64,
    screenshot_path: Option<String>,
    video_path: Option<String>,
    proxy_rotations: u64,
) -> (r: RunContext)
    ensures
        r.timestamp == now,
        r.scenario@ == scenario@,
        r.url@ == url@,
        r.success == success,
        r.duration_ms == duration_ms,
        r.screenshot_path == screenshot_path,
        r.video_path == video_path,
        r.proxy_rotations == proxy_rotations,
{
    RunContext {
        timestamp: now,
        scenario: owned(scenario),
        url: owned(url),
        success,
        duration_ms,
        screenshot_path,
        video_path,
        proxy_rotations,
    }
}

/// The name of a category, as stored in the failure database.
pub open spec fn category_name(c: BrowserErrorCategory) -> Seq<char> {
    match c {
        BrowserErrorCategory::PlayerNotFound => "PlayerNotFound"@,
        BrowserErrorCategory::HdUnavailable => "HdUnavailable"@,
        BrowserErrorCategory::BotDetection => "BotDetection"@,
        BrowserErrorCategory::ManifestInvalid => "ManifestInvalid"@,
        BrowserErrorCategory::NetworkTimeout => "NetworkTimeout"@,
        BrowserErrorCategory::NetworkOther => "NetworkOther"@,
        BrowserErrorCategory::Unexpected => "Unexpected"@,
    }
}

impl BrowserErrorCategory {
    /// The name of the category, as stored in the failure database.
    pub fn name(&self) -> (r: &'static str)
        ensures
            r@ == category_name(*self),
    {
        match self {
            BrowserErrorCategory::PlayerNotFound => "PlayerNotFound",
            BrowserErrorCategory::HdUnavailable => "HdUnavailable",
            BrowserErrorCategory::BotDetection => "BotDetection",
            BrowserErrorCategory::ManifestInvalid => "ManifestInvalid",
            BrowserErrorCategory::NetworkTimeout => "NetworkTimeout",
            BrowserErrorCategory::NetworkOther => "NetworkOther",
            BrowserErrorCategory::Unexpected => "Unexpected",
        }
    }
}

} // verus!
