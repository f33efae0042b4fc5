//! Errors raised while driving the browser.
use vstd::prelude::*;

use crate::text::concat2;

verus! {

/// An error of browser automation, with its message.
#[derive(Clone, Debug)]
pub enum BrowserError {
    Launch(String),
    /// A DevTools protocol error, held as its text.
    Cdp(String),
    /// An I/O error, held as its text.
    Io(String),
    Timeout(String),
    Configuration(String),
    Profile(String),
    Network(String),
    Metadata(String),
    Qa(String),
    Unexpected(String),
    Telemetry(String),
    IpRotation(String),
    Screenshot(String),
    SessionRecording(String),
}

pub open spec fn error_text(e: BrowserError) -> Seq<char> {
    match e {
        BrowserError::Launch(m) => "chromium launch failed: "@ + m@,
        BrowserError::Cdp(m) => "cdp error: "@ + m@,
        BrowserError::Io(m) => "io error: "@ + m@,
        BrowserError::Timeout(m) => "timeout waiting for "@ + m@,
        BrowserError::Configuration(m) => "configuration error: "@ + m@,
        BrowserError::Profile(m) => "profile error: "@ + m@,
        BrowserError::Network(m) => "network capture error: "@ + m@,
        BrowserError::Metadata(m) => "metadata extraction failed: "@ + m@,
        BrowserError::Qa(m) => "qa script failure: "@ + m@,
        BrowserError::Unexpected(m) => "unexpected error: "@ + m@,
        BrowserError::Telemetry(m) => "telemetry error: "@ + m@,
        BrowserError::IpRotation(m) => "ip rotation error: "@ + m@,
        BrowserError::Screenshot(m) => "screenshot error: "@ + m@,
        BrowserError::SessionRecording(m) => "session recording error: "@ + m@,
    }
}

impl BrowserError {
    /// The text of the error.
    pub fn message(&self) -> (r: String)
        ensures
            r@ == error_text(*self),
    {
        match self {
            BrowserError::Launch(m) => concat2("chromium launch failed: ", m.as_str()),
            BrowserError::Cdp(m) => concat2("cdp error: ", m.as_str()),
            BrowserError::Io(m) => concat2("io error: ", m.as_str()),
            BrowserError::Timeout(m) => concat2("timeout waiting for ", m.as_str()),
            BrowserError::Configuration(m) => concat2("configuration error: ", m.as_str()),
            BrowserError::Profile(m) => concat2("profile error: ", m.as_str()),
            BrowserError::Network(m) => concat2("network capture error: ", m.as_str()),
            BrowserError::Metadata(m) => concat2("metadata extraction failed: ", m.as_str()),
            BrowserError::Qa(m) => concat2("qa script failure: ", m.as_str()),
            BrowserError::Unexpected(m) => concat2("unexpected error: ", m.as_str()),
            BrowserError::Telemetry(m) => concat2("telemetry error: ", m.as_str()),
            BrowserError::IpRotation(m) => concat2("ip rotation error: ", m.as_str()),
            BrowserError::Screenshot(m) => concat2("screenshot error: ", m.as_str()),
            BrowserError::SessionRecording(m) => concat2("session recording error: ", m.as_str()),
        }
    }
}

} // verus!
