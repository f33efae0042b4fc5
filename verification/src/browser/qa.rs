//! Smoke-test settings and the session recorder: the ffmpeg command that
//! films a QA run and the warnings its end leaves.
use vstd::prelude::*;

use crate::browser::automation::LaunchOverrides;
use crate::text::{concat2, decimal, owned, path_join, path_join_str, u64_to_decimal, views};

verus! {

/// Whether a smoke test shows the browser window.
#[derive(Clone, Copy, Debug, PartialEq, Eq, Structural)]
pub enum SmokeMode {
    Headless,
    Headed,
}

impl Default for SmokeMode {
    fn default() -> (r: Self)
        ensures
            r == SmokeMode::Headless,
    {
        SmokeMode::Headless
    }
}

/// How a smoke test runs and what it keeps.
#[derive(Clone, Debug)]
pub struct SmokeTestOptions {
    pub mode: SmokeMode,
    pub capture_screenshot: bool,
    pub screenshot_dir: Option<String>,
    pub record_video: bool,
    /// How long the session is filmed, in seconds.
    pub record_duration_secs: u64,
}

impl Default for SmokeTestOptions {
    fn default() -> (r: Self)
        ensures
            r.mode == SmokeMode::Headless,
            r.capture_screenshot,
            r.screenshot_dir matches Some(d) && d@ == "artifacts/qa/screenshots"@,
            !r.record_video,
            r.record_duration_secs == 30,
    {
        SmokeTestOptions {
            mode: SmokeMode::Headless,
            capture_screenshot: true,
            screenshot_dir: Some(owned("artifacts/qa/screenshots")),
            record_video: false,
            record_duration_secs: 30,
        }
    }
}

/// A scripted QA run.
#[derive(Clone, Debug)]
pub enum QaScenario {
    Smoke { url: String, options: SmokeTestOptions },
}

/// Where and how ffmpeg films a session.
#[derive(Clone, Debug)]
pub struct SessionRecorderConfig {
    pub ffmpeg_path: String,
    pub display: Option<String>,
    pub extra_args: Vec<String>,
    pub output_dir: String,
    pub allow_placeholder: bool,
}

impl Default for SessionRecorderConfig {
    fn default() -> (r: Self)
        ensures
            r.ffmpeg_path@ == "ffmpeg"@,
            r.display matches Some(d) && d@ == ":0.0"@,
            views(r.extra_args@) == seq!["-vcodec"@, "libx264"@],
            r.output_dir@ == "artifacts/qa/video"@,
            r.allow_placeholder,
    {
        let mut extra_args: Vec<String> = Vec::new();
        extra_args.push(owned("-vcodec"));
        extra_args.push(owned("libx264"));
        assert(views(extra_args@) =~= seq!["-vcodec"@, "libx264"@]);
        SessionRecorderConfig {
            ffmpeg_path: owned("ffmpeg"),
            display: Some(owned(":0.0")),
            extra_args,
            output_dir: owned("artifacts/qa/video"),
            allow_placeholder: true,
        }
    }
}

/// How a filming process ended, as the runtime reported it.
#[derive(Clone, Debug)]
pub enum RecorderExit {
    /// ffmpeg was not found; nothing was started.
    Unavailable,
    /// ffmpeg exited successfully.
    Succeeded,
    /// ffmpeg exited unsuccessfully; the status as `Debug` shows it.
    Failed(String),
    /// ffmpeg could not be run; the error as `Display` shows it.
    ExecError(String),
    /// The task waiting for ffmpeg failed; the error as `Display` shows it.
    JoinError(String),
}

/// The warning that the end of a recording leaves, and whether a
/// placeholder file stands in for the video.
pub open spec fn recording_warning_text(exit: RecorderExit) -> Option<Seq<char>> {
    match exit {
        RecorderExit::Unavailable => Some("ffmpeg not available; generated placeholder video"@),
        RecorderExit::Succeeded => None,
        RecorderExit::Failed(status) => Some("ffmpeg exited with status "@ + status@ + "; using placeholder"@),
        RecorderExit::ExecError(e) => Some("ffmpeg execution error: "@ + e@),
        RecorderExit::JoinError(e) => Some("ffmpeg task join error: "@ + e@),
    }
}

/// The ffmpeg arguments that film `duration_secs` seconds into `output`:
/// overwrite, the X11 display when one is set, the duration, the extra
/// arguments and the output file.
pub open spec fn ffmpeg_args(config: SessionRecorderConfig, duration_secs: u64, output: Seq<char>) -> Seq<Seq<char>> {
    let grab = match config.display {
        Some(d) => seq!["-f"@, "x11grab"@, "-i"@, d@],
        None => Seq::empty(),
    };
    seq!["-y"@] + grab + seq!["-t"@, decimal(duration_secs as nat)] + views(config.extra_args@) + seq![output]
}

/// Films QA sessions with ffmpeg.
#[derive(Clone, Debug)]
pub struct SessionRecorder {
    config: SessionRecorderConfig,
}

impl SessionRecorder {
    pub closed spec fn spec_config(self) -> SessionRecorderConfig {
        self.config
    }

    pub fn new(config: SessionRecorderConfig) -> (r: Self)
        ensures
            r.spec_config() == config,
    {
        SessionRecorder { config }
    }

    pub fn config(&self) -> (r: &SessionRecorderConfig)
        ensures
            *r == self.spec_config(),
    {
        &self.config
    }

    /// Where the video of a session is written: `<label>_<timestamp>.mp4`
    /// in the output directory.
    pub fn output_path(&self, label: &str, timestamp: &str) -> (r: String)
        ensures
            r@ == path_join(self.spec_config().output_dir@, label@ + seq!['_'] + timestamp@ + ".mp4"@),
    {
        let mut name = owned(label);
        name.append("_");
        name.append(timestamp);
        name.append(".mp4");
        proof {
            reveal_strlit("_");
        }
        assert(name@ =~= label@ + seq!['_'] + timestamp@ + ".mp4"@);
        path_join_str(self.config.output_dir.as_str(), name.as_str())
    }

    /// The arguments of the ffmpeg process that films a session.
    pub fn ffmpeg_arguments(&self, duration_secs: u64, output: &str) -> (r: Vec<String>)
        ensures
            views(r@) == ffmpeg_args(self.spec_config(), duration_secs, output@),
    {
        let mut args: Vec<String> = Vec::new();
        args.push(owned("-y"));
        match &self.config.display {
            Some(d) => {
                args.push(owned("-f"));
                args.push(owned("x11grab"));
                args.push(owned("-i"));
                args.push(d.clone());
            },
            None => {},
        }
        args.push(owned("-t"));
        args.push(u64_to_decimal(duration_secs));
        let ghost before = views(args@);
        let mut i: usize = 0;
        while i < self.config.extra_args.len()
            invariant
                i <= self.config.extra_args@.len(),
                views(args@) == before + views(self.config.extra_args@).take(i as int),
            decreases self.config.extra_args@.len() - i,
        {
            let a = self.config.extra_args[i].clone();
            let ghost prev = views(args@);
            args.push(a);
            assert(views(args@) =~= prev.push(a@));
            assert(views(self.config.extra_args@).take(i + 1) =~= views(self.config.extra_args@).take(i as int).push(self.config.extra_args@[i as int]@));
            i = i + 1;
        }
        assert(views(self.config.extra_args@).take(self.config.extra_args@.len() as int) =~= views(self.config.extra_args@));
        let ghost with_extra = views(args@);
        args.push(owned(output));
        assert(views(args@) =~= with_extra.push(output@));
        assert(views(args@) =~= ffmpeg_args(self.spec_config(), duration_secs, output@));
        args
    }

    /// The warning left by the end of a recording; every outcome but a
    /// successful exit leaves one, and a placeholder file in place of the
    /// video.
    pub fn finish_warning(&self, exit: &RecorderExit) -> (r: Option<String>)
        ensures
            match r {
                Some(w) => recording_warning_text(*exit) == Some(w@),
                None => recording_warning_text(*exit) is None,
            },
    {
        match exit {
            RecorderExit::Unavailable => Some(owned("ffmpeg not available; generated placeholder video")),
            RecorderExit::Succeeded => None,
            RecorderExit::Failed(status) => {
                let mut w = concat2("ffmpeg exited with status ", status.as_str());
                w.append("; using placeholder");
                Some(w)
            },
            RecorderExit::ExecError(e) => Some(concat2("ffmpeg execution error: ", e.as_str())),
            RecorderExit::JoinError(e) => Some(concat2("ffmpeg task join error: ", e.as_str())),
        }
    }
}

/// Where the QA metrics database lives.
#[derive(Clone, Debug)]
pub struct QaMetricsStore {
    path: String,
}

impl QaMetricsStore {
    pub closed spec fn spec_path(self) -> Seq<char> {
        self.path@
    }

    pub fn new(path: &str) -> (r: Self)
        ensures
            r.spec_path() == path@,
    {
        QaMetricsStore { path: owned(path) }
    }

    pub fn path(&self) -> (r: &str)
        ensures
            r@ == self.spec_path(),
    {
        self.path.as_str()
    }
}


impl SmokeTestOptions {
    /// The launch settings of the test: headless exactly in headless mode.
    pub fn launch_overrides(&self) -> (r: LaunchOverrides)
        ensures
            r.headless == Some(self.mode == SmokeMode::Headless),
    {
        LaunchOverrides { headless: Some(self.mode == SmokeMode::Headless) }
    }

    /// Whether the run is filmed: a recording is asked for and a recorder
    /// is at hand.
    pub fn films(&self, has_recorder: bool) -> (r: bool)
        ensures
            r == (self.record_video && has_recorder),
    {
        self.record_video && has_recorder
    }
}

/// The label of a filmed smoke run: `smoke-<timestamp>`.
pub fn recording_label(timestamp: &str) -> (r: String)
    ensures
        r@ == "smoke-"@ + timestamp@,
{
    concat2("smoke-", timestamp)
}

/// The directory screenshots go to when none is configured.
pub open spec fn default_screenshot_dir() -> Seq<char> {
    "artifacts/qa/screenshots"@
}

/// The file a smoke run's screenshot is written to:
/// `smoke_<timestamp>_<attempts>.png` in the configured directory.
pub open spec fn screenshot_file(dir: Option<String>, timestamp: Seq<char>, attempts: usize) -> Seq<char> {
    path_join(
        match dir {
            Some(d) => d@,
            None => default_screenshot_dir(),
        },
        "smoke_"@ + timestamp + "_"@ + decimal(attempts as nat) + ".png"@,
    )
}

/// What a smoke run does with its screenshot.
#[derive(Clone, Debug)]
pub enum ScreenshotStep {
    /// No screenshot was asked for.
    Skip,
    /// Write the captured image to this path.
    Save(String),
    /// A screenshot was asked for and none came back: this warning is kept.
    Warn(String),
}

/// The screenshot step of a smoke run that took `attempts` tries: skipped
/// unless asked for; saved (see [`screenshot_file`]) when an image came
/// back; else a warning.
pub fn screenshot_step(options: &SmokeTestOptions, captured: bool, timestamp: &str, attempts: usize) -> (r:
    ScreenshotStep)
    ensures
        !options.capture_screenshot ==> r is Skip,
        options.capture_screenshot && captured ==> (r matches ScreenshotStep::Save(p) && p@ == screenshot_file(
            options.screenshot_dir,
            timestamp@,
            attempts,
        )),
        options.capture_screenshot && !captured ==> (r matches ScreenshotStep::Warn(w) && w@
            == "screenshot capture returned empty data"@),
{
    if !options.capture_screenshot {
        ScreenshotStep::Skip
    } else if !captured {
        ScreenshotStep::Warn(owned("screenshot capture returned empty data"))
    } else {
        let dir = match &options.screenshot_dir {
            Some(d) => d.clone(),
            None => owned("artifacts/qa/screenshots"),
        };
        let count = u64_to_decimal(attempts as u64);
        let a = concat2("smoke_", timestamp);
        let b = concat2(a.as_str(), "_");
        let c = concat2(b.as_str(), count.as_str());
        let name = concat2(c.as_str(), ".png");
        assert(name@ =~= "smoke_"@ + timestamp@ + "_"@ + decimal(attempts as nat) + ".png"@);
        ScreenshotStep::Save(path_join_str(dir.as_str(), name.as_str()))
    }
}

} // verus!
