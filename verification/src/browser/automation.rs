//! What a browser launch may override, and the events automation reports.
use vstd::prelude::*;

use crate::chance::random_between;
use crate::config::{ChromiumSection, FlagsSection};
use crate::text::{concat2, decimal, owned, pieces, split_pieces, trim, trim_str, u64_to_decimal, views};

verus! {

/// Settings of one launch that take precedence over the configuration.
#[derive(Clone, Copy, Debug)]
pub struct LaunchOverrides {
    pub headless: Option<bool>,
}

impl Default for LaunchOverrides {
    fn default() -> (r: Self)
        ensures
            r.headless is None,
    {
        LaunchOverrides { headless: None }
    }
}

impl LaunchOverrides {
    /// Whether the browser runs headless: the override when set, else the
    /// configured mode.
    pub fn headless_or(&self, configured: bool) -> (r: bool)
        ensures
            r == match self.headless {
                Some(h) => h,
                None => configured,
            },
    {
        match self.headless {
            Some(h) => h,
            None => configured,
        }
    }
}

/// Something automation observed on a page.
#[derive(Clone, Debug)]
pub enum BrowserEvent {
    PageOpened { url: String },
    ManifestCaptured { url: String },
}

/// The entries of a list: its pieces between separators, trimmed, the
/// blank ones left out.
pub open spec fn listed_entries(text: Seq<char>, sep: char) -> Seq<Seq<char>> {
    nonblank_trimmed(pieces(text, sep))
}

/// The pieces trimmed, the blank ones left out, in order.
pub open spec fn nonblank_trimmed(v: Seq<Seq<char>>) -> Seq<Seq<char>>
    decreases v.len(),
{
    if v.len() == 0 {
        Seq::empty()
    } else {
        let rest = nonblank_trimmed(v.drop_last());
        if trim(v.last()).len() == 0 {
            rest
        } else {
            rest.push(trim(v.last()))
        }
    }
}

/// The trimmed, non-blank pieces of `text` between separators.
pub fn list_entries(text: &str, sep: char) -> (r: Vec<String>)
    ensures
        views(r@) == listed_entries(text@, sep),
{
    let parts = split_pieces(text, sep);
    let ghost pv = views(parts@);
    let mut out: Vec<String> = Vec::new();
    let mut i: usize = 0;
    while i < parts.len()
        invariant
            i <= parts@.len(),
            pv == views(parts@),
            pv == pieces(text@, sep),
            views(out@) == nonblank_trimmed(pv.take(i as int)),
        decreases parts@.len() - i,
    {
        assert(pv.take(i + 1).drop_last() =~= pv.take(i as int));
        assert(pv.take(i + 1).last() == parts@[i as int]@);
        let t = trim_str(parts[i].as_str());
        if t.unicode_len() > 0 {
            let ghost before = views(out@);
            out.push(t);
            assert(views(out@) =~= before.push(t@));
        }
        i = i + 1;
    }
    assert(pv.take(parts@.len() as int) =~= pv);
    out
}

/// The proxies a browser may go through.
#[derive(Clone, Debug)]
pub struct ProxyPool {
    entries: Vec<String>,
}

impl ProxyPool {
    pub closed spec fn spec_entries(self) -> Seq<Seq<char>> {
        views(self.entries@)
    }

    /// The proxies listed, comma-separated, in the environment's proxy list.
    pub fn from_env_list(list: &str) -> (r: Self)
        ensures
            r.spec_entries() == listed_entries(list@, ','),
    {
        ProxyPool { entries: list_entries(list, ',') }
    }

    /// Whether the proxy file is read: the environment listed none and
    /// proxies are enabled.
    pub fn wants_file(&self, proxy_enabled: bool) -> (r: bool)
        ensures
            r == (self.spec_entries().len() == 0 && proxy_enabled),
    {
        self.entries.len() == 0 && proxy_enabled
    }

    /// Adds the proxies of a proxy file, one per line.
    pub fn extend_from_file(&mut self, contents: &str)
        ensures
            final(self).spec_entries() == old(self).spec_entries() + listed_entries(contents@, '\n'),
    {
        let mut more = list_entries(contents, '\n');
        let ghost before = views(self.entries@);
        let ghost added = views(more@);
        self.entries.append(&mut more);
        assert(views(self.entries@) =~= before + added);
    }

    /// A proxy picked at random, `None` when there is none.
    pub fn next(&self) -> (r: Option<String>)
        ensures
            self.spec_entries().len() == 0 ==> r is None,
            self.spec_entries().len() > 0 ==> (r matches Some(p) && self.spec_entries().contains(p@)),
    {
        if self.entries.len() == 0 {
            None
        } else {
            let k = random_between(0, (self.entries.len() - 1) as u64) as usize;
            let p = self.entries[k].clone();
            assert(self.spec_entries()[k as int] == p@);
            Some(p)
        }
    }
}

/// The user agent used when the configured pool is empty.
pub open spec fn fallback_user_agent() -> Seq<char> {
    "Mozilla/5.0 (Macintosh; Intel Mac OS X 13_4) AppleWebKit/605.1.15 (KHTML, like Gecko)"@
}

/// A user agent from the pool, picked at random, or the fallback one.
pub fn select_user_agent(pool: &Vec<String>) -> (r: String)
    ensures
        pool@.len() == 0 ==> r@ == fallback_user_agent(),
        pool@.len() > 0 ==> views(pool@).contains(r@),
{
    if pool.len() == 0 {
        owned("Mozilla/5.0 (Macintosh; Intel Mac OS X 13_4) AppleWebKit/605.1.15 (KHTML, like Gecko)")
    } else {
        let k = random_between(0, (pool.len() - 1) as u64) as usize;
        let ua = pool[k].clone();
        assert(views(pool@)[k as int] == ua@);
        ua
    }
}

/// `value` clamped to `[lo, hi]`.
pub open spec fn clamped(value: int, lo: int, hi: int) -> int {
    if value < lo {
        lo
    } else if value > hi {
        hi
    } else {
        value
    }
}

fn jittered(base: u32, jitter: u32, draw: u64, lo: i64, hi: i64) -> (r: u32)
    requires
        jitter <= i32::MAX,
        base + jitter <= i32::MAX,
        draw <= 2 * jitter,
        0 <= lo <= hi <= u32::MAX,
    ensures
        r == clamped(base + draw - jitter, lo as int, hi as int),
{
    let v: i64 = (base as i64) + (draw as i64) - (jitter as i64);
    let c: i64 = if v < lo { lo } else if v > hi { hi } else { v };
    c as u32
}

/// The window size for given draws: the resolution at `pick` (1366x768
/// when none is configured), the width moved by `width_draw - jitter_pixels`
/// and kept within 640..2560, the height moved by `height_draw -
/// jitter_pixels` and kept within 480..1600.
pub fn viewport_from_draws(
    resolutions: &Vec<[u32; 2]>,
    jitter_pixels: u32,
    pick: usize,
    width_draw: u64,
    height_draw: u64,
) -> (r: (u32, u32))
    requires
        jitter_pixels <= i32::MAX,
        1366 + jitter_pixels <= i32::MAX,
        forall|k: int| 0 <= k < resolutions@.len() ==> (#[trigger] resolutions@[k])[0] + jitter_pixels <= i32::MAX
            && resolutions@[k][1] + jitter_pixels <= i32::MAX,
        resolutions@.len() > 0 ==> pick < resolutions@.len(),
        width_draw <= 2 * jitter_pixels,
        height_draw <= 2 * jitter_pixels,
    ensures
        ({
            let b: [u32; 2] = if resolutions@.len() == 0 {
                [1366, 768]
            } else {
                resolutions@[pick as int]
            };
            &&& r.0 == clamped(b[0] + width_draw - jitter_pixels, 640, 2560)
            &&& r.1 == clamped(b[1] + height_draw - jitter_pixels, 480, 1600)
        }),
{
    let base: [u32; 2] = if resolutions.len() == 0 {
        [1366, 768]
    } else {
        resolutions[pick]
    };
    let width = jittered(base[0], jitter_pixels, width_draw, 640, 2560);
    let height = jittered(base[1], jitter_pixels, height_draw, 480, 1600);
    (width, height)
}

/// The window size of a launch: one of the configured resolutions (or
/// 1366x768), each side moved by up to `jitter_pixels` either way, the width
/// kept within 640..2560 and the height within 480..1600.
pub fn viewport_size(resolutions: &Vec<[u32; 2]>, jitter_pixels: u32) -> (r: (u32, u32))
    requires
        jitter_pixels <= i32::MAX,
        1366 + jitter_pixels <= i32::MAX,
        forall|k: int| 0 <= k < resolutions@.len() ==> (#[trigger] resolutions@[k])[0] + jitter_pixels <= i32::MAX
            && resolutions@[k][1] + jitter_pixels <= i32::MAX,
    ensures
        exists|b: [u32; 2], dw: int, dh: int|
            (resolutions@.len() == 0 ==> b[0] == 1366 && b[1] == 768)
            && (resolutions@.len() > 0 ==> resolutions@.contains(b))
            && -jitter_pixels <= dw <= jitter_pixels && -jitter_pixels <= dh <= jitter_pixels
            && r.0 == #[trigger] clamped(b[0] + dw, 640, 2560) && r.1 == #[trigger] clamped(b[1] + dh, 480, 1600),
{
    let pick: usize = if resolutions.len() == 0 {
        0
    } else {
        random_between(0, (resolutions.len() - 1) as u64) as usize
    };
    let width_draw = random_between(0, 2 * (jitter_pixels as u64));
    let height_draw = random_between(0, 2 * (jitter_pixels as u64));
    let r = viewport_from_draws(resolutions, jitter_pixels, pick, width_draw, height_draw);
    proof {
        let b: [u32; 2] = if resolutions@.len() == 0 {
            [1366, 768]
        } else {
            resolutions@[pick as int]
        };
        let dw: int = width_draw - jitter_pixels;
        let dh: int = height_draw - jitter_pixels;
        assert(r.0 == clamped(b[0] + dw, 640, 2560) && r.1 == clamped(b[1] + dh, 480, 1600));
        if resolutions@.len() > 0 {
            assert(resolutions@.contains(b));
        }
    }
    r
}


/// `[flag]` when `cond` holds, else nothing.
pub open spec fn flag_if(cond: bool, flag: Seq<char>) -> Seq<Seq<char>> {
    if cond {
        seq![flag]
    } else {
        seq![]
    }
}

/// `[prefix + value]` when a value is set, else nothing.
pub open spec fn flag_opt(prefix: Seq<char>, value: Option<String>) -> Seq<Seq<char>> {
    match value {
        Some(v) => seq![prefix + v@],
        None => seq![],
    }
}

/// One `--disable-blink-features=` flag per listed feature, in order.
pub open spec fn blink_flags(features: Seq<String>) -> Seq<Seq<char>> {
    features.map_values(|f: String| "--disable-blink-features="@ + f@)
}

/// The command-line flags Chromium is started with, in order.
pub open spec fn chromium_args(
    chromium: ChromiumSection,
    flags: FlagsSection,
    width: u32,
    height: u32,
    user_agent: Seq<char>,
    proxy: Option<String>,
) -> Seq<Seq<char>> {
    seq![
        "--user-agent="@ + user_agent,
        "--window-size="@ + decimal(width as nat) + ","@ + decimal(height as nat),
    ] + flag_if(chromium.disable_gpu, "--disable-gpu"@) + flag_if(flags.mute_audio, "--mute-audio"@)
        + flag_if(flags.autoplay_policy@.len() > 0, "--autoplay-policy="@ + flags.autoplay_policy@)
        + flag_opt("--lang="@, flags.lang) + flag_opt("--proxy-server="@, proxy)
        + blink_flags(flags.disable_blink_features@) + flag_if(flags.no_first_run, "--no-first-run"@)
        + flag_if(flags.disable_automation_controlled, "--disable-features=AutomationControlled"@)
        + flag_opt("--accept-lang="@, flags.accept_language)
        + seq!["--disable-background-timer-throttling"@, "--password-store=basic"@]
}

/// How a Chromium instance is to be started: what the launcher hands to the
/// browser driver.
#[derive(Clone, Debug)]
pub struct ChromiumLaunchPlan {
    pub executable_path: String,
    pub user_data_dir: String,
    pub width: u32,
    pub height: u32,
    pub is_landscape: bool,
    pub with_head: bool,
    pub no_sandbox: bool,
    pub request_timeout_secs: Option<u64>,
    pub args: Vec<String>,
}

fn push_arg(args: &mut Vec<String>, arg: String)
    ensures
        views(final(args)@) == views(old(args)@).push(arg@),
{
    args.push(arg);
    assert(views(args@) =~= views(old(args)@).push(arg@));
}

fn push_flag_if(args: &mut Vec<String>, cond: bool, flag: &str)
    ensures
        views(final(args)@) == views(old(args)@) + flag_if(cond, flag@),
{
    if cond {
        push_arg(args, owned(flag));
        assert(views(old(args)@).push(flag@) =~= views(old(args)@) + flag_if(cond, flag@));
    } else {
        assert(views(old(args)@) =~= views(old(args)@) + flag_if(cond, flag@));
    }
}

fn push_flag_opt(args: &mut Vec<String>, prefix: &str, value: &Option<String>)
    ensures
        views(final(args)@) == views(old(args)@) + flag_opt(prefix@, *value),
{
    match value {
        Some(v) => {
            push_arg(args, concat2(prefix, v.as_str()));
            assert(views(old(args)@).push(prefix@ + v@) =~= views(old(args)@) + flag_opt(prefix@, *value));
        },
        None => {
            assert(views(old(args)@) =~= views(old(args)@) + flag_opt(prefix@, *value));
        },
    }
}

/// The launch settings for one Chromium instance: the configured executable,
/// the profile directory, the chosen window size (landscape when at least as
/// wide as high), a visible window unless headless, no sandbox when the
/// sandbox is switched off, the configured tab timeout, and the flags of
/// [`chromium_args`].
#[verifier::spinoff_prover]
#[verifier::rlimit(30)]
pub fn chromium_launch_plan(
    chromium: &ChromiumSection,
    flags: &FlagsSection,
    profile_dir: &str,
    width: u32,
    height: u32,
    user_agent: &str,
    proxy: &Option<String>,
    headless: bool,
) -> (r: ChromiumLaunchPlan)
    ensures
        r.executable_path@ == chromium.executable_path@,
        r.user_data_dir@ == profile_dir@,
        r.width == width,
        r.height == height,
        r.is_landscape == (width >= height),
        r.with_head == !headless,
        r.no_sandbox == !chromium.sandbox,
        r.request_timeout_secs == chromium.tab_timeout_seconds,
        views(r.args@) == chromium_args(*chromium, *flags, width, height, user_agent@, *proxy),
{
    let mut args: Vec<String> = Vec::new();
    push_arg(&mut args, concat2("--user-agent=", user_agent));
    let w = u64_to_decimal(width as u64);
    let h = u64_to_decimal(height as u64);
    let size = concat2(concat2(concat2("--window-size=", w.as_str()).as_str(), ",").as_str(), h.as_str());
    push_arg(&mut args, size);
    push_flag_if(&mut args, chromium.disable_gpu, "--disable-gpu");
    push_flag_if(&mut args, flags.mute_audio, "--mute-audio");
    let has_policy = !flags.autoplay_policy.as_str().is_empty();
    if has_policy {
        push_arg(&mut args, concat2("--autoplay-policy=", flags.autoplay_policy.as_str()));
    }
    let ghost before_lang = views(args@);
    push_flag_opt(&mut args, "--lang=", &flags.lang);
    push_flag_opt(&mut args, "--proxy-server=", proxy);
    let ghost base = views(args@);
    let features = &flags.disable_blink_features;
    let mut i: usize = 0;
    while i < features.len()
        invariant
            i <= features@.len(),
            views(args@) == base + blink_flags(features@).take(i as int),
        decreases features@.len() - i,
    {
        push_arg(&mut args, concat2("--disable-blink-features=", features[i].as_str()));
        assert(blink_flags(features@).take(i as int + 1) =~= blink_flags(features@).take(i as int).push(
            "--disable-blink-features="@ + features@[i as int]@,
        ));
        i = i + 1;
    }
    assert(blink_flags(features@).take(i as int) =~= blink_flags(features@));
    push_flag_if(&mut args, flags.no_first_run, "--no-first-run");
    push_flag_if(&mut args, flags.disable_automation_controlled, "--disable-features=AutomationControlled");
    push_flag_opt(&mut args, "--accept-lang=", &flags.accept_language);
    push_arg(&mut args, owned("--disable-background-timer-throttling"));
    push_arg(&mut args, owned("--password-store=basic"));
    proof {
        let c = *chromium;
        let f = *flags;
        assert(flag_if(f.autoplay_policy@.len() > 0, "--autoplay-policy="@ + f.autoplay_policy@) =~= if has_policy {
            seq!["--autoplay-policy="@ + f.autoplay_policy@]
        } else {
            seq![]
        });
        assert(views(args@) =~= chromium_args(c, f, width, height, user_agent@, *proxy));
    }
    ChromiumLaunchPlan {
        executable_path: chromium.executable_path.clone(),
        user_data_dir: owned(profile_dir),
        width,
        height,
        is_landscape: width >= height,
        with_head: !headless,
        no_sandbox: !chromium.sandbox,
        request_timeout_secs: chromium.tab_timeout_seconds,
        args,
    }
}


/// The script that makes a page report this language, and English after it.
pub open spec fn language_script_text(lang: Seq<char>) -> Seq<char> {
    "Object.defineProperty(navigator, 'language', { get: () => '"@ + lang + "' });\nObject.defineProperty(navigator, 'languages', { get: () => ['"@ + lang + "', 'en-US'] });"@
}

/// The script that records the URLs a page fetches.
pub open spec fn network_hook_text() -> Seq<char> {
    "\n(() => {\n    const bucket = [];\n    const push = (entry) => {\n        try {\n            bucket.push(entry);\n        } catch (_) {\n            // ignore\n        }\n    };\n    Object.defineProperty(window, '__vvtvCapturedRequests', {\n        value: bucket,\n        writable: false,\n        configurable: false,\n    });\n\n    const originalFetch = window.fetch;\n    window.fetch = async (...args) => {\n        const response = await originalFetch(...args);\n        try {\n            const request = args[0];\n            const url = typeof request === 'string' ? request : request.url;\n            push({ url: String(url || ''), type: 'fetch', status: response.status });\n        } catch (_) {}\n        return response;\n    };\n\n    const OriginalXHR = window.XMLHttpRequest;\n    window.XMLHttpRequest = function() {\n        const xhr = new OriginalXHR();\n        let url = '';\n        let method = 'GET';\n        const open = xhr.open;\n        xhr.open = function(m, u) {\n            method = m || 'GET';\n            url = u || '';\n            return open.apply(xhr, arguments);\n        };\n        xhr.addEventListener('loadend', function() {\n            push({ url: String(url || ''), type: 'xhr', status: xhr.status, method });\n        });\n        return xhr;\n    };\n})();\n"@
}

/// See [`language_script_text`].
pub fn language_script(lang: &str) -> (r: String)
    ensures
        r@ == language_script_text(lang@),
{
    let a = concat2("Object.defineProperty(navigator, 'language', { get: () => '", lang);
    let b = concat2(a.as_str(), "' });\nObject.defineProperty(navigator, 'languages', { get: () => ['");
    let c = concat2(b.as_str(), lang);
    let r = concat2(c.as_str(), "', 'en-US'] });");
    assert(r@ =~= language_script_text(lang@));
    r
}

/// The scripts added to every page after the user agent is set: the
/// language script when a language is configured, then the network hook.
pub fn page_scripts(flags: &FlagsSection) -> (r: Vec<String>)
    ensures
        views(r@) == (match flags.lang {
            Some(l) => seq![language_script_text(l@)],
            None => Seq::<Seq<char>>::empty(),
        }).push(network_hook_text()),
{
    let mut r: Vec<String> = Vec::new();
    match &flags.lang {
        Some(l) => r.push(language_script(l.as_str())),
        None => {},
    }
    r.push(owned("\n(() => {\n    const bucket = [];\n    const push = (entry) => {\n        try {\n            bucket.push(entry);\n        } catch (_) {\n            // ignore\n        }\n    };\n    Object.defineProperty(window, '__vvtvCapturedRequests', {\n        value: bucket,\n        writable: false,\n        configurable: false,\n    });\n\n    const originalFetch = window.fetch;\n    window.fetch = async (...args) => {\n        const response = await originalFetch(...args);\n        try {\n            const request = args[0];\n            const url = typeof request === 'string' ? request : request.url;\n            push({ url: String(url || ''), type: 'fetch', status: response.status });\n        } catch (_) {}\n        return response;\n    };\n\n    const OriginalXHR = window.XMLHttpRequest;\n    window.XMLHttpRequest = function() {\n        const xhr = new OriginalXHR();\n        let url = '';\n        let method = 'GET';\n        const open = xhr.open;\n        xhr.open = function(m, u) {\n            method = m || 'GET';\n            url = u || '';\n            return open.apply(xhr, arguments);\n        };\n        xhr.addEventListener('loadend', function() {\n            push({ url: String(url || ''), type: 'xhr', status: xhr.status, method });\n        });\n        return xhr;\n    };\n})();\n"));
    assert(views(r@) =~= (match flags.lang {
        Some(l) => seq![language_script_text(l@)],
        None => Seq::<Seq<char>>::empty(),
    }).push(network_hook_text()));
    r
}

} // verus!
