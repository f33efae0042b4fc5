//! Play-before-download: which manifest a played video streams from, what
//! kind of media it is, and which quality option to pick.
use vstd::prelude::*;

use super::error::BrowserError;
use crate::text::{
    clone_strings, contains, ends_with, ends_with_exec, chars_of, owned, spec_to_lowercase,
    str_contains, to_lowercase, views,
};

verus! {

/// The kind of media a captured URL points to.
#[derive(Clone, Copy, Debug, PartialEq, Eq, Structural)]
pub enum BrowserCaptureKind {
    HlsMaster,
    HlsMediaPlaylist,
    DashManifest,
    Progressive,
    Unknown,
}

/// The media a played page streams from.
#[derive(Clone, Debug)]
pub struct BrowserCapture {
    pub url: String,
    pub kind: BrowserCaptureKind,
    pub quality_label: Option<String>,
    pub associated_requests: Vec<String>,
}

/// What a play-before-download collection keeps besides the capture.
#[derive(Clone, Copy, Debug)]
pub struct CollectOptions {
    pub capture_screenshot: bool,
}

/// The kind of media a URL names: an HLS playlist (a master one when the
/// URL says `master`), a DASH manifest, a progressive file, or unknown.
pub open spec fn capture_kind(url: Seq<char>) -> BrowserCaptureKind {
    if contains(url, ".m3u8"@) {
        if contains(url, "master"@) {
            BrowserCaptureKind::HlsMaster
        } else {
            BrowserCaptureKind::HlsMediaPlaylist
        }
    } else if contains(url, ".mpd"@) {
        BrowserCaptureKind::DashManifest
    } else if ends_with(url, ".mp4"@) || ends_with(url, ".webm"@) {
        BrowserCaptureKind::Progressive
    } else {
        BrowserCaptureKind::Unknown
    }
}

/// The kind of media a captured URL names.
pub fn infer_capture_kind(url: &str) -> (r: BrowserCaptureKind)
    ensures
        r == capture_kind(url@),
{
    if str_contains(url, ".m3u8") {
        if str_contains(url, "master") {
            BrowserCaptureKind::HlsMaster
        } else {
            BrowserCaptureKind::HlsMediaPlaylist
        }
    } else if str_contains(url, ".mpd") {
        BrowserCaptureKind::DashManifest
    } else {
        let u = chars_of(url);
        let mp4 = chars_of(".mp4");
        let webm = chars_of(".webm");
        if ends_with_exec(&u, &mp4) || ends_with_exec(&u, &webm) {
            BrowserCaptureKind::Progressive
        } else {
            BrowserCaptureKind::Unknown
        }
    }
}

/// True when a URL names a streaming manifest (HLS or DASH).
pub open spec fn is_manifest_url(url: Seq<char>) -> bool {
    contains(url, ".m3u8"@) || contains(url, ".mpd"@)
}

/// The first URL of a list that names a manifest.
pub open spec fn first_manifest(urls: Seq<Seq<char>>) -> Option<Seq<char>>
    decreases urls.len(),
{
    if urls.len() == 0 {
        None
    } else if is_manifest_url(urls[0]) {
        Some(urls[0])
    } else {
        first_manifest(urls.drop_first())
    }
}

/// The first non-empty URL of a list.
pub open spec fn first_nonempty(urls: Seq<Seq<char>>) -> Option<Seq<char>>
    decreases urls.len(),
{
    if urls.len() == 0 {
        None
    } else if urls[0].len() > 0 {
        Some(urls[0])
    } else {
        first_nonempty(urls.drop_first())
    }
}

/// The URL a played video streams from: the first captured request that
/// names a manifest; failing that, the player's current source; failing
/// that, the first non-empty `<source>`.
pub open spec fn stream_url(current: Option<Seq<char>>, sources: Seq<Seq<char>>, captured: Seq<Seq<char>>) -> Option<Seq<char>> {
    match first_manifest(captured) {
        Some(u) => Some(u),
        None => match current {
            Some(c) => Some(c),
            None => first_nonempty(sources),
        },
    }
}

fn find_manifest(urls: &Vec<String>) -> (r: Option<String>)
    ensures
        match r {
            Some(u) => first_manifest(views(urls@)) == Some(u@),
            None => first_manifest(views(urls@)) is None,
        },
{
    let ghost uv = views(urls@);
    let mut i: usize = 0;
    assert(uv.skip(0) =~= uv);
    while i < urls.len()
        invariant
            i <= urls@.len(),
            uv == views(urls@),
            first_manifest(uv) == first_manifest(uv.skip(i as int)),
        decreases urls@.len() - i,
    {
        assert(uv.skip(i as int)[0] == urls@[i as int]@);
        assert(uv.skip(i as int).drop_first() =~= uv.skip(i + 1));
        if str_contains(urls[i].as_str(), ".m3u8") || str_contains(urls[i].as_str(), ".mpd") {
            return Some(urls[i].clone());
        }
        i = i + 1;
    }
    None
}

fn find_nonempty(urls: &Vec<String>) -> (r: Option<String>)
    ensures
        match r {
            Some(u) => first_nonempty(views(urls@)) == Some(u@),
            None => first_nonempty(views(urls@)) is None,
        },
{
    let ghost uv = views(urls@);
    let mut i: usize = 0;
    assert(uv.skip(0) =~= uv);
    while i < urls.len()
        invariant
            i <= urls@.len(),
            uv == views(urls@),
            first_nonempty(uv) == first_nonempty(uv.skip(i as int)),
        decreases urls@.len() - i,
    {
        assert(uv.skip(i as int)[0] == urls@[i as int]@);
        assert(uv.skip(i as int).drop_first() =~= uv.skip(i + 1));
        if urls[i].unicode_len() > 0 {
            return Some(urls[i].clone());
        }
        i = i + 1;
    }
    None
}

/// The capture of a played page from what its script reported: the stream
/// URL as `stream_url` picks it, its kind, the quality label, and every
/// captured request. Without any URL it is a network error.
pub fn capture_from_payload(
    current: Option<String>,
    sources: &Vec<String>,
    captured: Vec<String>,
    hd_label: Option<String>,
) -> (r: Result<BrowserCapture, BrowserError>)
    ensures
        match stream_url(
            match current {
                Some(c) => Some(c@),
                None => None,
            },
            views(sources@),
            views(captured@),
        ) {
            Some(u) => r matches Ok(c) && c.url@ == u && c.kind == capture_kind(u)
                && c.quality_label == hd_label && views(c.associated_requests@) == views(captured@),
            None => r matches Err(BrowserError::Network(m)) && m@ == "unable to determine manifest url"@,
        },
{
    let url = match find_manifest(&captured) {
        Some(u) => Some(u),
        None => match current {
            Some(c) => Some(c),
            None => find_nonempty(sources),
        },
    };
    match url {
        Some(u) => {
            let kind = infer_capture_kind(u.as_str());
            Ok(BrowserCapture { url: u, kind, quality_label: hd_label, associated_requests: captured })
        },
        None => Err(BrowserError::Network(owned("unable to determine manifest url"))),
    }
}

/// The first option, in page order, whose text holds `preferred`, both
/// lower-cased.
pub open spec fn first_option_with(options: Seq<(u32, Seq<char>)>, preferred: Seq<char>) -> Option<(u32, Seq<char>)>
    decreases options.len(),
{
    if options.len() == 0 {
        None
    } else if contains(spec_to_lowercase(options[0].1), spec_to_lowercase(preferred)) {
        Some(options[0])
    } else {
        first_option_with(options.drop_first(), preferred)
    }
}

/// The quality options to try, in order: for each preferred label in
/// priority order, the first option whose text holds it.
pub open spec fn quality_choices(priority: Seq<Seq<char>>, options: Seq<(u32, Seq<char>)>) -> Seq<(u32, Seq<char>)>
    decreases priority.len(),
{
    if priority.len() == 0 {
        Seq::empty()
    } else {
        let rest = quality_choices(priority.drop_last(), options);
        match first_option_with(options, priority.last()) {
            Some(o) => rest.push(o),
            None => rest,
        }
    }
}

/// A quality option a page offers: its position and its text.
#[derive(Clone, Debug)]
pub struct QualityOption {
    pub index: u32,
    pub text: String,
}

pub open spec fn option_pairs(v: Seq<QualityOption>) -> Seq<(u32, Seq<char>)> {
    v.map_values(|o: QualityOption| (o.index, o.text@))
}

fn option_with(options: &Vec<QualityOption>, preferred: &str) -> (r: Option<QualityOption>)
    ensures
        match r {
            Some(o) => first_option_with(option_pairs(options@), preferred@) == Some((o.index, o.text@)),
            None => first_option_with(option_pairs(options@), preferred@) is None,
        },
{
    let ghost ov = option_pairs(options@);
    let wanted = to_lowercase(preferred);
    let mut i: usize = 0;
    assert(ov.skip(0) =~= ov);
    while i < options.len()
        invariant
            i <= options@.len(),
            ov == option_pairs(options@),
            wanted@ == spec_to_lowercase(preferred@),
            first_option_with(ov, preferred@) == first_option_with(ov.skip(i as int), preferred@),
        decreases options@.len() - i,
    {
        assert(ov.skip(i as int)[0] == (options@[i as int].index, options@[i as int].text@));
        assert(ov.skip(i as int).drop_first() =~= ov.skip(i + 1));
        let lowered = to_lowercase(options[i].text.as_str());
        if str_contains(lowered.as_str(), wanted.as_str()) {
            return Some(QualityOption { index: options[i].index, text: options[i].text.clone() });
        }
        i = i + 1;
    }
    None
}

/// The quality options to try, in the order of the preferred labels.
pub fn select_quality_options(priority: &Vec<String>, options: &Vec<QualityOption>) -> (r: Vec<QualityOption>)
    ensures
        option_pairs(r@) == quality_choices(views(priority@), option_pairs(options@)),
{
    let ghost pv = views(priority@);
    let mut out: Vec<QualityOption> = Vec::new();
    let mut i: usize = 0;
    while i < priority.len()
        invariant
            i <= priority@.len(),
            pv == views(priority@),
            option_pairs(out@) == quality_choices(pv.take(i as int), option_pairs(options@)),
        decreases priority@.len() - i,
    {
        assert(pv.take(i + 1).drop_last() =~= pv.take(i as int));
        assert(pv.take(i + 1).last() == priority@[i as int]@);
        match option_with(options, priority[i].as_str()) {
            Some(o) => {
                let ghost before = option_pairs(out@);
                out.push(o);
                assert(option_pairs(out@) =~= before.push((o.index, o.text@)));
            },
            None => {},
        }
        i = i + 1;
    }
    assert(pv.take(priority@.len() as int) =~= pv);
    out
}

} // verus!
