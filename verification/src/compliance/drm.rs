//! Detection of DRM and EME markers in manifests and pages.
use vstd::prelude::*;

use crate::pattern::{regex_accepts, regex_compiles, regex_find, regex_first_match};
use crate::text::{
    ascii_lower, eq_ignore_ascii_case, extension, extension_of, owned, spec_to_lowercase,
    to_lowercase, trim, trim_str, views,
};
use vstd::string::StringSliceAdditionalSpecFns;
use vstd::utf8::{decode_utf8, encode_utf8, is_char_boundary};

verus! {

/// Which patterns count as DRM/EME indicators, and which files are looked at.
#[derive(Clone, Debug)]
pub struct DrmDetectionConfig {
    /// Regular expressions run against manifests and pages (lower-cased).
    pub patterns: Vec<String>,
    /// Only files with these extensions are scanned.
    pub allowed_extensions: Vec<String>,
}

/// The markers of the usual key systems and of encrypted HLS.
pub open spec fn default_drm_patterns() -> Seq<Seq<char>> {
    seq![
        "EXT-X-KEY"@,
        "widevine"@,
        "playready"@,
        "fairplay"@,
        "encryptedmedia"@,
        "urn:uuid:edef8ba9-79d6-4ace-a3c8-27dcd51d21ed"@,
        "com\\.microsoft\\.playready"@,
        "skd://"@,
    ]
}

/// Manifests, pages and scripts.
pub open spec fn default_drm_extensions() -> Seq<Seq<char>> {
    seq!["m3u8"@, "mpd"@, "ism"@, "html"@, "js"@, "json"@]
}

impl Default for DrmDetectionConfig {
    fn default() -> (r: Self)
        ensures
            views(r.patterns@) == default_drm_patterns(),
            views(r.allowed_extensions@) == default_drm_extensions(),
    {
        let mut patterns: Vec<String> = Vec::new();
        patterns.push(owned("EXT-X-KEY"));
        patterns.push(owned("widevine"));
        patterns.push(owned("playready"));
        patterns.push(owned("fairplay"));
        patterns.push(owned("encryptedmedia"));
        patterns.push(owned("urn:uuid:edef8ba9-79d6-4ace-a3c8-27dcd51d21ed"));
        patterns.push(owned("com\\.microsoft\\.playready"));
        patterns.push(owned("skd://"));
        let mut allowed_extensions: Vec<String> = Vec::new();
        allowed_extensions.push(owned("m3u8"));
        allowed_extensions.push(owned("mpd"));
        allowed_extensions.push(owned("ism"));
        allowed_extensions.push(owned("html"));
        allowed_extensions.push(owned("js"));
        allowed_extensions.push(owned("json"));
        assert(views(patterns@) =~= default_drm_patterns());
        assert(views(allowed_extensions@) =~= default_drm_extensions());
        DrmDetectionConfig { patterns, allowed_extensions }
    }
}

/// A DRM finding with the text around it.
#[derive(Clone, Debug)]
pub struct DrmScanFinding {
    /// File where the pattern was found.
    pub path: String,
    /// The (lower-cased) pattern that matched.
    pub pattern: String,
    /// The text around the match, for manual review.
    pub snippet: String,
}

/// Aggregated report of a DRM scan.
#[derive(Clone, Debug)]
pub struct DrmScanReport {
    /// Number of files inspected.
    pub files_scanned: usize,
    /// Collected findings.
    pub findings: Vec<DrmScanFinding>,
}

impl DrmScanReport {
    pub fn new() -> (r: Self)
        ensures
            r.files_scanned == 0,
            r.findings@.len() == 0,
    {
        DrmScanReport { files_scanned: 0, findings: Vec::new() }
    }

    /// Returns `true` when no DRM pattern was found.
    pub fn is_clean(&self) -> (r: bool)
        ensures
            r == (self.findings@.len() == 0),
    {
        self.findings.len() == 0
    }

    /// Counts one more scanned file and keeps its finding, if any.
    pub fn record(&mut self, finding: Option<DrmScanFinding>)
        requires
            old(self).files_scanned < usize::MAX,
        ensures
            final(self).files_scanned == old(self).files_scanned + 1,
            final(self).findings@ == match finding {
                Some(f) => old(self).findings@.push(f),
                None => old(self).findings@,
            },
    {
        self.files_scanned = self.files_scanned + 1;
        match finding {
            Some(f) => self.findings.push(f),
            None => {},
        }
    }
}

/// The configured patterns, lower-cased, that compile, in order.
pub open spec fn compiled_patterns(patterns: Seq<Seq<char>>) -> Seq<Seq<char>>
    decreases patterns.len(),
{
    if patterns.len() == 0 {
        Seq::empty()
    } else {
        let rest = compiled_patterns(patterns.drop_last());
        let p = spec_to_lowercase(patterns.last());
        if regex_accepts(p) {
            rest.push(p)
        } else {
            rest
        }
    }
}

/// Where the snippet around a match starts: back from `start` to just after
/// the previous line feed, but no more than 121 bytes back.
pub open spec fn snippet_left(bytes: Seq<u8>, start: int, left: int) -> int
    decreases left,
{
    if left > 0 && bytes[left - 1] != 10 {
        if start - (left - 1) > 120 {
            left - 1
        } else {
            snippet_left(bytes, start, left - 1)
        }
    } else {
        left
    }
}

/// Where the snippet around a match ends: forward from `end` to the next
/// line feed, but no more than 121 bytes on.
pub open spec fn snippet_right(bytes: Seq<u8>, end: int, right: int) -> int
    decreases bytes.len() - right,
{
    if right < bytes.len() && bytes[right] != 10 {
        if (right + 1) - end > 120 {
            right + 1
        } else {
            snippet_right(bytes, end, right + 1)
        }
    } else {
        right
    }
}

/// The trimmed text between the snippet bounds of a match at
/// `start..end`; `None` where those bounds leave the text or do not fall
/// on character boundaries, where slicing the text panics.
pub open spec fn snippet_of(content: Seq<char>, start: int, end: int) -> Option<Seq<char>> {
    let bytes = encode_utf8(content);
    if start > bytes.len() {
        None
    } else {
        let l = snippet_left(bytes, start, start);
        let r = snippet_right(bytes, end, end);
        if l <= r && r <= bytes.len() && is_char_boundary(bytes, l) && is_char_boundary(bytes, r) {
            Some(trim(decode_utf8(bytes.subrange(l, r))))
        } else {
            None
        }
    }
}

proof fn lemma_snippet_left(bytes: Seq<u8>, start: int, left: int)
    requires
        0 <= left <= start <= bytes.len(),
    ensures
        0 <= snippet_left(bytes, start, left) <= left,
    decreases left,
{
    if left > 0 && bytes[left - 1] != 10 && start - (left - 1) <= 120 {
        lemma_snippet_left(bytes, start, left - 1);
    }
}

proof fn lemma_snippet_right(bytes: Seq<u8>, end: int, right: int)
    requires
        0 <= end <= right,
    ensures
        right <= snippet_right(bytes, end, right),
        right <= bytes.len() ==> snippet_right(bytes, end, right) <= bytes.len(),
    decreases bytes.len() - right,
{
    if right < bytes.len() && bytes[right] != 10 && (right + 1) - end <= 120 {
        lemma_snippet_right(bytes, end, right + 1);
    }
}

proof fn lemma_boundary_in_suffix(bytes: Seq<u8>, l: int, r: int)
    requires
        valid_utf8_bytes(bytes),
        0 <= l <= r <= bytes.len(),
        is_char_boundary(bytes, l),
        is_char_boundary(bytes, r),
    ensures
        vstd::utf8::valid_utf8(bytes.subrange(l, bytes.len() as int)),
        is_char_boundary(bytes.subrange(l, bytes.len() as int), r - l),
{
    broadcast use vstd::utf8::valid_utf8_split;
    broadcast use vstd::utf8::is_char_boundary_start_end_of_seq;
    broadcast use vstd::utf8::is_char_boundary_iff_not_is_continuation_byte;

    let suffix = bytes.subrange(l, bytes.len() as int);
    assert(vstd::utf8::valid_utf8(suffix));
    if r < bytes.len() {
        assert(suffix[r - l] == bytes[r]);
        assert(!vstd::utf8::is_continuation_byte(bytes[r]));
    } else {
        assert(suffix.len() == r - l);
    }
}

pub open spec fn valid_utf8_bytes(bytes: Seq<u8>) -> bool {
    vstd::utf8::valid_utf8(bytes)
}

/// The text around a match at `start..end` (byte offsets): the match's line,
/// cut at 121 bytes on either side, trimmed. `None` where the bounds leave
/// the text or split a character.
pub fn extract_snippet(content: &str, start: usize, end: usize) -> (r: Option<String>)
    ensures
        match r {
            Some(s) => snippet_of(content@, start as int, end as int) == Some(s@),
            None => snippet_of(content@, start as int, end as int) is None,
        },
{
    let bytes = content.as_bytes();
    let ghost b = content.spec_bytes();
    assert(bytes@ == b);
    if start > bytes.len() {
        return None;
    }
    let mut left = start;
    while left > 0 && bytes[left - 1] != 10u8
        invariant_except_break
            left <= start <= b.len(),
            bytes@ == b,
            snippet_left(b, start as int, start as int) == snippet_left(b, start as int, left as int),
        ensures
            left == snippet_left(b, start as int, start as int),
        decreases left,
    {
        left = left - 1;
        if start - left > 120 {
            break;
        }
    }
    let mut right = end;
    while right < bytes.len() && bytes[right] != 10u8
        invariant_except_break
            end <= right,
            bytes@ == b,
            snippet_right(b, end as int, end as int) == snippet_right(b, end as int, right as int),
        ensures
            right == snippet_right(b, end as int, end as int),
        decreases b.len() - right,
    {
        right = right + 1;
        if right - end > 120 {
            break;
        }
    }
    if left > right || right > bytes.len() {
        return None;
    }
    if !content.is_char_boundary(left) || !content.is_char_boundary(right) {
        return None;
    }
    proof {
        broadcast use vstd::utf8::encode_utf8_valid_utf8;
        assert(valid_utf8_bytes(b));
        lemma_boundary_in_suffix(b, left as int, right as int);
    }
    let (_, tail) = content.split_at(left);
    let (piece, _) = tail.split_at(right - left);
    proof {
        broadcast use vstd::utf8::encode_utf8_decode_utf8;
        assert(piece.spec_bytes() =~= b.subrange(left as int, right as int));
        assert(decode_utf8(encode_utf8(piece@)) == piece@);
    }
    Some(trim_str(piece))
}

/// A match whose snippet bounds leave the text or split a character (the
/// text was lower-cased for matching, which can move byte offsets).
#[derive(Clone, Debug)]
pub struct UnsliceableMatch {
    pub pattern: String,
    pub start: usize,
    pub end: usize,
}

/// The first of the patterns, in order, with a match in `text`, and that
/// match.
pub open spec fn first_marker(patterns: Seq<Seq<char>>, text: Seq<char>) -> Option<(int, (usize, usize))>
    decreases patterns.len(),
{
    if patterns.len() == 0 {
        None
    } else {
        match regex_first_match(patterns[0], text) {
            Some(m) => Some((0, m)),
            None => match first_marker(patterns.drop_first(), text) {
                Some(f) => Some((f.0 + 1, f.1)),
                None => None,
            },
        }
    }
}

/// True when some candidate equals `ext` ignoring ASCII case.
pub open spec fn extension_listed(candidates: Seq<Seq<char>>, ext: Seq<char>) -> bool {
    exists|k: int| 0 <= k < candidates.len() && ascii_lower(#[trigger] candidates[k]) == ascii_lower(ext)
}

/// Scans manifests and pages for DRM/EME markers.
#[derive(Debug)]
pub struct DrmScanner {
    config: DrmDetectionConfig,
    compiled: Vec<String>,
}

impl DrmScanner {
    #[verifier::type_invariant]
    spec fn patterns_compile(self) -> bool {
        forall|k: int| 0 <= k < self.compiled@.len() ==> regex_accepts(#[trigger] self.compiled@[k]@)
    }

    pub closed spec fn spec_patterns(self) -> Seq<Seq<char>> {
        views(self.compiled@)
    }

    pub closed spec fn spec_extensions(self) -> Seq<Seq<char>> {
        views(self.config.allowed_extensions@)
    }

    /// A scanner with the configured patterns lower-cased, those that do not
    /// compile left out.
    pub fn new(config: DrmDetectionConfig) -> (r: Self)
        ensures
            r.spec_patterns() == compiled_patterns(views(config.patterns@)),
            r.spec_extensions() == views(config.allowed_extensions@),
    {
        let ghost pv = views(config.patterns@);
        let mut compiled: Vec<String> = Vec::new();
        let mut i: usize = 0;
        while i < config.patterns.len()
            invariant
                i <= config.patterns@.len(),
                pv == views(config.patterns@),
                views(compiled@) == compiled_patterns(pv.take(i as int)),
                forall|k: int| 0 <= k < compiled@.len() ==> regex_accepts(#[trigger] compiled@[k]@),
            decreases config.patterns@.len() - i,
        {
            assert(pv.take(i + 1).drop_last() =~= pv.take(i as int));
            assert(pv.take(i + 1).last() == config.patterns@[i as int]@);
            let lowered = to_lowercase(config.patterns[i].as_str());
            if regex_compiles(lowered.as_str()) {
                let ghost before = views(compiled@);
                compiled.push(lowered);
                assert(views(compiled@) =~= before.push(lowered@));
            }
            i = i + 1;
        }
        assert(pv.take(config.patterns@.len() as int) =~= pv);
        DrmScanner { config, compiled }
    }

    /// Whether a file is scanned: its extension, lower-cased, equals an
    /// allowed one ignoring ASCII case. Files without an extension are not.
    pub fn is_allowed(&self, path: &str) -> (r: bool)
        ensures
            r == (extension(path@) matches Some(e) && extension_listed(
                self.spec_extensions(),
                spec_to_lowercase(e),
            )),
    {
        match extension_of(path) {
            Some(ext) => {
                let normalized = to_lowercase(ext.as_str());
                let mut i: usize = 0;
                while i < self.config.allowed_extensions.len()
                    invariant
                        i <= self.spec_extensions().len(),
                        self.spec_extensions() == views(self.config.allowed_extensions@),
                        extension(path@) == Some(ext@),
                        normalized@ == spec_to_lowercase(ext@),
                        forall|k: int| 0 <= k < i ==> ascii_lower(#[trigger] self.spec_extensions()[k]) != ascii_lower(normalized@),
                    decreases self.spec_extensions().len() - i,
                {
                    if eq_ignore_ascii_case(self.config.allowed_extensions[i].as_str(), normalized.as_str()) {
                        assert(ascii_lower(self.spec_extensions()[i as int]) == ascii_lower(normalized@));
                        assert(extension(path@) == Some(ext@));
                        assert(extension_listed(self.spec_extensions(), spec_to_lowercase(ext@)));
                        return true;
                    }
                    i = i + 1;
                }
                false
            },
            None => false,
        }
    }

    /// The finding for a text: the first pattern, in order, that matches the
    /// lower-cased text, with the snippet around its match. `Err` where that
    /// snippet cannot be cut from the text.
    pub fn scan_text(&self, path: &str, content: &str) -> (r: Result<Option<DrmScanFinding>, UnsliceableMatch>)
        ensures
            match first_marker(self.spec_patterns(), spec_to_lowercase(content@)) {
                None => r == Ok::<Option<DrmScanFinding>, UnsliceableMatch>(None),
                Some(f) => match snippet_of(content@, f.1.0 as int, f.1.1 as int) {
                    Some(sn) => r matches Ok(Some(x)) && x.path@ == path@
                        && x.pattern@ == self.spec_patterns()[f.0] && x.snippet@ == sn,
                    None => r matches Err(u) && u.pattern@ == self.spec_patterns()[f.0]
                        && u.start == f.1.0 && u.end == f.1.1,
                },
            },
    {
        proof {
            use_type_invariant(self);
        }
        let lowered = to_lowercase(content);
        let ghost pats = self.spec_patterns();
        let mut i: usize = 0;
        assert(pats.skip(0) =~= pats);
        while i < self.compiled.len()
            invariant
                i <= pats.len(),
                pats == views(self.compiled@),
                pats == self.spec_patterns(),
                lowered@ == spec_to_lowercase(content@),
                forall|k: int| 0 <= k < pats.len() ==> regex_accepts(#[trigger] pats[k]),
                first_marker(pats, lowered@) == match first_marker(pats.skip(i as int), lowered@) {
                    Some(f) => Some((f.0 + i, f.1)),
                    None => None::<(int, (usize, usize))>,
                },
            decreases pats.len() - i,
        {
            assert(pats.skip(i as int)[0] == pats[i as int]);
            match regex_find(self.compiled[i].as_str(), lowered.as_str()) {
                Some((start, end)) => {
                    let pattern = self.compiled[i].clone();
                    return match extract_snippet(content, start, end) {
                        Some(snippet) => Ok(Some(DrmScanFinding { path: owned(path), pattern, snippet })),
                        None => Err(UnsliceableMatch { pattern, start, end }),
                    };
                },
                None => {},
            }
            assert(pats.skip(i as int).drop_first() =~= pats.skip(i + 1));
            i = i + 1;
        }
        Ok(None)
    }
}

} // verus!
