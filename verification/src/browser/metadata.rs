//! Normalization of what a page says about the video it plays: title,
//! tags, breadcrumbs, resolution and the bitrate to expect from it.
use vstd::prelude::*;

use crate::config::SelectorSection;
use crate::pattern::{regex_accepts, regex_replace_all, regex_replaced};
use crate::text::{
    char_is_digit, char_is_ws, chars_of, is_digit, is_ws, join, join_strings, owned, parse_u32, parse_u64_exec,
    push_char, spec_to_lowercase, str_eq, to_lowercase, trim, trim_str, views,
};
use vstd::utf8::encode_utf8;

verus! {

/// The ASCII digits of a text, in order.
pub open spec fn ascii_digits(s: Seq<char>) -> Seq<char> {
    s.filter(|c: char| is_digit(c))
}

/// The height a resolution label names: its digits read as a `u32`.
pub open spec fn label_height(label: Seq<char>) -> Option<u32> {
    parse_u32(ascii_digits(label))
}

/// The bitrate (bits per second) expected of a stream of the given height.
pub open spec fn bitrate_for_height(h: u32) -> u64 {
    if h >= 2160 {
        14_000_000
    } else if h >= 1440 {
        8_500_000
    } else if h >= 1080 {
        6_000_000
    } else if h >= 720 {
        3_200_000
    } else if h >= 480 {
        1_800_000
    } else if h >= 360 {
        1_000_000
    } else {
        600_000
    }
}

/// The bitrate expected for a resolution label such as `1080p`, `None` when
/// the label holds no height.
pub open spec fn label_bitrate(label: Seq<char>) -> Option<u64> {
    match label_height(label) {
        Some(h) => Some(bitrate_for_height(h)),
        None => None,
    }
}

/// The height in a resolution label: the ASCII digits it holds, read as a
/// `u32`; `None` when there are none or they do not fit.
pub fn parse_height(label: &str) -> (r: Option<u32>)
    ensures
        r == label_height(label@),
{
    let cs = chars_of(label);
    let mut digits: Vec<char> = Vec::new();
    let mut i: usize = 0;
    while i < cs.len()
        invariant
            i <= cs@.len(),
            cs@ == label@,
            digits@ == ascii_digits(cs@.take(i as int)),
        decreases cs@.len() - i,
    {
        let c = cs[i];
        proof {
            reveal_with_fuel(Seq::filter, 1);
            assert(cs@.take(i + 1).drop_last() =~= cs@.take(i as int));
        }
        if char_is_digit(c) {
            digits.push(c);
        }
        i = i + 1;
    }
    assert(cs@.take(cs@.len() as int) =~= cs@);
    assert(digits@.subrange(0, digits@.len() as int) =~= digits@);
    match parse_u64_exec(&digits, 0, digits.len()) {
        Some(v) => {
            if v <= 4294967295 {
                Some(v as u32)
            } else {
                None
            }
        },
        None => None,
    }
}

/// The bitrate to expect from a stream whose quality menu shows `label`.
pub fn bitrate_for_resolution(label: &str) -> (r: Option<u64>)
    ensures
        r == label_bitrate(label@),
{
    match parse_height(label) {
        Some(h) => {
            if h >= 2160 {
                Some(14_000_000)
            } else if h >= 1440 {
                Some(8_500_000)
            } else if h >= 1080 {
                Some(6_000_000)
            } else if h >= 720 {
                Some(3_200_000)
            } else if h >= 480 {
                Some(1_800_000)
            } else if h >= 360 {
                Some(1_000_000)
            } else {
                Some(600_000)
            }
        },
        None => None,
    }
}

/// A character as it stands inside a double-quoted JavaScript string:
/// backslashes and double quotes get a backslash before them.
pub open spec fn js_escaped_char(c: char) -> Seq<char> {
    if c == '\\' {
        seq!['\\', '\\']
    } else if c == '"' {
        seq!['\\', '"']
    } else {
        seq![c]
    }
}

/// A text escaped character by character with `js_escaped_char`.
pub open spec fn js_escaped(s: Seq<char>) -> Seq<char>
    decreases s.len(),
{
    if s.len() == 0 {
        Seq::empty()
    } else {
        js_escaped(s.drop_last()) + js_escaped_char(s.last())
    }
}

/// Escapes backslashes and double quotes for a JavaScript string literal.
pub fn escape_js(input: &str) -> (r: String)
    ensures
        r@ == js_escaped(input@),
{
    let cs = chars_of(input);
    let mut out = String::new();
    let mut i: usize = 0;
    while i < cs.len()
        invariant
            i <= cs@.len(),
            cs@ == input@,
            out@ == js_escaped(cs@.take(i as int)),
        decreases cs@.len() - i,
    {
        let c = cs[i];
        assert(cs@.take(i + 1).drop_last() =~= cs@.take(i as int));
        if c == '\\' {
            push_char(&mut out, '\\');
            push_char(&mut out, '\\');
        } else if c == '"' {
            push_char(&mut out, '\\');
            push_char(&mut out, '"');
        } else {
            push_char(&mut out, c);
        }
        assert(out@ =~= js_escaped(cs@.take(i + 1)));
        i = i + 1;
    }
    assert(cs@.take(cs@.len() as int) =~= cs@);
    out
}

/// `str::len`: the length of a text in UTF-8 bytes.
pub open spec fn byte_len(s: Seq<char>) -> usize {
    encode_utf8(s).len() as usize
}

/// The candidate that `max_by_key` on the byte length picks among the
/// non-blank ones (the last of the longest), or `None` when all are blank.
pub open spec fn longest_nonblank(cands: Seq<Seq<char>>) -> Option<Seq<char>>
    decreases cands.len(),
{
    if cands.len() == 0 {
        None
    } else {
        let best = longest_nonblank(cands.drop_last());
        let c = cands.last();
        if trim(c).len() == 0 {
            best
        } else {
            match best {
                Some(b) => if byte_len(c) >= byte_len(b) {
                    Some(c)
                } else {
                    Some(b)
                },
                None => Some(c),
            }
        }
    }
}

/// The title chosen among candidates: the longest non-blank one, trimmed.
pub open spec fn chosen_title(cands: Seq<Seq<char>>) -> Option<Seq<char>> {
    match longest_nonblank(cands) {
        Some(t) => Some(trim(t)),
        None => None,
    }
}

/// `str::split_whitespace`: the maximal runs of non-whitespace characters.
pub open spec fn words(s: Seq<char>) -> Seq<Seq<char>>
    decreases s.len(),
{
    if s.len() == 0 {
        Seq::empty()
    } else {
        let w = words(s.drop_last());
        let c = s.last();
        if is_ws(c) {
            w
        } else if s.len() > 1 && !is_ws(s[s.len() - 2]) && w.len() > 0 {
            w.update(w.len() - 1, w.last().push(c))
        } else {
            w.push(seq![c])
        }
    }
}

/// The words of a text joined by single spaces.
pub open spec fn squeezed(s: Seq<char>) -> Seq<char> {
    join(words(s), seq![' '])
}

proof fn lemma_join_extend_last(w: Seq<Seq<char>>, c: char, sep: Seq<char>)
    requires
        w.len() > 0,
    ensures
        join(w.update(w.len() - 1, w.last().push(c)), sep) == join(w, sep).push(c),
{
    let u = w.update(w.len() - 1, w.last().push(c));
    if w.len() > 1 {
        assert(u.drop_last() =~= w.drop_last());
    }
    assert(join(u, sep) =~= join(w, sep).push(c));
}

proof fn lemma_join_push(w: Seq<Seq<char>>, x: Seq<char>, sep: Seq<char>)
    ensures
        join(w.push(x), sep) == if w.len() == 0 {
            x
        } else {
            join(w, sep) + sep + x
        },
{
    assert(w.push(x).drop_last() =~= w);
}

/// The words of `s` joined by single spaces: whitespace runs collapse to one
/// space and leading or trailing whitespace goes.
pub fn collapse_whitespace(s: &str) -> (r: String)
    ensures
        r@ == squeezed(s@),
{
    let cs = chars_of(s);
    let mut out = String::new();
    let mut have_word = false;
    let mut prev_ws = true;
    let mut i: usize = 0;
    while i < cs.len()
        invariant
            i <= cs@.len(),
            cs@ == s@,
            out@ == join(words(cs@.take(i as int)), seq![' ']),
            have_word == (words(cs@.take(i as int)).len() > 0),
            prev_ws == (i == 0 || is_ws(cs@[i - 1])),
        decreases cs@.len() - i,
    {
        let c = cs[i];
        let ghost pre = cs@.take(i as int);
        let ghost w = words(pre);
        assert(cs@.take(i + 1).drop_last() =~= pre);
        assert(cs@.take(i + 1).last() == c);
        if char_is_ws(c) {
            prev_ws = true;
        } else {
            if !prev_ws && have_word {
                proof {
                    assert(cs@.take(i + 1)[i - 1] == cs@[i - 1]);
                    lemma_join_extend_last(w, c, seq![' ']);
                }
                push_char(&mut out, c);
            } else {
                proof {
                    if i > 0 {
                        assert(cs@.take(i + 1)[i - 1] == cs@[i - 1]);
                    }
                    lemma_join_push(w, seq![c], seq![' ']);
                }
                if have_word {
                    push_char(&mut out, ' ');
                }
                push_char(&mut out, c);
                assert(out@ =~= join(words(cs@.take(i + 1)), seq![' ']));
            }
            have_word = true;
            prev_ws = false;
        }
        i = i + 1;
    }
    assert(cs@.take(cs@.len() as int) =~= cs@);
    out
}

pub open spec fn opt_view(o: Option<String>) -> Option<Seq<char>> {
    match o {
        Some(s) => Some(s@),
        None => None,
    }
}

/// The pattern of the characters that tags lose: everything but ASCII
/// letters and digits, whitespace, `-` and `_`.
pub open spec fn tag_symbol_pattern() -> Seq<char> {
    "[^A-Za-z0-9\\s\\-_]"@
}

/// A tag as a page shows it and in the form used to compare tags.
#[derive(Clone, Debug)]
pub struct NormalizedTag {
    pub raw: String,
    pub normalized: String,
}

/// The (raw, normalized) pairs of a list of tags.
pub open spec fn tag_pairs(v: Seq<NormalizedTag>) -> Seq<(Seq<char>, Seq<char>)> {
    v.map_values(|t: NormalizedTag| (t.raw@, t.normalized@))
}

/// The normalized form of one tag under a symbol pattern: trimmed, symbols
/// removed, lower-cased and its words joined by single spaces. `None` when
/// the tag is blank, the pattern does not compile or nothing is left.
pub open spec fn tag_entry(pattern: Seq<char>, tag: Seq<char>) -> Option<(Seq<char>, Seq<char>)> {
    let t = trim(tag);
    if t.len() == 0 {
        None
    } else {
        if !regex_accepts(pattern) {
            None
        } else {
            let n = squeezed(spec_to_lowercase(regex_replaced(pattern, t, Seq::empty())));
            if n.len() == 0 {
                None
            } else {
                Some((t, n))
            }
        }
    }
}

/// True when some pair has `n` as its normalized form.
pub open spec fn has_normal_form(acc: Seq<(Seq<char>, Seq<char>)>, n: Seq<char>) -> bool {
    exists|k: int| 0 <= k < acc.len() && (#[trigger] acc[k]).1 == n
}

/// The tags kept, in order: each tag with a normal form that no earlier kept
/// tag has.
pub open spec fn normalized_tags(pattern: Seq<char>, tags: Seq<Seq<char>>) -> Seq<(Seq<char>, Seq<char>)>
    decreases tags.len(),
{
    if tags.len() == 0 {
        Seq::empty()
    } else {
        let acc = normalized_tags(pattern, tags.drop_last());
        match tag_entry(pattern, tags.last()) {
            Some(e) => if has_normal_form(acc, e.1) {
                acc
            } else {
                acc.push(e)
            },
            None => acc,
        }
    }
}

/// Tag normalization keeps no two tags with the same normal form, and no
/// blank normal form.
pub proof fn law_normal_forms_distinct(pattern: Seq<char>, tags: Seq<Seq<char>>)
    ensures
        forall|i: int, j: int|
            0 <= i < j < normalized_tags(pattern, tags).len() ==> (#[trigger] normalized_tags(
                pattern,
                tags,
            )[i]).1 != (#[trigger] normalized_tags(pattern, tags)[j]).1,
        forall|i: int|
            0 <= i < normalized_tags(pattern, tags).len() ==> (#[trigger] normalized_tags(
                pattern,
                tags,
            )[i]).1.len() > 0,
    decreases tags.len(),
{
    if tags.len() > 0 {
        law_normal_forms_distinct(pattern, tags.drop_last());
        let acc = normalized_tags(pattern, tags.drop_last());
        match tag_entry(pattern, tags.last()) {
            Some(e) => {
                if !has_normal_form(acc, e.1) {
                    let r = acc.push(e);
                    assert forall|i: int, j: int| 0 <= i < j < r.len() implies r[i].1 != r[j].1 by {
                        if j == r.len() - 1 {
                            if r[i].1 == r[j].1 {
                                assert(acc[i].1 == e.1);
                            }
                        } else {
                            assert(r[i] == acc[i] && r[j] == acc[j]);
                        }
                    }
                    assert forall|i: int| 0 <= i < r.len() implies r[i].1.len() > 0 by {
                        if i < acc.len() {
                            assert(r[i] == acc[i]);
                        }
                    }
                }
            },
            None => {},
        }
    }
}

/// Everything the page scripts report about a video, before normalization.
#[derive(Clone, Debug)]
pub struct RawMetadataPayload {
    pub title_candidates: Vec<String>,
    pub tags: Vec<String>,
    pub breadcrumbs: Vec<String>,
    pub resolution_labels: Vec<String>,
    pub license_text: Option<String>,
}

/// What the library knows of a video from its page.
#[derive(Clone, Debug)]
pub struct ContentMetadata {
    pub title: Option<String>,
    pub duration_seconds: Option<u64>,
    pub tags: Vec<NormalizedTag>,
    pub breadcrumbs: Vec<String>,
    pub resolution_label: Option<String>,
    pub expected_bitrate: Option<u64>,
    pub license_hint: Option<String>,
}

/// The texts trimmed, the blank ones left out, in order.
pub open spec fn trimmed_nonblank(v: Seq<Seq<char>>) -> Seq<Seq<char>>
    decreases v.len(),
{
    if v.len() == 0 {
        Seq::empty()
    } else {
        let rest = trimmed_nonblank(v.drop_last());
        if trim(v.last()).len() == 0 {
            rest
        } else {
            rest.push(trim(v.last()))
        }
    }
}

/// The first label holding a `p` (as in `720p`), trimmed.
pub open spec fn resolution_of(labels: Seq<Seq<char>>) -> Option<Seq<char>>
    decreases labels.len(),
{
    if labels.len() == 0 {
        None
    } else if labels[0].contains('p') {
        Some(trim(labels[0]))
    } else {
        resolution_of(labels.drop_first())
    }
}

/// A license text trimmed, `None` when blank or absent.
pub open spec fn license_of(text: Option<Seq<char>>) -> Option<Seq<char>> {
    match text {
        Some(t) => if trim(t).len() == 0 {
            None
        } else {
            Some(trim(t))
        },
        None => None,
    }
}

/// The texts trimmed, the blank ones left out, in order.
pub fn trim_nonblank(v: &Vec<String>) -> (r: Vec<String>)
    ensures
        views(r@) == trimmed_nonblank(views(v@)),
{
    let ghost vv = views(v@);
    let mut out: Vec<String> = Vec::new();
    let mut i: usize = 0;
    while i < v.len()
        invariant
            i <= v@.len(),
            vv == views(v@),
            views(out@) == trimmed_nonblank(vv.take(i as int)),
        decreases v@.len() - i,
    {
        assert(vv.take(i + 1).drop_last() =~= vv.take(i as int));
        assert(vv.take(i + 1).last() == v@[i as int]@);
        let t = trim_str(v[i].as_str());
        if t.unicode_len() > 0 {
            let ghost before = views(out@);
            out.push(t);
            assert(views(out@) =~= before.push(t@));
        }
        i = i + 1;
    }
    assert(vv.take(v@.len() as int) =~= vv);
    out
}

fn has_char(s: &str, c: char) -> (r: bool)
    ensures
        r == s@.contains(c),
{
    let cs = chars_of(s);
    let mut i: usize = 0;
    while i < cs.len()
        invariant
            i <= cs@.len(),
            cs@ == s@,
            forall|k: int| 0 <= k < i ==> cs@[k] != c,
        decreases cs@.len() - i,
    {
        if cs[i] == c {
            return true;
        }
        i = i + 1;
    }
    false
}

/// The first label holding a `p`, trimmed.
pub fn find_resolution(labels: &Vec<String>) -> (r: Option<String>)
    ensures
        opt_view(r) == resolution_of(views(labels@)),
{
    let ghost lv = views(labels@);
    let mut i: usize = 0;
    assert(lv.skip(0) =~= lv);
    while i < labels.len()
        invariant
            i <= labels@.len(),
            lv == views(labels@),
            resolution_of(lv) == resolution_of(lv.skip(i as int)),
        decreases labels@.len() - i,
    {
        assert(lv.skip(i as int)[0] == labels@[i as int]@);
        assert(lv.skip(i as int).drop_first() =~= lv.skip(i + 1));
        if has_char(labels[i].as_str(), 'p') {
            return Some(trim_str(labels[i].as_str()));
        }
        i = i + 1;
    }
    None
}

/// A selector list as the page script writes it: each selector escaped and
/// single-quoted, separated by commas.
pub open spec fn quoted_selectors(items: Seq<Seq<char>>) -> Seq<char> {
    join(items.map_values(|s: Seq<char>| seq!['\''] + js_escaped(s) + seq!['\'']), seq![','])
}

/// The quality-menu lookups of the page script: for each selector, its
/// descendants and itself, separated by commas.
pub open spec fn quality_lookups(items: Seq<Seq<char>>) -> Seq<char> {
    join(
        items.map_values(|s: Seq<char>| "document.querySelectorAll('"@ + js_escaped(s) + " *'), document.querySelectorAll('"@ + js_escaped(s) + "')"@),
        seq![','],
    )
}

/// The selectors where a page states its license.
pub open spec fn license_selectors() -> Seq<Seq<char>> {
    seq!["meta[name='license']"@, "meta[property='og:site_name']"@, "meta[name='copyright']"@]
}

/// The selector of breadcrumb links.
pub open spec fn breadcrumb_selector() -> Seq<char> {
    "[class*='breadcrumb'] a, nav.breadcrumb a"@
}

pub open spec fn script_head() -> Seq<char> {
    r#"
(() => {
    const pick = (list) => Array.from(list).map(el => (el.textContent || '').trim()).filter(Boolean);
    const unique = (items) => Array.from(new Set(items));
    const titleCandidates = unique([
        document.title || '',
        (document.querySelector('h1') || {}).innerText || '',
        (document.querySelector("meta[property='og:title']") || {}).content || '',
        (document.querySelector("meta[name='title']") || {}).content || ''
    ].filter(Boolean));
    const tagSelectors = ["#@
}

pub open spec fn script_after_tags() -> Seq<char> {
    r#"];
    const tags = unique(tagSelectors.flatMap(selector => pick(document.querySelectorAll(selector))));
    const breadcrumbs = unique(pick(document.querySelectorAll('"#@
}

pub open spec fn script_after_breadcrumbs() -> Seq<char> {
    r#"')));
    const qualityNodes = ["#@
}

pub open spec fn script_after_quality() -> Seq<char> {
    r#"];
    const resolutionLabels = unique(qualityNodes.flatMap(nodes => pick(nodes)));
    const licenseNodes = ["#@
}

pub open spec fn script_tail() -> Seq<char> {
    r#"];
    const licenseText = licenseNodes
        .map(sel => document.querySelector(sel))
        .filter(Boolean)
        .map(node => (node.content || node.innerText || '').trim())
        .find(Boolean) || null;
    return {
        title_candidates: titleCandidates,
        tags,
        breadcrumbs,
        resolution_labels: resolutionLabels,
        license_text: licenseText
    };
})()
"#@
}

/// The page script that collects title candidates, tags (under the play
/// button selectors), breadcrumbs, quality labels (under the quality menu
/// selectors) and the license text.
pub open spec fn scraper_script(selectors: SelectorSection) -> Seq<char> {
    script_head() + quoted_selectors(views(selectors.play_buttons@)) + script_after_tags()
        + js_escaped(breadcrumb_selector()) + script_after_breadcrumbs() + quality_lookups(
        views(selectors.quality_menu@),
    ) + script_after_quality() + quoted_selectors(license_selectors()) + script_tail()
}

fn quote_selectors(items: &Vec<String>) -> (r: String)
    ensures
        r@ == quoted_selectors(views(items@)),
{
    let mut quoted: Vec<String> = Vec::new();
    let mut i: usize = 0;
    while i < items.len()
        invariant
            i <= items@.len(),
            views(quoted@) == views(items@).take(i as int).map_values(|s: Seq<char>| seq!['\''] + js_escaped(s) + seq!['\'']),
        decreases items@.len() - i,
    {
        let mut q = String::new();
        push_char(&mut q, '\'');
        let e = escape_js(items[i].as_str());
        q.append(e.as_str());
        push_char(&mut q, '\'');
        assert(q@ =~= seq!['\''] + js_escaped(items@[i as int]@) + seq!['\'']);
        let ghost before = views(quoted@);
        quoted.push(q);
        assert(views(quoted@) =~= before.push(q@));
        assert(views(items@).take(i + 1) =~= views(items@).take(i as int).push(items@[i as int]@));
        assert(views(quoted@) =~= views(items@).take(i + 1).map_values(|s: Seq<char>| seq!['\''] + js_escaped(s) + seq!['\'']));
        i = i + 1;
    }
    assert(views(items@).take(items@.len() as int) =~= views(items@));
    proof {
        reveal_strlit(",");
        assert(","@ =~= seq![',']);
        assert(quoted@.map_values(|x: String| x@) =~= views(quoted@));
    }
    join_strings(&quoted, ",")
}

fn quality_selector_list(items: &Vec<String>) -> (r: String)
    ensures
        r@ == quality_lookups(views(items@)),
{
    let mut parts: Vec<String> = Vec::new();
    let mut i: usize = 0;
    while i < items.len()
        invariant
            i <= items@.len(),
            views(parts@) == views(items@).take(i as int).map_values(|s: Seq<char>| "document.querySelectorAll('"@ + js_escaped(s) + " *'), document.querySelectorAll('"@ + js_escaped(s) + "')"@),
        decreases items@.len() - i,
    {
        let e = escape_js(items[i].as_str());
        let mut q = owned("document.querySelectorAll('");
        q.append(e.as_str());
        q.append(" *'), document.querySelectorAll('");
        q.append(e.as_str());
        q.append("')");
        let ghost before = views(parts@);
        parts.push(q);
        assert(views(parts@) =~= before.push(q@));
        assert(views(items@).take(i + 1) =~= views(items@).take(i as int).push(items@[i as int]@));
        assert(views(parts@) =~= views(items@).take(i + 1).map_values(|s: Seq<char>| "document.querySelectorAll('"@ + js_escaped(s) + " *'), document.querySelectorAll('"@ + js_escaped(s) + "')"@));
        i = i + 1;
    }
    assert(views(items@).take(items@.len() as int) =~= views(items@));
    proof {
        reveal_strlit(",");
        assert(","@ =~= seq![',']);
        assert(parts@.map_values(|x: String| x@) =~= views(parts@));
    }
    join_strings(&parts, ",")
}

/// Turns page payloads into `ContentMetadata`.
#[derive(Clone, Debug)]
pub struct MetadataExtractor {
    selectors: SelectorSection,
    sanitize_pattern: String,
}

impl MetadataExtractor {
    pub closed spec fn spec_pattern(self) -> Seq<char> {
        self.sanitize_pattern@
    }

    pub closed spec fn spec_selectors(self) -> SelectorSection {
        self.selectors
    }

    pub fn new(selectors: SelectorSection) -> (r: Self)
        ensures
            r.spec_pattern() == tag_symbol_pattern(),
            r.spec_selectors() == selectors,
    {
        MetadataExtractor { selectors, sanitize_pattern: owned("[^A-Za-z0-9\\s\\-_]") }
    }

    pub fn selectors(&self) -> (r: &SelectorSection)
        ensures
            *r == self.spec_selectors(),
    {
        &self.selectors
    }

    /// The page script that collects what the page says about its video.
    pub fn dom_scraper_script(&self) -> (r: String)
        ensures
            r@ == scraper_script(self.spec_selectors()),
    {
        let tags = quote_selectors(&self.selectors.play_buttons);
        let quality = quality_selector_list(&self.selectors.quality_menu);
        let mut licenses: Vec<String> = Vec::new();
        licenses.push(owned("meta[name='license']"));
        licenses.push(owned("meta[property='og:site_name']"));
        licenses.push(owned("meta[name='copyright']"));
        assert(views(licenses@) =~= license_selectors());
        let license = quote_selectors(&licenses);
        let crumbs = escape_js("[class*='breadcrumb'] a, nav.breadcrumb a");
        let mut script = owned(r#"
(() => {
    const pick = (list) => Array.from(list).map(el => (el.textContent || '').trim()).filter(Boolean);
    const unique = (items) => Array.from(new Set(items));
    const titleCandidates = unique([
        document.title || '',
        (document.querySelector('h1') || {}).innerText || '',
        (document.querySelector("meta[property='og:title']") || {}).content || '',
        (document.querySelector("meta[name='title']") || {}).content || ''
    ].filter(Boolean));
    const tagSelectors = ["#);
        script.append(tags.as_str());
        script.append(r#"];
    const tags = unique(tagSelectors.flatMap(selector => pick(document.querySelectorAll(selector))));
    const breadcrumbs = unique(pick(document.querySelectorAll('"#);
        script.append(crumbs.as_str());
        script.append(r#"')));
    const qualityNodes = ["#);
        script.append(quality.as_str());
        script.append(r#"];
    const resolutionLabels = unique(qualityNodes.flatMap(nodes => pick(nodes)));
    const licenseNodes = ["#);
        script.append(license.as_str());
        script.append(r#"];
    const licenseText = licenseNodes
        .map(sel => document.querySelector(sel))
        .filter(Boolean)
        .map(node => (node.content || node.innerText || '').trim())
        .find(Boolean) || null;
    return {
        title_candidates: titleCandidates,
        tags,
        breadcrumbs,
        resolution_labels: resolutionLabels,
        license_text: licenseText
    };
})()
"#);
        assert(script@ =~= scraper_script(self.spec_selectors()));
        script
    }

    /// The longest non-blank candidate by byte length (the last of equals),
    /// trimmed.
    pub fn select_title(&self, candidates: Vec<String>) -> (r: Option<String>)
        ensures
            opt_view(r) == chosen_title(candidates@.map_values(|c: String| c@)),
    {
        let ghost cv = candidates@.map_values(|c: String| c@);
        let mut best: Option<usize> = None;
        let mut best_len: usize = 0;
        let mut i: usize = 0;
        while i < candidates.len()
            invariant
                i <= candidates@.len(),
                cv == candidates@.map_values(|c: String| c@),
                match best {
                    Some(k) => k < i && longest_nonblank(cv.take(i as int)) == Some(cv[k as int])
                        && best_len == byte_len(cv[k as int]),
                    None => longest_nonblank(cv.take(i as int)) is None,
                },
            decreases candidates@.len() - i,
        {
            assert(cv.take(i + 1).drop_last() =~= cv.take(i as int));
            assert(cv.take(i + 1).last() == cv[i as int]);
            let t = trim_str(candidates[i].as_str());
            if t.unicode_len() > 0 {
                let len = candidates[i].as_str().len();
                match best {
                    Some(_) => {
                        if len >= best_len {
                            best = Some(i);
                            best_len = len;
                        }
                    },
                    None => {
                        best = Some(i);
                        best_len = len;
                    },
                }
            }
            i = i + 1;
        }
        assert(cv.take(candidates@.len() as int) =~= cv);
        match best {
            Some(k) => Some(trim_str(candidates[k].as_str())),
            None => None,
        }
    }

    /// The metadata of a video from what its page reported and the duration
    /// its player gave: the chosen title, the normalized tags, the non-blank
    /// breadcrumbs, the first resolution label with a `p`, the bitrate that
    /// label implies and the non-blank license text, all trimmed.
    pub fn assemble(&self, payload: RawMetadataPayload, duration_seconds: Option<u64>) -> (r: ContentMetadata)
        ensures
            opt_view(r.title) == chosen_title(views(payload.title_candidates@)),
            r.duration_seconds == duration_seconds,
            tag_pairs(r.tags@) == normalized_tags(self.spec_pattern(), views(payload.tags@)),
            views(r.breadcrumbs@) == trimmed_nonblank(views(payload.breadcrumbs@)),
            opt_view(r.resolution_label) == resolution_of(views(payload.resolution_labels@)),
            r.expected_bitrate == match resolution_of(views(payload.resolution_labels@)) {
                Some(l) => label_bitrate(l),
                None => None,
            },
            opt_view(r.license_hint) == license_of(opt_view(payload.license_text)),
    {
        let title = self.select_title(payload.title_candidates);
        let tags = self.normalize_tags(payload.tags);
        let breadcrumbs = trim_nonblank(&payload.breadcrumbs);
        let resolution_label = find_resolution(&payload.resolution_labels);
        let expected_bitrate = match &resolution_label {
            Some(l) => bitrate_for_resolution(l.as_str()),
            None => None,
        };
        let license_hint = match &payload.license_text {
            Some(t) => {
                let trimmed = trim_str(t.as_str());
                if trimmed.unicode_len() == 0 {
                    None
                } else {
                    Some(trimmed)
                }
            },
            None => None,
        };
        ContentMetadata {
            title,
            duration_seconds,
            tags,
            breadcrumbs,
            resolution_label,
            expected_bitrate,
            license_hint,
        }
    }

    /// True when a kept tag already has the normal form `n`.
    fn has_normalized(kept: &Vec<NormalizedTag>, n: &str) -> (r: bool)
        ensures
            r == has_normal_form(tag_pairs(kept@), n@),
    {
        let mut i: usize = 0;
        while i < kept.len()
            invariant
                i <= kept@.len(),
                forall|k: int| 0 <= k < i ==> (#[trigger] tag_pairs(kept@)[k]).1 != n@,
            decreases kept@.len() - i,
        {
            if str_eq(kept[i].normalized.as_str(), n) {
                assert(tag_pairs(kept@)[i as int].1 == n@);
                return true;
            }
            i = i + 1;
        }
        false
    }

    /// The normal form of one tag: `(trimmed, normalized)`, or `None` when
    /// the tag is dropped.
    fn tag_entry_of(&self, tag: &str) -> (r: Option<(String, String)>)
        ensures
            match r {
                Some(p) => tag_entry(self.spec_pattern(), tag@) == Some((p.0@, p.1@)),
                None => tag_entry(self.spec_pattern(), tag@) is None,
            },
    {
        let trimmed = trim_str(tag);
        if trimmed.unicode_len() == 0 {
            return None;
        }
        let empty = String::new();
        match regex_replace_all(self.sanitize_pattern.as_str(), trimmed.as_str(), empty.as_str()) {
            Some(stripped) => {
                let lowered = to_lowercase(stripped.as_str());
                let norm = collapse_whitespace(lowered.as_str());
                if norm.unicode_len() == 0 {
                    None
                } else {
                    Some((trimmed, norm))
                }
            },
            None => None,
        }
    }

    /// Tags trimmed, stripped of symbols, lower-cased and with their words
    /// joined by single spaces; blank results and repeats of an earlier
    /// normal form are left out.
    pub fn normalize_tags(&self, tags: Vec<String>) -> (r: Vec<NormalizedTag>)
        ensures
            tag_pairs(r@) == normalized_tags(self.spec_pattern(), tags@.map_values(|t: String| t@)),
    {
        let ghost tv = tags@.map_values(|t: String| t@);
        let mut out: Vec<NormalizedTag> = Vec::new();
        let mut i: usize = 0;
        while i < tags.len()
            invariant
                i <= tags@.len(),
                tv == tags@.map_values(|t: String| t@),
                tag_pairs(out@) == normalized_tags(self.spec_pattern(), tv.take(i as int)),
            decreases tags@.len() - i,
        {
            assert(tv.take(i + 1).drop_last() =~= tv.take(i as int));
            assert(tv.take(i + 1).last() == tags@[i as int]@);
            match self.tag_entry_of(tags[i].as_str()) {
                Some((raw, norm)) => {
                    if !Self::has_normalized(&out, norm.as_str()) {
                        let ghost before = tag_pairs(out@);
                        out.push(NormalizedTag { raw, normalized: norm });
                        assert(tag_pairs(out@) =~= before.push((raw@, norm@)));
                    }
                },
                None => {},
            }
            i = i + 1;
        }
        assert(tv.take(tags@.len() as int) =~= tv);
        out
    }
}

} // verus!
