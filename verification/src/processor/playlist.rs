//! The HLS media playlists and DASH manifests that media is downloaded
//! from. Durations are kept as the text they are written with; that text is
//! checked against the grammar `f64` is read with.
use vstd::prelude::*;

use crate::pattern::{groups_view, regex_accepts, regex_all_groups, regex_captures_all};
use crate::text::{
    all_digits, ascii_lower, ascii_lower_char, ascii_lower_char_exec, char_is_digit, char_is_ws, chars_of, is_digit,
    is_ws, lemma_trim_start_skip, owned, parse_u32, parse_u64, parse_u64_exec, pieces, split_pieces, starts_with,
    starts_with_exec, string_from_range, trim, trim_start, trim_str, views,
};

verus! {

/// `+` or `-`.
pub open spec fn is_sign(c: char) -> bool {
    c == '+' || c == '-'
}

/// The exponent mark, in either case.
pub open spec fn is_exp_mark(c: char) -> bool {
    c == 'e' || c == 'E'
}

/// `Digit+ | Digit+ '.' Digit* | Digit* '.' Digit+`.
pub open spec fn is_mantissa(m: Seq<char>) -> bool {
    (m.len() > 0 && all_digits(m)) || exists|d: int|
        0 <= d < m.len() && #[trigger] m[d] == '.' && all_digits(m.take(d)) && all_digits(m.skip(d + 1)) && (d > 0
            || d + 1 < m.len())
}

/// `Sign? Digit+`, what follows the exponent mark.
pub open spec fn is_exponent(x: Seq<char>) -> bool {
    let y = if x.len() > 0 && is_sign(x[0]) {
        x.drop_first()
    } else {
        x
    };
    y.len() > 0 && all_digits(y)
}

/// `Number ::= Mantissa Exp?`.
pub open spec fn is_number(u: Seq<char>) -> bool {
    is_mantissa(u) || exists|k: int|
        0 <= k < u.len() && is_exp_mark(#[trigger] u[k]) && is_mantissa(u.take(k)) && is_exponent(u.skip(k + 1))
}

/// The text without its sign.
pub open spec fn unsigned_part(s: Seq<char>) -> Seq<char> {
    if s.len() > 0 && is_sign(s[0]) {
        s.drop_first()
    } else {
        s
    }
}

/// Whether `str::parse::<f64>` accepts the text: an optional sign, then
/// `inf`, `infinity`, `nan` (in any case) or a decimal number with an
/// optional exponent; no whitespace.
pub open spec fn is_float_text(s: Seq<char>) -> bool {
    let u = unsigned_part(s);
    ascii_lower(u) == "inf"@ || ascii_lower(u) == "infinity"@ || ascii_lower(u) == "nan"@ || is_number(u)
}

proof fn lemma_mantissa_chars(m: Seq<char>, j: int)
    requires
        is_mantissa(m),
        0 <= j < m.len(),
    ensures
        is_digit(m[j]) || m[j] == '.',
{
    if m.len() > 0 && all_digits(m) {
    } else {
        let d = choose|d: int|
            0 <= d < m.len() && #[trigger] m[d] == '.' && all_digits(m.take(d)) && all_digits(m.skip(d + 1)) && (d
                > 0 || d + 1 < m.len());
        if j < d {
            assert(m.take(d)[j] == m[j]);
        } else if j > d {
            assert(m.skip(d + 1)[j - d - 1] == m[j]);
        }
    }
}

/// Whether `v[from..to]` is all digits.
fn digits_only(v: &Vec<char>, from: usize, to: usize) -> (r: bool)
    requires
        from <= to <= v@.len(),
    ensures
        r == all_digits(v@.subrange(from as int, to as int)),
{
    let mut i = from;
    while i < to
        invariant
            from <= i <= to <= v@.len(),
            forall|j: int| from <= j < i ==> is_digit(#[trigger] v@[j]),
        decreases to - i,
    {
        if !char_is_digit(v[i]) {
            assert(v@.subrange(from as int, to as int)[i - from] == v@[i as int]);
            return false;
        }
        i = i + 1;
    }
    assert forall|j: int| 0 <= j < to - from implies is_digit(#[trigger] v@.subrange(from as int, to as int)[j]) by {
        assert(v@.subrange(from as int, to as int)[j] == v@[from + j]);
    }
    true
}

fn mantissa_ok(v: &Vec<char>, from: usize, to: usize) -> (r: bool)
    requires
        from <= to <= v@.len(),
    ensures
        r == is_mantissa(v@.subrange(from as int, to as int)),
{
    let ghost m = v@.subrange(from as int, to as int);
    let mut d = from;
    while d < to && v[d] != '.'
        invariant
            from <= d <= to <= v@.len(),
            forall|j: int| from <= j < d ==> v@[j] != '.',
        decreases to - d,
    {
        d = d + 1;
    }
    if d == to {
        let r = from < to && digits_only(v, from, to);
        proof {
            if !r && is_mantissa(m) {
                if !(m.len() > 0 && all_digits(m)) {
                    let k = choose|k: int|
                        0 <= k < m.len() && #[trigger] m[k] == '.' && all_digits(m.take(k)) && all_digits(
                            m.skip(k + 1),
                        ) && (k > 0 || k + 1 < m.len());
                    assert(m[k] == v@[from + k]);
                }
            }
        }
        r
    } else {
        let ghost dd = d - from;
        assert(m[dd] == '.');
        assert(m.take(dd) =~= v@.subrange(from as int, d as int));
        assert(m.skip(dd + 1) =~= v@.subrange(d + 1, to as int));
        let before = digits_only(v, from, d);
        let after = digits_only(v, d + 1, to);
        let r = before && after && (d > from || d + 1 < to);
        proof {
            if r {
                assert(is_mantissa(m));
            } else if is_mantissa(m) {
                if m.len() > 0 && all_digits(m) {
                    assert(is_digit(m[dd]));
                } else {
                    let k = choose|k: int|
                        0 <= k < m.len() && #[trigger] m[k] == '.' && all_digits(m.take(k)) && all_digits(
                            m.skip(k + 1),
                        ) && (k > 0 || k + 1 < m.len());
                    if k < dd {
                        assert(m[k] == v@[from + k]);
                    } else if k > dd {
                        assert(m.take(k)[dd] == m[dd]);
                    }
                }
            }
        }
        r
    }
}

fn exponent_ok(v: &Vec<char>, from: usize, to: usize) -> (r: bool)
    requires
        from <= to <= v@.len(),
    ensures
        r == is_exponent(v@.subrange(from as int, to as int)),
{
    let ghost x = v@.subrange(from as int, to as int);
    let start = if from < to && (v[from] == '+' || v[from] == '-') {
        assert(x.drop_first() =~= v@.subrange(from + 1, to as int));
        from + 1
    } else {
        from
    };
    start < to && digits_only(v, start, to)
}

fn number_ok(v: &Vec<char>, from: usize, to: usize) -> (r: bool)
    requires
        from <= to <= v@.len(),
    ensures
        r == is_number(v@.subrange(from as int, to as int)),
{
    let ghost u = v@.subrange(from as int, to as int);
    let mut k = from;
    while k < to && v[k] != 'e' && v[k] != 'E'
        invariant
            from <= k <= to <= v@.len(),
            forall|j: int| from <= j < k ==> !is_exp_mark(#[trigger] v@[j]),
        decreases to - k,
    {
        k = k + 1;
    }
    if k == to {
        let r = mantissa_ok(v, from, to);
        proof {
            if !r && is_number(u) {
                let w = choose|w: int|
                    0 <= w < u.len() && is_exp_mark(#[trigger] u[w]) && is_mantissa(u.take(w)) && is_exponent(
                        u.skip(w + 1),
                    );
                assert(u[w] == v@[from + w]);
            }
        }
        r
    } else {
        let ghost kk = k - from;
        assert(is_exp_mark(u[kk]));
        assert(u.take(kk) =~= v@.subrange(from as int, k as int));
        assert(u.skip(kk + 1) =~= v@.subrange(k + 1, to as int));
        let m = mantissa_ok(v, from, k);
        let e = exponent_ok(v, k + 1, to);
        proof {
            if is_mantissa(u) {
                lemma_mantissa_chars(u, kk);
            }
            if !(m && e) && is_number(u) {
                let w = choose|w: int|
                    0 <= w < u.len() && is_exp_mark(#[trigger] u[w]) && is_mantissa(u.take(w)) && is_exponent(
                        u.skip(w + 1),
                    );
                if w < kk {
                    assert(u[w] == v@[from + w]);
                } else if w > kk {
                    lemma_mantissa_chars(u.take(w), kk);
                    assert(u.take(w)[kk] == u[kk]);
                }
            }
        }
        m && e
    }
}

/// Whether `v[from..to]`, lower-cased, is `word`.
fn lower_equals(v: &Vec<char>, from: usize, to: usize, word: &Vec<char>) -> (r: bool)
    requires
        from <= to <= v@.len(),
    ensures
        r == (ascii_lower(v@.subrange(from as int, to as int)) == word@),
{
    let ghost s = v@.subrange(from as int, to as int);
    if to - from != word.len() {
        assert(ascii_lower(s).len() == s.len());
        return false;
    }
    let mut i: usize = 0;
    while i < word.len()
        invariant
            s == v@.subrange(from as int, to as int),
            to - from == word@.len(),
            from <= to <= v@.len(),
            i <= word@.len(),
            forall|j: int| 0 <= j < i ==> ascii_lower_char(v@[from + j]) == #[trigger] word@[j],
        decreases word@.len() - i,
    {
        if ascii_lower_char_exec(v[from + i]) != word[i] {
            assert(ascii_lower(s)[i as int] == ascii_lower_char(v@[from + i]));
            return false;
        }
        i = i + 1;
    }
    assert forall|j: int| 0 <= j < word@.len() implies ascii_lower(s)[j] == word@[j] by {
        assert(s[j] == v@[from + j]);
    }
    assert(ascii_lower(s) =~= word@);
    true
}

/// Whether `str::parse::<f64>` accepts `v[from..to]`; see [`is_float_text`].
pub fn float_text_ok(v: &Vec<char>, from: usize, to: usize) -> (r: bool)
    requires
        from <= to <= v@.len(),
    ensures
        r == is_float_text(v@.subrange(from as int, to as int)),
{
    let ghost s = v@.subrange(from as int, to as int);
    let start = if from < to && (v[from] == '+' || v[from] == '-') {
        assert(s.drop_first() =~= v@.subrange(from + 1, to as int));
        from + 1
    } else {
        from
    };
    assert(unsigned_part(s) == v@.subrange(start as int, to as int));
    let inf = chars_of("inf");
    let infinity = chars_of("infinity");
    let nan = chars_of("nan");
    lower_equals(v, start, to, &inf) || lower_equals(v, start, to, &infinity) || lower_equals(v, start, to, &nan)
        || number_ok(v, start, to)
}


/// The lines of a playlist, each without surrounding whitespace.
pub open spec fn playlist_lines(contents: Seq<char>) -> Seq<Seq<char>> {
    pieces(contents, '\n').map_values(|l: Seq<char>| trim(l))
}

/// The text without its trailing commas.
pub open spec fn strip_commas(s: Seq<char>) -> Seq<char>
    decreases s.len(),
{
    if s.len() > 0 && s.last() == ',' {
        strip_commas(s.drop_last())
    } else {
        s
    }
}

/// What has been read of a playlist: its version, target duration (as
/// text, when given), media sequence, the segments so far (duration text
/// and URI), and a duration that awaits its URI.
pub type HlsReading = (u32, Option<Seq<char>>, u64, Seq<(Seq<char>, Seq<char>)>, Option<Seq<char>>);

/// Reading one line: the version, target duration, media sequence and
/// segment duration tags set their values (refused when the value does
/// not parse); other comments and blank lines are passed over; any other
/// line is the URI of the segment whose duration was read last, if one
/// awaits it.
pub open spec fn hls_step(st: HlsReading, line: Seq<char>) -> Result<HlsReading, Seq<char>> {
    if starts_with(line, "#EXT-X-VERSION:"@) {
        match parse_u32(line.skip("#EXT-X-VERSION:"@.len() as int)) {
            Some(v) => Ok((v, st.1, st.2, st.3, st.4)),
            None => Err("invalid EXT-X-VERSION"@),
        }
    } else if starts_with(line, "#EXT-X-TARGETDURATION:"@) {
        let t = line.skip("#EXT-X-TARGETDURATION:"@.len() as int);
        if is_float_text(t) {
            Ok((st.0, Some(t), st.2, st.3, st.4))
        } else {
            Err("invalid EXT-X-TARGETDURATION"@)
        }
    } else if starts_with(line, "#EXT-X-MEDIA-SEQUENCE:"@) {
        match parse_u64(line.skip("#EXT-X-MEDIA-SEQUENCE:"@.len() as int)) {
            Some(q) => Ok((st.0, st.1, q, st.3, st.4)),
            None => Err("invalid EXT-X-MEDIA-SEQUENCE"@),
        }
    } else if starts_with(line, "#EXTINF:"@) {
        let d = strip_commas(line.skip("#EXTINF:"@.len() as int));
        if is_float_text(d) {
            Ok((st.0, st.1, st.2, st.3, Some(d)))
        } else {
            Err("invalid EXTINF duration"@)
        }
    } else if line.len() == 0 || line[0] == '#' {
        Ok(st)
    } else {
        match st.4 {
            Some(d) => Ok((st.0, st.1, st.2, st.3.push((d, line)), None)),
            None => Ok(st),
        }
    }
}

/// The lines read in order, from version 3, no target duration, media
/// sequence 0 and no segments; the first refused line ends the reading.
pub open spec fn hls_read(lines: Seq<Seq<char>>) -> Result<HlsReading, Seq<char>>
    decreases lines.len(),
{
    if lines.len() == 0 {
        Ok((3, None, 0, Seq::empty(), None))
    } else {
        match hls_read(lines.drop_last()) {
            Ok(st) => hls_step(st, lines.last()),
            Err(e) => Err(e),
        }
    }
}

/// A media playlist: it must open with `#EXTM3U` (after any whitespace)
/// and list at least one segment.
pub open spec fn hls_parse(contents: Seq<char>) -> Result<HlsReading, Seq<char>> {
    if !starts_with(trim_start(contents), "#EXTM3U"@) {
        Err("missing #EXTM3U header"@)
    } else {
        match hls_read(playlist_lines(contents)) {
            Ok(st) => if st.3.len() == 0 {
                Err("playlist missing segments"@)
            } else {
                Ok(st)
            },
            Err(e) => Err(e),
        }
    }
}

proof fn lemma_read_error_sticks(lines: Seq<Seq<char>>, k: int)
    requires
        0 <= k <= lines.len(),
        hls_read(lines.take(k)) is Err,
    ensures
        hls_read(lines) == hls_read(lines.take(k)),
    decreases lines.len() - k,
{
    if k == lines.len() {
        assert(lines.take(k) =~= lines);
    } else {
        assert(lines.drop_last().take(k) =~= lines.take(k));
        lemma_read_error_sticks(lines.drop_last(), k);
    }
}

/// One segment of a media playlist: its duration, as written, and its URI.
#[derive(Clone, Debug)]
pub struct HlsSegment {
    pub duration: String,
    pub uri: String,
}

/// A media playlist as read; durations are kept as written.
#[derive(Clone, Debug)]
pub struct HlsPlaylist {
    pub version: u32,
    pub target_duration: Option<String>,
    pub media_sequence: u64,
    pub segments: Vec<HlsSegment>,
}

/// The segments as duration text and URI.
pub open spec fn segments_view(v: Seq<HlsSegment>) -> Seq<(Seq<char>, Seq<char>)> {
    v.map_values(|s: HlsSegment| (s.duration@, s.uri@))
}

/// Optional text by its view.
pub open spec fn text_of(o: Option<String>) -> Option<Seq<char>> {
    match o {
        Some(s) => Some(s@),
        None => None,
    }
}

/// The reading a playlist value and a pending duration stand for.
pub open spec fn reading_of(p: HlsPlaylist, pending: Option<String>) -> HlsReading {
    (p.version, text_of(p.target_duration), p.media_sequence, segments_view(p.segments@), text_of(pending))
}

/// The end of the leading whitespace of `v`.
fn leading_ws_end(v: &Vec<char>) -> (a: usize)
    ensures
        a <= v@.len(),
        trim_start(v@) == v@.skip(a as int),
{
    let n = v.len();
    let mut a: usize = 0;
    assert(v@.skip(0) =~= v@);
    while a < n && char_is_ws(v[a])
        invariant
            n == v@.len(),
            a <= n,
            trim_start(v@) == trim_start(v@.skip(a as int)),
        decreases n - a,
    {
        proof {
            lemma_trim_start_skip(v@, a as int);
        }
        a = a + 1;
    }
    assert(trim_start(v@.skip(a as int)) == v@.skip(a as int)) by {
        if a < n {
            assert(!is_ws(v@.skip(a as int)[0]));
        }
    }
    a
}

/// The end of `v[from..]` without its trailing commas.
fn commas_end(v: &Vec<char>, from: usize) -> (e: usize)
    requires
        from <= v@.len(),
    ensures
        from <= e <= v@.len(),
        strip_commas(v@.skip(from as int)) == v@.subrange(from as int, e as int),
{
    let mut e = v.len();
    assert(v@.skip(from as int) =~= v@.subrange(from as int, e as int));
    while e > from && v[e - 1] == ','
        invariant
            from <= e <= v@.len(),
            strip_commas(v@.skip(from as int)) == strip_commas(v@.subrange(from as int, e as int)),
        decreases e,
    {
        assert(v@.subrange(from as int, e as int).drop_last() =~= v@.subrange(from as int, e - 1));
        e = e - 1;
    }
    e
}

/// Reads one trimmed line into the playlist; see [`hls_step`].
fn read_line(playlist: &mut HlsPlaylist, pending: &mut Option<String>, line: &Vec<char>) -> (r: Result<(), String>)
    ensures
        match hls_step(reading_of(*old(playlist), *old(pending)), line@) {
            Ok(st) => r is Ok && reading_of(*final(playlist), *final(pending)) == st,
            Err(e) => r matches Err(m) && m@ == e,
        },
{
    let version_tag = chars_of("#EXT-X-VERSION:");
    let target_tag = chars_of("#EXT-X-TARGETDURATION:");
    let sequence_tag = chars_of("#EXT-X-MEDIA-SEQUENCE:");
    let extinf_tag = chars_of("#EXTINF:");
    let n = line.len();
    if starts_with_exec(line, &version_tag) {
        match parse_u64_exec(line, version_tag.len(), n) {
            Some(v) if v <= 0xffff_ffffu64 => {
                assert(line@.skip(version_tag@.len() as int) =~= line@.subrange(version_tag@.len() as int, n as int));
                playlist.version = v as u32;
                Ok(())
            },
            _ => {
                assert(line@.skip(version_tag@.len() as int) =~= line@.subrange(version_tag@.len() as int, n as int));
                Err(owned("invalid EXT-X-VERSION"))
            },
        }
    } else if starts_with_exec(line, &target_tag) {
        assert(line@.skip(target_tag@.len() as int) =~= line@.subrange(target_tag@.len() as int, n as int));
        if float_text_ok(line, target_tag.len(), n) {
            playlist.target_duration = Some(string_from_range(line, target_tag.len(), n));
            Ok(())
        } else {
            Err(owned("invalid EXT-X-TARGETDURATION"))
        }
    } else if starts_with_exec(line, &sequence_tag) {
        assert(line@.skip(sequence_tag@.len() as int) =~= line@.subrange(sequence_tag@.len() as int, n as int));
        match parse_u64_exec(line, sequence_tag.len(), n) {
            Some(q) => {
                playlist.media_sequence = q;
                Ok(())
            },
            None => Err(owned("invalid EXT-X-MEDIA-SEQUENCE")),
        }
    } else if starts_with_exec(line, &extinf_tag) {
        let e = commas_end(line, extinf_tag.len());
        if float_text_ok(line, extinf_tag.len(), e) {
            *pending = Some(string_from_range(line, extinf_tag.len(), e));
            Ok(())
        } else {
            Err(owned("invalid EXTINF duration"))
        }
    } else if n == 0 || line[0] == '#' {
        Ok(())
    } else {
        match pending.take() {
            Some(d) => {
                let uri = string_from_range(line, 0, n);
                assert(uri@ =~= line@);
                let ghost before = playlist.segments@;
                playlist.segments.push(HlsSegment { duration: d, uri });
                assert(segments_view(playlist.segments@) =~= segments_view(before).push((d@, line@)));
                Ok(())
            },
            None => Ok(()),
        }
    }
}

impl HlsPlaylist {
    /// Reads a media playlist; see [`hls_parse`].
    pub fn parse(contents: &str) -> (r: Result<HlsPlaylist, String>)
        ensures
            match hls_parse(contents@) {
                Ok(st) => r matches Ok(p) && reading_of(p, None) == (st.0, st.1, st.2, st.3, None::<Seq<char>>),
                Err(e) => r matches Err(m) && m@ == e,
            },
    {
        let all = chars_of(contents);
        let a = leading_ws_end(&all);
        let header = chars_of("#EXTM3U");
        let rest = string_from_range(&all, a, all.len());
        let rest_chars = chars_of(rest.as_str());
        assert(rest_chars@ =~= trim_start(contents@));
        if !starts_with_exec(&rest_chars, &header) {
            return Err(owned("missing #EXTM3U header"));
        }
        let pieces_of = split_pieces(contents, '\n');
        let ghost lines = playlist_lines(contents@);
        let mut playlist = HlsPlaylist { version: 3, target_duration: None, media_sequence: 0, segments: Vec::new() };
        let mut pending: Option<String> = None;
        let mut k: usize = 0;
        assert(lines.take(0) =~= Seq::<Seq<char>>::empty());
        assert(segments_view(playlist.segments@) =~= Seq::<(Seq<char>, Seq<char>)>::empty());
        while k < pieces_of.len()
            invariant
                starts_with(trim_start(contents@), "#EXTM3U"@),
                views(pieces_of@) == pieces(contents@, '\n'),
                lines == playlist_lines(contents@),
                lines.len() == pieces_of@.len(),
                k <= pieces_of@.len(),
                hls_read(lines.take(k as int)) == Ok::<HlsReading, Seq<char>>(reading_of(playlist, pending)),
            decreases pieces_of@.len() - k,
        {
            let line = chars_of(trim_str(pieces_of[k].as_str()).as_str());
            assert(line@ == lines[k as int]);
            assert(lines.take(k as int + 1).drop_last() =~= lines.take(k as int));
            assert(lines.take(k as int + 1).last() == lines[k as int]);
            let ghost before = reading_of(playlist, pending);
            match read_line(&mut playlist, &mut pending, &line) {
                Ok(()) => {},
                Err(m) => {
                    proof {
                        assert(hls_read(lines.take(k as int + 1)) == hls_step(before, line@));
                        lemma_read_error_sticks(lines, k as int + 1);
                        assert(starts_with(trim_start(contents@), "#EXTM3U"@));
                    }
                    return Err(m);
                },
            }
            k = k + 1;
        }
        assert(lines.take(k as int) =~= lines);
        if playlist.segments.len() == 0 {
            return Err(owned("playlist missing segments"));
        }
        Ok(playlist)
    }
}


/// The expression that finds the segments of a DASH manifest: the `media`
/// of each `SegmentURL`, and its `duration` when given right after.
pub open spec fn dash_segment_pattern() -> Seq<char> {
    "SegmentURL\\s+media=\"([^\\\"]+)\"(?:\\s+duration=\"([^\\\"]+)\")?"@
}

/// A group of a match, when it took part.
pub open spec fn group_of(m: Seq<Option<Seq<char>>>, i: int) -> Option<Seq<char>> {
    if 0 <= i < m.len() {
        m[i]
    } else {
        None
    }
}

/// A duration as given, when `f64` reads it; the default of four seconds
/// (`None`) otherwise.
pub open spec fn dash_duration(g: Option<Seq<char>>) -> Option<Seq<char>> {
    match g {
        Some(t) => if is_float_text(t) {
            Some(t)
        } else {
            None
        },
        None => None,
    }
}

/// The segments of the matches in order (duration text, URI); a match
/// without a `media` value is refused.
pub open spec fn dash_read(matches: Seq<Seq<Option<Seq<char>>>>) -> Result<Seq<(Option<Seq<char>>, Seq<char>)>, Seq<char>>
    decreases matches.len(),
{
    if matches.len() == 0 {
        Ok(Seq::empty())
    } else {
        match dash_read(matches.drop_last()) {
            Err(e) => Err(e),
            Ok(segs) => match group_of(matches.last(), 1) {
                None => Err("missing media attribute"@),
                Some(uri) => Ok(segs.push((dash_duration(group_of(matches.last(), 2)), uri))),
            },
        }
    }
}

/// One segment of a DASH manifest: its duration as written (when `f64`
/// reads it; otherwise four seconds) and its URI.
#[derive(Clone, Debug)]
pub struct DashSegment {
    pub duration: Option<String>,
    pub uri: String,
}

/// The segments by their views.
pub open spec fn dash_view(v: Seq<DashSegment>) -> Seq<(Option<Seq<char>>, Seq<char>)> {
    v.map_values(|d: DashSegment| (text_of(d.duration), d.uri@))
}

proof fn lemma_dash_error_sticks(matches: Seq<Seq<Option<Seq<char>>>>, k: int)
    requires
        0 <= k <= matches.len(),
        dash_read(matches.take(k)) is Err,
    ensures
        dash_read(matches) == dash_read(matches.take(k)),
    decreases matches.len() - k,
{
    if k == matches.len() {
        assert(matches.take(k) =~= matches);
    } else {
        assert(matches.drop_last().take(k) =~= matches.take(k));
        lemma_dash_error_sticks(matches.drop_last(), k);
    }
}

/// The segments of a DASH manifest, read with [`dash_segment_pattern`]
/// (see [`dash_read`]); refused when there are none. When the expression
/// does not compile, the error's text is given.
pub fn parse_dash_manifest(contents: &str) -> (r: Result<Vec<DashSegment>, String>)
    ensures
        !regex_accepts(dash_segment_pattern()) ==> r is Err,
        regex_accepts(dash_segment_pattern()) ==> match dash_read(
            regex_all_groups(dash_segment_pattern(), contents@, 2),
        ) {
            Err(e) => r matches Err(m) && m@ == e,
            Ok(segs) => if segs.len() == 0 {
                r matches Err(m) && m@ == "no SegmentURL entries found"@
            } else {
                r matches Ok(v) && dash_view(v@) == segs
            },
        },
{
    let found = regex_captures_all(
        "SegmentURL\\s+media=\"([^\\\"]+)\"(?:\\s+duration=\"([^\\\"]+)\")?",
        contents,
        2,
    );
    let matches = match found {
        Err(m) => return Err(m),
        Ok(ms) => ms,
    };
    let ghost all = matches@.map_values(|m: Vec<Option<String>>| groups_view(m));
    let mut segments: Vec<DashSegment> = Vec::new();
    let mut k: usize = 0;
    assert(all.take(0) =~= Seq::<Seq<Option<Seq<char>>>>::empty());
    assert(dash_view(segments@) =~= Seq::<(Option<Seq<char>>, Seq<char>)>::empty());
    while k < matches.len()
        invariant
            all == matches@.map_values(|m: Vec<Option<String>>| groups_view(m)),
            all == regex_all_groups(dash_segment_pattern(), contents@, 2),
            regex_accepts(dash_segment_pattern()),
            k <= matches@.len(),
            dash_read(all.take(k as int)) == Ok::<Seq<(Option<Seq<char>>, Seq<char>)>, Seq<char>>(dash_view(segments@)),
        decreases matches@.len() - k,
    {
        let m = &matches[k];
        let ghost g = groups_view(*m);
        assert(all[k as int] == g);
        assert(all.take(k as int + 1).drop_last() =~= all.take(k as int));
        assert(all.take(k as int + 1).last() == g);
        let media: Option<String> = if m.len() > 1 {
            match &m[1] {
                Some(t) => Some(t.clone()),
                None => None,
            }
        } else {
            None
        };
        assert(text_of(media) == group_of(g, 1));
        match media {
            None => {
                proof {
                    assert(dash_read(all.take(k as int + 1)) == Err::<Seq<(Option<Seq<char>>, Seq<char>)>, Seq<char>>(
                        "missing media attribute"@,
                    ));
                    lemma_dash_error_sticks(all, k as int + 1);
                }
                return Err(owned("missing media attribute"));
            },
            Some(uri) => {
                let duration: Option<String> = if m.len() > 2 {
                    match &m[2] {
                        Some(t) => {
                            let tv = chars_of(t.as_str());
                            if float_text_ok(&tv, 0, tv.len()) {
                                assert(tv@.subrange(0, tv@.len() as int) =~= t@);
                                Some(t.clone())
                            } else {
                                assert(tv@.subrange(0, tv@.len() as int) =~= t@);
                                None
                            }
                        },
                        None => None,
                    }
                } else {
                    None
                };
                assert(text_of(duration) == dash_duration(group_of(g, 2)));
                let ghost before = segments@;
                segments.push(DashSegment { duration, uri });
                assert(dash_view(segments@) =~= dash_view(before).push((dash_duration(group_of(g, 2)), uri@)));
            },
        }
        k = k + 1;
    }
    assert(all.take(k as int) =~= all);
    if segments.len() == 0 {
        return Err(owned("no SegmentURL entries found"));
    }
    Ok(segments)
}

} // verus!
