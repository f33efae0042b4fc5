//! Where downloaded segments come from and under which names they are kept.
use vstd::prelude::*;

use super::error::ProcessorError;
use crate::text::{
    chars_of, decimal, last_index_of, owned, path_join, path_join_str, push_char, str_eq,
    string_from_range, u64_to_decimal,
};
use crate::urls::{join_url, parse_scheme, url_joined, url_scheme};

verus! {

/// A number written with at least four digits, zeros in front.
pub open spec fn padded4(n: nat) -> Seq<char> {
    let d = decimal(n);
    if d.len() >= 4 {
        d
    } else {
        Seq::new((4 - d.len()) as nat, |i: int| '0') + d
    }
}

/// The extension kept for a segment: the dot and what follows the last dot
/// of its URI, or `.m4s` when there is none.
pub open spec fn segment_extension(uri: Seq<char>) -> Seq<char> {
    match last_index_of(uri, '.') {
        Some(d) => uri.skip(d),
        None => ".m4s"@,
    }
}

/// The local name of segment number `index` (from 0): the prefix, `_`, the
/// number from 1 in four digits, and the extension.
pub open spec fn segment_name(prefix: Seq<char>, index: nat, uri: Seq<char>) -> Seq<char> {
    prefix + seq!['_'] + padded4(index + 1) + segment_extension(uri)
}

/// The local name of a downloaded segment.
pub fn local_segment_name(prefix: &str, index: usize, uri: &str) -> (r: String)
    requires
        index < usize::MAX,
    ensures
        r@ == segment_name(prefix@, index as nat, uri@),
{
    let mut name = owned(prefix);
    push_char(&mut name, '_');
    let digits = u64_to_decimal((index as u64) + 1);
    let n = digits.unicode_len();
    let mut k: usize = n;
    let ghost before = name@;
    while k < 4
        invariant
            n == digits@.len(),
            n <= k <= 4 || (n > 4 && k == n),
            name@ == before + Seq::new((k - n) as nat, |i: int| '0'),
        decreases 4 - k,
    {
        push_char(&mut name, '0');
        assert(name@ =~= before + Seq::new((k + 1 - n) as nat, |i: int| '0'));
        k = k + 1;
    }
    name.append(digits.as_str());
    let cs = chars_of(uri);
    let mut j: usize = cs.len();
    assert(cs@.take(cs@.len() as int) =~= cs@);
    while j > 0 && cs[j - 1] != '.'
        invariant
            j <= cs@.len(),
            cs@ == uri@,
            last_index_of(cs@, '.') == last_index_of(cs@.take(j as int), '.'),
        decreases j,
    {
        assert(cs@.take(j as int).drop_last() =~= cs@.take(j - 1));
        j = j - 1;
    }
    if j == 0 {
        assert(cs@.take(0) =~= Seq::<char>::empty());
        name.append(".m4s");
    } else {
        let ext = string_from_range(&cs, j - 1, cs.len());
        name.append(ext.as_str());
    }
    assert(name@ =~= segment_name(prefix@, index as nat, uri@));
    name
}

/// Where a segment is fetched from: the segment URI itself when it is an
/// absolute `file`, `http` or `https` URL, else the URI joined to the
/// manifest's URL; a join that fails is a download error with its text.
pub open spec fn segment_source(base: Seq<char>, segment: Seq<char>) -> Result<Seq<char>, Seq<char>> {
    if url_scheme(segment) matches Some(s) && (s == "file"@ || s == "http"@ || s == "https"@) {
        Ok(segment)
    } else {
        url_joined(base, segment)
    }
}

/// The URL a segment is fetched from.
pub fn resolve_segment_url(base: &str, segment: &str) -> (r: Result<String, ProcessorError>)
    ensures
        match segment_source(base@, segment@) {
            Ok(u) => r matches Ok(x) && x@ == u,
            Err(e) => r matches Err(ProcessorError::Download(m)) && m@ == e,
        },
{
    match parse_scheme(segment) {
        Some(s) => {
            if str_eq(s.as_str(), "file") || str_eq(s.as_str(), "http") || str_eq(s.as_str(), "https") {
                return Ok(owned(segment));
            }
        },
        None => {},
    }
    match join_url(base, segment) {
        Ok(u) => Ok(u),
        Err(e) => Err(ProcessorError::Download(e)),
    }
}

/// The directory of a plan's ready media: `<storage>/ready/<plan>`.
pub fn ready_directory(storage_dir: &str, plan_id: &str) -> (r: String)
    ensures
        r@ == path_join(path_join(storage_dir@, "ready"@), plan_id@),
{
    let ready = path_join_str(storage_dir, "ready");
    path_join_str(ready.as_str(), plan_id)
}

} // verus!
