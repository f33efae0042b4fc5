//! Replication of the local media tree to a remote with `rclone`: the
//! remote paths, the command lines and what their output reports.
use vstd::prelude::*;

use crate::pattern::{from_utf8_lossy, regex_accepts, regex_capture, regex_group, utf8_lossy};
use crate::text::{
    chars_of, decimal, file_name, file_name_of, join, join_strings, owned, parse_u64, push_char,
    str_parse_u64, string_from_range, u64_to_decimal, views,
};

verus! {

/// What one `rclone sync` of a path did.
#[derive(Clone, Debug)]
pub struct ReplicationSyncReport {
    pub path: String,
    pub duration_ms: u128,
    pub bytes_transferred: u64,
    pub command: String,
}

/// `str::trim_end_matches('/')`.
pub open spec fn trim_end_slashes(s: Seq<char>) -> Seq<char>
    decreases s.len(),
{
    if s.len() > 0 && s.last() == '/' {
        trim_end_slashes(s.drop_last())
    } else {
        s
    }
}

/// The remote location of a local path: the remote without trailing
/// slashes, a `/`, and the path's file name (empty when it has none).
pub open spec fn remote_path(remote: Seq<char>, path: Seq<char>) -> Seq<char> {
    trim_end_slashes(remote) + seq!['/'] + match file_name(path) {
        Some(n) => n,
        None => Seq::empty(),
    }
}

/// The remote location of a local path.
pub fn build_remote_path(remote: &str, path: &str) -> (r: String)
    ensures
        r@ == remote_path(remote@, path@),
{
    let cs = chars_of(remote);
    let mut end = cs.len();
    assert(cs@.take(cs@.len() as int) =~= cs@);
    while end > 0 && cs[end - 1] == '/'
        invariant
            end <= cs@.len(),
            cs@ == remote@,
            trim_end_slashes(remote@) == trim_end_slashes(cs@.take(end as int)),
        decreases end,
    {
        assert(cs@.take(end as int).drop_last() =~= cs@.take(end - 1));
        end = end - 1;
    }
    let mut out = string_from_range(&cs, 0, end);
    assert(out@ == cs@.take(end as int));
    push_char(&mut out, '/');
    match file_name_of(path) {
        Some(name) => {
            out.append(name.as_str());
        },
        None => {},
    }
    assert(out@ =~= remote_path(remote@, path@));
    out
}

/// A command as shown in reports: the program and its arguments joined by
/// spaces.
pub fn command_text(program: &str, args: &Vec<String>) -> (r: String)
    ensures
        r@ == join(seq![program@] + views(args@), seq![' ']),
{
    let mut parts: Vec<String> = Vec::new();
    parts.push(owned(program));
    let mut i: usize = 0;
    while i < args.len()
        invariant
            i <= args@.len(),
            views(parts@) == seq![program@] + views(args@).take(i as int),
        decreases args@.len() - i,
    {
        let ghost before = views(parts@);
        let a = args[i].clone();
        parts.push(a);
        assert(views(parts@) =~= before.push(a@));
        assert(views(args@).take(i + 1) =~= views(args@).take(i as int).push(args@[i as int]@));
        assert(views(parts@) =~= seq![program@] + views(args@).take(i + 1));
        i = i + 1;
    }
    assert(views(args@).take(args@.len() as int) =~= views(args@));
    proof {
        reveal_strlit(" ");
        assert(" "@ =~= seq![' ']);
        assert(parts@.map_values(|x: String| x@) =~= views(parts@));
    }
    join_strings(&parts, " ")
}

/// The arguments of `rclone sync`: the path, its remote location, four
/// parallel transfers and, when set, the bandwidth limit in MB/s.
pub open spec fn sync_args(path: Seq<char>, remote: Seq<char>, limit: Option<u64>) -> Seq<Seq<char>> {
    let base = seq![
        "sync"@,
        path,
        remote_path(remote, path),
        "--fast-list"@,
        "--transfers"@,
        "4"@,
    ];
    match limit {
        Some(l) => base + seq!["--bwlimit"@, decimal(l as nat) + seq!['M']],
        None => base,
    }
}

/// The arguments of `rclone check`: one-way, by size only.
pub open spec fn check_args(path: Seq<char>, remote: Seq<char>) -> Seq<Seq<char>> {
    seq!["check"@, path, remote_path(remote, path), "--size-only"@, "--one-way"@]
}

/// The arguments of the `rclone sync` of one path.
pub fn sync_arguments(path: &str, remote: &str, bandwidth_limit_mbps: Option<u64>) -> (r: Vec<String>)
    ensures
        views(r@) == sync_args(path@, remote@, bandwidth_limit_mbps),
{
    let mut args: Vec<String> = Vec::new();
    args.push(owned("sync"));
    args.push(owned(path));
    args.push(build_remote_path(remote, path));
    args.push(owned("--fast-list"));
    args.push(owned("--transfers"));
    args.push(owned("4"));
    let ghost base = views(args@);
    assert(base =~= seq![
        "sync"@,
        path@,
        remote_path(remote@, path@),
        "--fast-list"@,
        "--transfers"@,
        "4"@,
    ]);
    match bandwidth_limit_mbps {
        Some(limit) => {
            args.push(owned("--bwlimit"));
            let mut l = u64_to_decimal(limit);
            push_char(&mut l, 'M');
            let ghost lv = l@;
            args.push(l);
            assert(lv == decimal(limit as nat) + seq!['M']);
            assert(views(args@) =~= base + seq!["--bwlimit"@, lv]);
        },
        None => {},
    }
    assert(views(args@) =~= sync_args(path@, remote@, bandwidth_limit_mbps));
    args
}

/// The arguments of the `rclone check` of one path.
pub fn check_arguments(path: &str, remote: &str) -> (r: Vec<String>)
    ensures
        views(r@) == check_args(path@, remote@),
{
    let mut args: Vec<String> = Vec::new();
    args.push(owned("check"));
    args.push(owned(path));
    args.push(build_remote_path(remote, path));
    args.push(owned("--size-only"));
    args.push(owned("--one-way"));
    assert(views(args@) =~= check_args(path@, remote@));
    args
}

/// The number that the first capture group of `pattern` finds in the
/// output, read as a `u64`; 0 when there is no match, when the group is not
/// a number, or were the pattern refused.
pub open spec fn captured_count(pattern: Seq<char>, output: Seq<u8>) -> u64 {
    if !regex_accepts(pattern) {
        0
    } else {
        match regex_group(pattern, utf8_lossy(output), 1) {
            Some(t) => match parse_u64(t) {
                Some(v) => v,
                None => 0,
            },
            None => 0,
        }
    }
}

/// The number captured by group 1 of `pattern` in command output, as
/// `captured_count` says.
pub fn capture_count(pattern: &str, output: &[u8]) -> (r: u64)
    ensures
        r == captured_count(pattern@, output@),
{
    let text = from_utf8_lossy(output);
    match regex_capture(pattern, text.as_str(), 1) {
        Some(t) => match str_parse_u64(t.as_str()) {
            Some(v) => v,
            None => 0,
        },
        None => 0,
    }
}

/// The pattern of rclone's transfer summary.
pub open spec fn transferred_pattern() -> Seq<char> {
    "Transferred:\\s+([0-9]+)"@
}

/// The pattern of rclone's check summary, in any case.
pub open spec fn differences_pattern() -> Seq<char> {
    "(?i)([0-9]+) differences?"@
}

/// The bytes that an `rclone sync` reports as transferred.
pub fn extract_transferred_bytes(stdout: &[u8]) -> (r: u64)
    ensures
        r == captured_count(transferred_pattern(), stdout@),
{
    capture_count("Transferred:\\s+([0-9]+)", stdout)
}

/// The number of differences that an `rclone check` reports.
pub fn parse_differences(stdout: &[u8]) -> (r: u64)
    ensures
        r == captured_count(differences_pattern(), stdout@),
{
    capture_count("(?i)([0-9]+) differences?", stdout)
}

} // verus!
