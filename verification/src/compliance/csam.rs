//! Matching media against a database of known CSAM hashes: parsing the
//! database, hashing files and reporting matches.
use vstd::prelude::*;

use super::ComplianceError;
use crate::digest::{hex_encode, hex_lower, sha256, sha256_digest};
use crate::text::{
    ascii_lower, ascii_lowercase, chars_of, owned, pieces, split_pieces, str_eq, string_from_range,
    trim, trim_str, views,
};

verus! {

/// Entry in a CSAM hash database.
#[derive(Clone, Debug)]
pub struct CsamHashEntry {
    /// Hex-encoded SHA-256 hash.
    pub sha256: String,
    /// Classification label provided by the authority (may be empty).
    pub label: String,
}

/// Finding produced when an asset hash matches the database.
#[derive(Clone, Debug)]
pub struct CsamScanFinding {
    pub path: String,
    pub hash: String,
    pub label: String,
}

/// Report returned by the CSAM scanner.
#[derive(Clone, Debug)]
pub struct CsamScanReport {
    /// Number of files inspected.
    pub files_scanned: usize,
    /// Matches detected during the scan.
    pub matches: Vec<CsamScanFinding>,
}

/// The (hash, label) pairs of database entries.
pub open spec fn entry_pairs(v: Seq<CsamHashEntry>) -> Seq<(Seq<char>, Seq<char>)> {
    v.map_values(|e: CsamHashEntry| (e.sha256@, e.label@))
}

/// The (path, hash, label) triples of findings.
pub open spec fn finding_triples(v: Seq<CsamScanFinding>) -> Seq<(Seq<char>, Seq<char>, Seq<char>)> {
    v.map_values(|f: CsamScanFinding| (f.path@, f.hash@, f.label@))
}

impl CsamScanReport {
    pub fn new() -> (r: Self)
        ensures
            r.files_scanned == 0,
            r.matches@.len() == 0,
    {
        CsamScanReport { files_scanned: 0, matches: Vec::new() }
    }

    /// Returns true when the scan yielded no matches.
    pub fn is_clean(&self) -> (r: bool)
        ensures
            r == (self.matches@.len() == 0),
    {
        self.matches.len() == 0
    }

    /// Counts one more scanned file and keeps its finding, if any.
    pub fn record(&mut self, finding: Option<CsamScanFinding>)
        requires
            old(self).files_scanned < usize::MAX,
        ensures
            final(self).files_scanned == old(self).files_scanned + 1,
            final(self).matches@ == match finding {
                Some(f) => old(self).matches@.push(f),
                None => old(self).matches@,
            },
    {
        self.files_scanned = self.files_scanned + 1;
        match finding {
            Some(f) => self.matches.push(f),
            None => {},
        }
    }
}

/// The pieces of a text between line feeds, the last one included (empty
/// when the text ends with a line feed). These are the lines of `str::lines`,
/// but for the carriage return that `lines` strips before a line feed and
/// the final empty line it does not yield; neither matters once a line is
/// trimmed and blank lines are skipped.
pub open spec fn line_pieces(s: Seq<char>) -> Seq<Seq<char>> {
    pieces(s, '\n')
}

/// The position of the first comma, or the length when there is none.
pub open spec fn comma_index(t: Seq<char>) -> int
    decreases t.len(),
{
    if t.len() == 0 {
        0
    } else if t[0] == ',' {
        0
    } else {
        1 + comma_index(t.drop_first())
    }
}

proof fn lemma_comma_index(t: Seq<char>)
    ensures
        0 <= comma_index(t) <= t.len(),
        comma_index(t) < t.len() ==> t[comma_index(t)] == ',',
        forall|k: int| 0 <= k < comma_index(t) ==> t[k] != ',',
    decreases t.len(),
{
    if t.len() > 0 && t[0] != ',' {
        lemma_comma_index(t.drop_first());
        assert forall|k: int| 0 <= k < comma_index(t) implies t[k] != ',' by {
            if k > 0 {
                assert(t[k] == t.drop_first()[k - 1]);
            }
        }
    }
}

/// `char::is_ascii_hexdigit`.
pub open spec fn is_hex_digit(c: char) -> bool {
    ('0' <= c && c <= '9') || ('a' <= c && c <= 'f') || ('A' <= c && c <= 'F')
}

/// How one trimmed line of a CSV hash database reads.
pub enum CsvLine {
    /// A blank line or a `#` comment.
    Skip,
    /// A hash (lower-cased) and its label.
    Entry(Seq<char>, Seq<char>),
    /// A first field that is not 64 hexadecimal digits.
    Invalid,
}

/// A trimmed line `hash[,label[,...]]`: the hash must be 64 hexadecimal
/// digits (64 bytes, as they are ASCII); the label is the second field,
/// trimmed, or empty.
pub open spec fn csv_line(t: Seq<char>) -> CsvLine {
    if t.len() == 0 || t[0] == '#' {
        CsvLine::Skip
    } else {
        let ci = comma_index(t);
        let hash = trim(t.take(ci));
        let rest = t.skip(ci + 1);
        let label = if ci < t.len() {
            trim(rest.take(comma_index(rest)))
        } else {
            Seq::empty()
        };
        if hash.len() == 64 && (forall|k: int| 0 <= k < hash.len() ==> is_hex_digit(#[trigger] hash[k])) {
            CsvLine::Entry(ascii_lower(hash), label)
        } else {
            CsvLine::Invalid
        }
    }
}

/// The entries of a CSV database given as lines, or the number (from 1) of
/// the first line whose hash is invalid.
pub open spec fn parse_csv(lines: Seq<Seq<char>>) -> Result<Seq<(Seq<char>, Seq<char>)>, nat>
    decreases lines.len(),
{
    if lines.len() == 0 {
        Ok(Seq::empty())
    } else {
        match parse_csv(lines.drop_last()) {
            Err(n) => Err(n),
            Ok(acc) => match csv_line(trim(lines.last())) {
                CsvLine::Skip => Ok(acc),
                CsvLine::Entry(h, l) => Ok(acc.push((h, l))),
                CsvLine::Invalid => Err(lines.len()),
            },
        }
    }
}

/// The first comma at or after `from`, or the length.
fn comma_from(v: &Vec<char>, from: usize) -> (r: usize)
    requires
        from <= v@.len(),
    ensures
        r == from + comma_index(v@.skip(from as int)),
        from <= r <= v@.len(),
{
    proof {
        lemma_comma_index(v@.skip(from as int));
    }
    let mut i = from;
    while i < v.len() && v[i] != ','
        invariant
            from <= i <= v@.len(),
            0 <= comma_index(v@.skip(from as int)) <= v@.len() - from,
            comma_index(v@.skip(from as int)) < v@.len() - from ==> v@.skip(from as int)[comma_index(v@.skip(from as int))] == ',',
            forall|k: int| 0 <= k < comma_index(v@.skip(from as int)) ==> v@.skip(from as int)[k] != ',',
            forall|k: int| from <= k < i ==> v@[k] != ',',
        decreases v@.len() - i,
    {
        i = i + 1;
    }
    proof {
        let ci = comma_index(v@.skip(from as int));
        if i - from < ci {
            assert(v@.skip(from as int)[i - from] != ',');
        }
        if ci < i - from {
            assert(v@[from + ci] == ',');
        }
    }
    i
}

fn all_hex(v: &Vec<char>) -> (r: bool)
    ensures
        r == (forall|k: int| 0 <= k < v@.len() ==> is_hex_digit(#[trigger] v@[k])),
{
    let mut i: usize = 0;
    while i < v.len()
        invariant
            i <= v@.len(),
            forall|k: int| 0 <= k < i ==> is_hex_digit(#[trigger] v@[k]),
        decreases v@.len() - i,
    {
        let c = v[i];
        if !(('0' <= c && c <= '9') || ('a' <= c && c <= 'f') || ('A' <= c && c <= 'F')) {
            assert(!is_hex_digit(v@[i as int]));
            return false;
        }
        i = i + 1;
    }
    true
}

/// One trimmed line of the CSV database: `Ok(None)` to skip it,
/// `Ok(Some(entry))`, or `Err(())` for an invalid hash.
fn parse_csv_line(t: &str) -> (r: Result<Option<CsamHashEntry>, ()>)
    ensures
        match csv_line(t@) {
            CsvLine::Skip => r == Ok::<Option<CsamHashEntry>, ()>(None),
            CsvLine::Entry(h, l) => r matches Ok(Some(e)) && e.sha256@ == h && e.label@ == l,
            CsvLine::Invalid => r is Err,
        },
{
    let cs = chars_of(t);
    if cs.len() == 0 || cs[0] == '#' {
        return Ok(None);
    }
    let ci = comma_from(&cs, 0);
    assert(cs@.skip(0) =~= cs@);
    let first = string_from_range(&cs, 0, ci);
    assert(first@ == cs@.take(ci as int));
    let hash = trim_str(first.as_str());
    let label = if ci < cs.len() {
        let end = comma_from(&cs, ci + 1);
        let second = string_from_range(&cs, ci + 1, end);
        assert(second@ =~= cs@.skip(ci + 1).take(comma_index(cs@.skip(ci + 1))));
        trim_str(second.as_str())
    } else {
        String::new()
    };
    let hv = chars_of(hash.as_str());
    if hv.len() != 64 || !all_hex(&hv) {
        return Err(());
    }
    let sha = ascii_lowercase(hash.as_str());
    Ok(Some(CsamHashEntry { sha256: sha, label }))
}

/// The first entry whose hash is `h`.
pub open spec fn first_entry_with(db: Seq<(Seq<char>, Seq<char>)>, h: Seq<char>) -> Option<int>
    decreases db.len(),
{
    if db.len() == 0 {
        None
    } else if db[0].0 == h {
        Some(0)
    } else {
        match first_entry_with(db.drop_first(), h) {
            Some(k) => Some(k + 1),
            None => None,
        }
    }
}

/// The hex SHA-256 of a file's contents.
pub open spec fn content_hash(contents: Seq<u8>) -> Seq<char> {
    hex_lower(sha256_digest(contents))
}

/// Computes hashes of media assets and compares against the CSAM database.
#[derive(Clone, Debug)]
pub struct CsamScanner {
    database: Vec<CsamHashEntry>,
}

impl CsamScanner {
    pub closed spec fn spec_database(self) -> Seq<(Seq<char>, Seq<char>)> {
        entry_pairs(self.database@)
    }

    /// A scanner over the given entries.
    pub fn from_entries(database: Vec<CsamHashEntry>) -> (r: Self)
        ensures
            r.spec_database() == entry_pairs(database@),
    {
        CsamScanner { database }
    }

    /// Whether a database file is read as JSON: its extension is `json` in
    /// any ASCII case, or its text starts, after whitespace, with `[` (the
    /// first character of the trimmed text, as `[` is no whitespace).
    pub fn is_json_database(extension: Option<&str>, content: &str) -> (r: bool)
        ensures
            r == ((extension matches Some(e) && ascii_lower(e@) == "json"@) || (trim(content@).len()
                > 0 && trim(content@)[0] == '[')),
    {
        let by_extension = match extension {
            Some(e) => crate::text::eq_ignore_ascii_case(e, "json"),
            None => false,
        };
        proof {
            reveal_strlit("json");
            if extension is Some {
                assert(ascii_lower("json"@) =~= "json"@);
            }
        }
        if by_extension {
            return true;
        }
        let cs = chars_of(content);
        let (a, b) = crate::text::trim_bounds(&cs);
        a < b && cs[a] == '['
    }

    /// Parses a CSV hash database: one `hash[,label]` per line, blank lines
    /// and `#` comments skipped. A first field that is not 64 hexadecimal
    /// digits is an error naming its line (from 1) and the database path.
    pub fn parse_csv_lines(content: &str, path: &str) -> (r: Result<Vec<CsamHashEntry>, ComplianceError>)
        ensures
            match parse_csv(line_pieces(content@)) {
                Ok(entries) => r matches Ok(v) && entry_pairs(v@) == entries,
                Err(n) => r matches Err(ComplianceError::InvalidHash { line, path: p }) && line == n
                    && p@ == path@,
            },
    {
        let lines = split_pieces(content, '\n');
        let ghost lv = views(lines@);
        let mut entries: Vec<CsamHashEntry> = Vec::new();
        let mut i: usize = 0;
        assert(lv.take(0) =~= Seq::<Seq<char>>::empty());
        assert(entry_pairs(entries@) =~= Seq::<(Seq<char>, Seq<char>)>::empty());
        while i < lines.len()
            invariant
                i <= lines@.len(),
                lv == views(lines@),
                lv == line_pieces(content@),
                parse_csv(lv.take(i as int)) == Ok::<Seq<(Seq<char>, Seq<char>)>, nat>(entry_pairs(entries@)),
            decreases lines@.len() - i,
        {
            assert(lv.take(i + 1).drop_last() =~= lv.take(i as int));
            assert(lv.take(i + 1).last() == lines@[i as int]@);
            let trimmed = trim_str(lines[i].as_str());
            match parse_csv_line(trimmed.as_str()) {
                Ok(Some(e)) => {
                    let ghost before = entry_pairs(entries@);
                    entries.push(e);
                    assert(entry_pairs(entries@) =~= before.push((e.sha256@, e.label@)));
                },
                Ok(None) => {},
                Err(_) => {
                    proof {
                        assert(csv_line(trim(lv[i as int])) is Invalid);
                        assert(parse_csv(lv.take(i + 1)) == Err::<Seq<(Seq<char>, Seq<char>)>, nat>((i + 1) as nat));
                        lemma_parse_csv_err_stays(lv, i as int + 1);
                        assert(parse_csv(line_pieces(content@)) == Err::<Seq<(Seq<char>, Seq<char>)>, nat>((i + 1) as nat));
                    }
                    return Err(ComplianceError::InvalidHash { line: i + 1, path: owned(path) });
                },
            }
            i = i + 1;
        }
        assert(lv.take(lines@.len() as int) =~= lv);
        Ok(entries)
    }

    /// The finding for a file with the given contents: its hex SHA-256 and
    /// the label of the first database entry with that hash, if any.
    pub fn check_contents(&self, path: &str, contents: &[u8]) -> (r: Option<CsamScanFinding>)
        ensures
            match first_entry_with(self.spec_database(), content_hash(contents@)) {
                Some(k) => r matches Some(f) && f.path@ == path@ && f.hash@ == content_hash(contents@)
                    && f.label@ == self.spec_database()[k].1,
                None => r is None,
            },
    {
        let digest = sha256(contents);
        let hash = hex_encode(digest.as_slice());
        let ghost db = self.spec_database();
        let mut i: usize = 0;
        assert(db.skip(0) =~= db);
        while i < self.database.len()
            invariant
                i <= self.database@.len(),
                db == entry_pairs(self.database@),
                hash@ == content_hash(contents@),
                first_entry_with(db, hash@) == match first_entry_with(db.skip(i as int), hash@) {
                    Some(k) => Some(k + i),
                    None => None::<int>,
                },
            decreases self.database@.len() - i,
        {
            assert(db.skip(i as int)[0] == db[i as int]);
            if str_eq(self.database[i].sha256.as_str(), hash.as_str()) {
                let label = self.database[i].label.clone();
                return Some(CsamScanFinding { path: owned(path), hash, label });
            }
            assert(db.skip(i as int).drop_first() =~= db.skip(i + 1));
            i = i + 1;
        }
        None
    }

    /// Returns true when the database contains at least one hash entry.
    pub fn is_ready(&self) -> (r: bool)
        ensures
            r == (self.spec_database().len() > 0),
    {
        self.database.len() > 0
    }

    /// The raw database, for reporting.
    pub fn database(&self) -> (r: &[CsamHashEntry])
        ensures
            entry_pairs(r@) == self.spec_database(),
    {
        self.database.as_slice()
    }
}

proof fn lemma_parse_csv_err_stays_at(lines: Seq<Seq<char>>, k: int, j: int)
    requires
        0 < k <= j <= lines.len(),
        parse_csv(lines.take(j)) == Err::<Seq<(Seq<char>, Seq<char>)>, nat>(k as nat),
    ensures
        parse_csv(lines) == Err::<Seq<(Seq<char>, Seq<char>)>, nat>(k as nat),
    decreases lines.len() - j,
{
    if j < lines.len() {
        assert(lines.take(j + 1).drop_last() =~= lines.take(j));
        assert(parse_csv(lines.take(j + 1)) == Err::<Seq<(Seq<char>, Seq<char>)>, nat>(k as nat));
        lemma_parse_csv_err_stays_at(lines, k, j + 1);
    } else {
        assert(lines.take(j) =~= lines);
    }
}

proof fn lemma_parse_csv_err_stays(lines: Seq<Seq<char>>, k: int)
    requires
        0 < k <= lines.len(),
        parse_csv(lines.take(k)) == Err::<Seq<(Seq<char>, Seq<char>)>, nat>(k as nat),
    ensures
        parse_csv(lines) == Err::<Seq<(Seq<char>, Seq<char>)>, nat>(k as nat),
    decreases lines.len() - k,
{
    if k < lines.len() {
        assert(lines.take(k + 1).drop_last() =~= lines.take(k));
        assert(parse_csv(lines.take(k + 1)) == Err::<Seq<(Seq<char>, Seq<char>)>, nat>(k as nat));
        lemma_parse_csv_err_stays_at(lines, k, k + 1);
    } else {
        assert(lines.take(k) =~= lines);
    }
}

} // verus!
