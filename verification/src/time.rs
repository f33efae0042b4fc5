//! Instants in UTC held as plain values (seconds since the Unix epoch and a
//! nanosecond part), their arithmetic, and their text forms.
use vstd::prelude::*;

use chrono::DateTime;
use std::fmt::Write;

verus! {

/// Whether `chrono::DateTime::<Utc>::from_timestamp(secs, nanos)` gives an
/// instant (it refuses dates beyond its calendar range and invalid nanoseconds).
pub uninterp spec fn spec_valid_instant(secs: i64, nanos: u32) -> bool;

/// Text of an instant under a `strftime`-style pattern, as chrono's
/// `DateTime::format` writes it; `None` when the formatting fails (chrono
/// reports an error for an unknown or malformed specifier).
pub uninterp spec fn spec_format_utc(secs: i64, nanos: u32, pattern: Seq<char>) -> Option<Seq<char>>;

/// A specifier chrono formats without fail for any instant: year, month,
/// day, hour, minute, second.
pub open spec fn is_plain_specifier(c: char) -> bool {
    c == 'Y' || c == 'm' || c == 'd' || c == 'H' || c == 'M' || c == 'S'
}

/// A pattern whose every `%` starts one of the plain specifiers; the rest is
/// literal text.
pub open spec fn plain_pattern(p: Seq<char>) -> bool {
    forall|i: int| 0 <= i < p.len() && #[trigger] p[i] == '%' ==> i + 1 < p.len() && is_plain_specifier(p[i + 1])
}

/// Text of an instant as chrono's `Display` for `DateTime<Utc>` writes it
/// (`YYYY-MM-DD HH:MM:SS[.fraction] UTC`).
pub uninterp spec fn spec_display_utc(secs: i64, nanos: u32) -> Seq<char>;

/// Calls `chrono::DateTime::from_timestamp` and reports whether it gave an
/// instant; the answer depends on the two numbers alone.
#[verifier::external_body]
fn chrono_accepts(secs: i64, nanos: u32) -> (r: bool)
    ensures
        r == spec_valid_instant(secs, nanos),
{
    DateTime::from_timestamp(secs, nanos).is_some()
}

/// Calls chrono's `DateTime::format` with the given pattern on the instant
/// `from_timestamp(secs, nanos)` and writes it into a string; `None` when
/// the writing reports an error. The outcome depends on the three arguments
/// alone. Literal text and the specifiers `%Y %m %d %H %M %S` become items
/// whose formatting returns no error for a date and time in UTC (chrono's
/// `format/strftime.rs` and `format/formatting.rs`), so such patterns give
/// text.
#[verifier::external_body]
fn chrono_format(secs: i64, nanos: u32, pattern: &str) -> (r: Option<String>)
    requires
        spec_valid_instant(secs, nanos),
    ensures
        r matches Some(s) ==> spec_format_utc(secs, nanos, pattern@) == Some(s@),
        r is None ==> spec_format_utc(secs, nanos, pattern@) is None,
        plain_pattern(pattern@) ==> r is Some,
{
    let mut text = String::new();
    match write!(text, "{}", DateTime::from_timestamp(secs, nanos).unwrap_or_default().format(pattern)) {
        Ok(()) => Some(text),
        Err(_) => None,
    }
}

/// Calls chrono's `Display` for `DateTime<Utc>` on the instant
/// `from_timestamp(secs, nanos)`; the text depends on the two numbers alone.
#[verifier::external_body]
fn chrono_display(secs: i64, nanos: u32) -> (r: String)
    requires
        spec_valid_instant(secs, nanos),
    ensures
        r@ == spec_display_utc(secs, nanos),
{
    DateTime::from_timestamp(secs, nanos).unwrap_or_default().to_string()
}

/// An instant in UTC.
#[derive(Clone, Copy, Debug)]
pub struct UtcTimestamp {
    secs: i64,
    nanos: u32,
}

impl UtcTimestamp {
    #[verifier::type_invariant]
    spec fn inv(self) -> bool {
        spec_valid_instant(self.secs, self.nanos)
    }

    pub closed spec fn spec_secs(self) -> i64 {
        self.secs
    }

    pub closed spec fn spec_nanos(self) -> u32 {
        self.nanos
    }

    /// Nanoseconds since the Unix epoch.
    pub open spec fn total_nanos(self) -> int {
        self.spec_secs() * 1_000_000_000 + self.spec_nanos()
    }

    /// The instant `secs` seconds and `nanos` nanoseconds after the epoch,
    /// when chrono can represent it.
    pub fn from_unix(secs: i64, nanos: u32) -> (r: Option<UtcTimestamp>)
        ensures
            r is Some <==> spec_valid_instant(secs, nanos),
            r matches Some(t) ==> t.spec_secs() == secs && t.spec_nanos() == nanos,
    {
        if chrono_accepts(secs, nanos) {
            Some(UtcTimestamp { secs, nanos })
        } else {
            None
        }
    }

    pub fn secs(&self) -> (r: i64)
        ensures
            r == self.spec_secs(),
    {
        self.secs
    }

    pub fn nanos(&self) -> (r: u32)
        ensures
            r == self.spec_nanos(),
    {
        self.nanos
    }

    /// Text under a `strftime`-style pattern; `None` when chrono cannot
    /// format it (an unknown or malformed specifier).
    pub fn format(&self, pattern: &str) -> (r: Option<String>)
        ensures
            r matches Some(s) ==> spec_format_utc(self.spec_secs(), self.spec_nanos(), pattern@) == Some(s@),
            r is None ==> spec_format_utc(self.spec_secs(), self.spec_nanos(), pattern@) is None,
            plain_pattern(pattern@) ==> r is Some,
    {
        proof {
            use_type_invariant(self);
        }
        chrono_format(self.secs, self.nanos, pattern)
    }

    /// Text as chrono displays an instant.
    pub fn display(&self) -> (r: String)
        ensures
            r@ == spec_display_utc(self.spec_secs(), self.spec_nanos()),
    {
        proof {
            use_type_invariant(self);
        }
        chrono_display(self.secs, self.nanos)
    }

    /// Nanoseconds since the epoch.
    pub fn as_nanos(&self) -> (r: i128)
        ensures
            r == self.total_nanos(),
    {
        (self.secs as i128) * 1_000_000_000 + (self.nanos as i128)
    }

    /// `self < other`.
    pub fn before(&self, other: &UtcTimestamp) -> (r: bool)
        ensures
            r == (self.total_nanos() < other.total_nanos()),
    {
        self.as_nanos() < other.as_nanos()
    }
}

/// Rust's `/` on integers: the quotient rounded toward zero.
pub open spec fn trunc_div(a: int, b: int) -> int
    recommends
        b > 0,
{
    if a >= 0 {
        a / b
    } else {
        -((-a) / b)
    }
}

/// Rust's `%` on integers: the remainder that has the sign of `a`.
pub open spec fn trunc_rem(a: int, b: int) -> int
    recommends
        b > 0,
{
    a - b * trunc_div(a, b)
}

/// Whole minutes in a span of nanoseconds, as chrono's `num_minutes`.
pub open spec fn whole_minutes(span_nanos: int) -> int {
    trunc_div(span_nanos, 60_000_000_000)
}

/// Whole seconds in a span of nanoseconds, as chrono's `num_seconds`.
pub open spec fn whole_seconds(span_nanos: int) -> int {
    trunc_div(span_nanos, 1_000_000_000)
}

/// Quotient rounded toward zero of a signed 128-bit value by a positive one.
pub fn trunc_div_i128(a: i128, b: i128) -> (r: i128)
    requires
        b > 0,
        a > i128::MIN,
    ensures
        r == trunc_div(a as int, b as int),
{
    if a >= 0 {
        a / b
    } else {
        let m: i128 = -a;
        let q = m / b;
        -q
    }
}

/// Whole minutes between two instants (`later - earlier`), as chrono's
/// `(later - earlier).num_minutes()`.
pub fn minutes_between(earlier: &UtcTimestamp, later: &UtcTimestamp) -> (r: i64)
    ensures
        r == whole_minutes(later.total_nanos() - earlier.total_nanos()),
{
    let span = later.as_nanos() - earlier.as_nanos();
    let q = trunc_div_i128(span, 60_000_000_000);
    proof {
        let a: int = span as int;
        assert(-20_000_000_000_000_000_000_000_000_000 <= a <= 20_000_000_000_000_000_000_000_000_000);
        if a >= 0 {
            assert(a / 60_000_000_000 <= 1_000_000_000_000_000_000) by (nonlinear_arith)
                requires
                    0 <= a <= 20_000_000_000_000_000_000_000_000_000,
            ;
        } else {
            let m: int = -a;
            assert(m / 60_000_000_000 <= 1_000_000_000_000_000_000) by (nonlinear_arith)
                requires
                    0 <= m <= 20_000_000_000_000_000_000_000_000_000,
            ;
        }
    }
    q as i64
}

} // verus!
