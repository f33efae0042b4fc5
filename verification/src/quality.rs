//! Quality control: what can go wrong, the actions it recommends, the
//! commands it ran, and colours as hexadecimal text.
use vstd::prelude::*;

use crate::text::push_char;

verus! {

/// Why a quality check failed.
#[derive(Clone, Debug)]
pub enum QualityError {
    Command(String),
    /// A command did not finish within the given seconds and nanoseconds.
    Timeout { secs: u64, nanos: u32 },
    /// An artifact could not be read; the error's text and the path.
    Io { message: String, path: String },
    Parse(String),
    Image(String),
    Profile(String),
    MissingVideoStream,
}

/// What quality control recommends doing.
#[derive(Clone, Copy, Debug, PartialEq, Eq, Structural)]
pub enum QualityActionKind {
    TranscodeFallback,
    SignatureFilter,
    LiveAlert,
}

/// A recommended action and why.
#[derive(Clone, Debug)]
pub struct QualityAction {
    pub kind: QualityActionKind,
    pub description: String,
}

/// A command quality control ran, or would have run.
#[derive(Clone, Debug)]
pub struct QualityCommand {
    pub command: String,
    pub executed: bool,
}

/// The lowercase hexadecimal digit of a value below 16.
pub open spec fn lower_hex_digit(v: int) -> char {
    if v < 10 {
        (v + 48) as char
    } else {
        (v - 10 + 97) as char
    }
}

/// A byte as two lowercase hexadecimal digits.
pub open spec fn hex_byte(b: u8) -> Seq<char> {
    seq![lower_hex_digit(b as int / 16), lower_hex_digit(b as int % 16)]
}

fn push_hex_byte(s: &mut String, b: u8)
    ensures
        final(s)@ == old(s)@ + hex_byte(b),
{
    let hi = b / 16;
    let lo = b % 16;
    let ch = if hi < 10 { (hi + 48) as char } else { (hi - 10 + 97) as char };
    let cl = if lo < 10 { (lo + 48) as char } else { (lo - 10 + 97) as char };
    push_char(s, ch);
    push_char(s, cl);
    assert(final(s)@ =~= old(s)@ + hex_byte(b));
}

/// A colour as `#rrggbb` in lowercase hexadecimal.
pub fn rgb_to_hex(rgb: (u8, u8, u8)) -> (r: String)
    ensures
        r@ == seq!['#'] + hex_byte(rgb.0) + hex_byte(rgb.1) + hex_byte(rgb.2),
{
    let mut s = String::new();
    push_char(&mut s, '#');
    push_hex_byte(&mut s, rgb.0);
    push_hex_byte(&mut s, rgb.1);
    push_hex_byte(&mut s, rgb.2);
    assert(s@ =~= seq!['#'] + hex_byte(rgb.0) + hex_byte(rgb.1) + hex_byte(rgb.2));
    s
}

} // verus!
