//! URLs: the host a URL names, and the form encoding of query text.
use vstd::prelude::*;

verus! {

/// The host of a URL as `url::Url::parse` followed by `host_str` gives it,
/// `None` when the text does not parse or names no host.
pub uninterp spec fn url_host(url: Seq<char>) -> Option<Seq<char>>;

/// Calls `url::Url::parse(url)` and then `host_str()`. The host is taken to
/// depend on the text alone; what the WHATWG parser does is not stated.
#[verifier::external_body]
pub(crate) fn parse_host(url: &str) -> (r: Option<String>)
    ensures
        match r {
            Some(h) => url_host(url@) == Some(h@),
            None => url_host(url@) is None,
        },
{
    url::Url::parse(url).ok().and_then(|parsed| parsed.host_str().map(|h| h.to_string()))
}

/// The uppercase hexadecimal digit of a value below 16.
pub open spec fn upper_hex_digit(v: int) -> char {
    if v < 10 {
        (v + 48) as char
    } else {
        (v - 10 + 65) as char
    }
}

/// A byte as `application/x-www-form-urlencoded` writes it: ASCII letters,
/// digits and `*-._` as they are, a space as `+`, anything else as `%XX`.
pub open spec fn form_encoded_byte(b: u8) -> Seq<char> {
    if (48 <= b <= 57) || (65 <= b <= 90) || (97 <= b <= 122) || b == 42 || b == 45 || b == 46 || b == 95 {
        seq![b as char]
    } else if b == 32 {
        seq!['+']
    } else {
        seq!['%', upper_hex_digit(b as int / 16), upper_hex_digit(b as int % 16)]
    }
}

/// Bytes encoded one by one with `form_encoded_byte`.
pub open spec fn form_encoded(bytes: Seq<u8>) -> Seq<char>
    decreases bytes.len(),
{
    if bytes.len() == 0 {
        Seq::empty()
    } else {
        form_encoded(bytes.drop_last()) + form_encoded_byte(bytes.last())
    }
}

/// Calls `form_urlencoded::byte_serialize` (through `url`) and collects the
/// pieces: each byte as `form_encoded_byte` writes it.
#[verifier::external_body]
pub(crate) fn form_urlencode(bytes: &[u8]) -> (r: String)
    ensures
        r@ == form_encoded(bytes@),
{
    url::form_urlencoded::byte_serialize(bytes).collect()
}

/// The scheme of a URL as `url::Url::parse` followed by `scheme` gives it,
/// `None` when the text does not parse.
pub uninterp spec fn url_scheme(url: Seq<char>) -> Option<Seq<char>>;

/// The URL that `Url::parse(base)` followed by `join(reference)` gives, as
/// text, or the text of the parse error of either step.
pub uninterp spec fn url_joined(base: Seq<char>, reference: Seq<char>) -> Result<Seq<char>, Seq<char>>;

/// Calls `url::Url::parse(url)` and then `scheme()`. The scheme is taken to
/// depend on the text alone.
#[verifier::external_body]
pub(crate) fn parse_scheme(url: &str) -> (r: Option<String>)
    ensures
        match r {
            Some(s) => url_scheme(url@) == Some(s@),
            None => url_scheme(url@) is None,
        },
{
    url::Url::parse(url).ok().map(|parsed| parsed.scheme().to_string())
}

/// Calls `url::Url::parse(base)` and then `join(reference)`, giving the
/// joined URL's text or the `Display` text of the error. The result is taken
/// to depend on the two texts alone.
#[verifier::external_body]
pub(crate) fn join_url(base: &str, reference: &str) -> (r: Result<String, String>)
    ensures
        match r {
            Ok(u) => url_joined(base@, reference@) == Ok::<Seq<char>, Seq<char>>(u@),
            Err(e) => url_joined(base@, reference@) == Err::<Seq<char>, Seq<char>>(e@),
        },
{
    match url::Url::parse(base) {
        Ok(parsed) => match parsed.join(reference) {
            Ok(joined) => Ok(joined.to_string()),
            Err(err) => Err(err.to_string()),
        },
        Err(err) => Err(err.to_string()),
    }
}

} // verus!
