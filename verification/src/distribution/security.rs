//! Signed, expiring tokens that grant access to HLS segments.
use vstd::prelude::*;

use crate::digest::{base64_url_encode, base64_url_unpadded, hmac_sha256, hmac_sha256_tag};
use crate::text::{i64_to_decimal, owned, signed_decimal, str_eq, views};
use crate::time::{spec_valid_instant, UtcTimestamp};
use vstd::string::StringSliceAdditionalSpecFns;
use vstd::utf8::encode_utf8;

verus! {

/// Why a token could not be issued or was refused.
#[derive(Clone, Debug)]
pub enum DistributionSecurityError {
    /// Reading the secret or writing the access log failed.
    Io(String),
    /// The HMAC could not be keyed.
    Hmac,
    /// The token's expiry lies in the past.
    TokenExpired,
    /// The token does not carry the signature of its path and expiry.
    InvalidSignature,
    /// An access-log entry could not be serialized.
    Serialize(String),
}

/// Where TLS certificates, the token secret and the access log live, and how
/// long tokens last.
#[derive(Clone, Debug)]
pub struct SecurityConfig {
    pub tls_required: bool,
    pub certificate_path: String,
    pub token_secret_path: String,
    pub token_ttl_minutes: u64,
    pub firewall_sources: Vec<String>,
    pub access_log_path: String,
}

/// A token for one segment path, valid until `expires_at`.
#[derive(Clone, Debug)]
pub struct SegmentToken {
    pub token: String,
    pub expires_at: UtcTimestamp,
    pub path: String,
}

/// The signed message: the path's UTF-8 bytes, `:`, and the expiry in whole
/// seconds since the epoch, in decimal.
pub open spec fn token_message(path: Seq<char>, expires: i64) -> Seq<u8> {
    encode_utf8(path) + seq![58u8] + encode_utf8(signed_decimal(expires as int))
}

/// The token text for a path and expiry: its HMAC-SHA256 under the secret,
/// in unpadded URL-safe base64.
pub open spec fn token_text(secret: Seq<u8>, path: Seq<char>, expires: i64) -> Seq<char> {
    base64_url_unpadded(hmac_sha256_tag(secret, token_message(path, expires)))
}

/// The seconds that a lifetime of `ttl_minutes` adds, `None` where
/// `chrono::Duration::minutes(ttl_minutes as i64)` panics: the minutes, taken
/// as an `i64`, times 60 must lie within ±(`i64::MAX` / 1000) seconds.
pub open spec fn ttl_seconds(ttl_minutes: u64) -> Option<int> {
    let m = ttl_minutes as i64;
    let s = m * 60;
    if -9_223_372_036_854_775 <= s && s <= 9_223_372_036_854_775 {
        Some(s)
    } else {
        None
    }
}

/// The expiry of a token issued at `now` with the given lifetime, `None`
/// where the original arithmetic panics (lifetime or instant out of range).
pub open spec fn expiry_secs(now_secs: i64, now_nanos: u32, ttl_minutes: u64) -> Option<i64> {
    match ttl_seconds(ttl_minutes) {
        Some(s) => if i64::MIN <= now_secs + s <= i64::MAX && spec_valid_instant(
            (now_secs + s) as i64,
            now_nanos,
        ) {
            Some((now_secs + s) as i64)
        } else {
            None
        },
        None => None,
    }
}

/// The outcome of checking a token text with expiry `expires` for `path`
/// at `now`.
pub open spec fn token_check(
    secret: Seq<u8>,
    token: Seq<char>,
    expires: UtcTimestamp,
    path: Seq<char>,
    now: UtcTimestamp,
) -> Result<(), DistributionSecurityError> {
    if expires.total_nanos() < now.total_nanos() {
        Err(DistributionSecurityError::TokenExpired)
    } else if token != token_text(secret, path, expires.spec_secs()) {
        Err(DistributionSecurityError::InvalidSignature)
    } else {
        Ok(())
    }
}

/// The instant `ttl_minutes` after `now`, or `None` where that instant (or
/// the lifetime itself) is out of range.
pub fn token_expiry(now: &UtcTimestamp, ttl_minutes: u64) -> (r: Option<UtcTimestamp>)
    ensures
        match expiry_secs(now.spec_secs(), now.spec_nanos(), ttl_minutes) {
            Some(s) => r matches Some(t) && t.spec_secs() == s && t.spec_nanos() == now.spec_nanos(),
            None => r is None,
        },
{
    let m = ttl_minutes as i64;
    if m < -153_722_867_280_912 || m > 153_722_867_280_912 {
        return None;
    }
    let s = m * 60;
    if s < -9_223_372_036_854_775 || s > 9_223_372_036_854_775 {
        return None;
    }
    let secs = now.secs();
    if (s > 0 && secs > i64::MAX - s) || (s < 0 && secs < i64::MIN - s) {
        return None;
    }
    UtcTimestamp::from_unix(secs + s, now.nanos())
}

/// Issues and checks segment tokens with a secret key.
#[derive(Clone, Debug)]
pub struct DistributionSecurity {
    config: SecurityConfig,
    secret: Vec<u8>,
}

impl DistributionSecurity {
    pub closed spec fn spec_secret(self) -> Seq<u8> {
        self.secret@
    }

    pub closed spec fn spec_config(self) -> SecurityConfig {
        self.config
    }

    /// A token service with the given configuration and secret key (the
    /// bytes of the configured secret file).
    pub fn with_secret(config: SecurityConfig, secret: Vec<u8>) -> (r: Self)
        ensures
            r.spec_config() == config,
            r.spec_secret() == secret@,
    {
        DistributionSecurity { config, secret }
    }

    pub fn tls_required(&self) -> (r: bool)
        ensures
            r == self.spec_config().tls_required,
    {
        self.config.tls_required
    }

    pub fn firewall_sources(&self) -> (r: &[String])
        ensures
            views(r@) == views(self.spec_config().firewall_sources@),
    {
        self.config.firewall_sources.as_slice()
    }

    pub fn certificate_path(&self) -> (r: &String)
        ensures
            r@ == self.spec_config().certificate_path@,
    {
        &self.config.certificate_path
    }

    pub fn access_log_path(&self) -> (r: &String)
        ensures
            r@ == self.spec_config().access_log_path@,
    {
        &self.config.access_log_path
    }

    /// The HMAC-SHA256 of `path:expires` under the secret.
    fn sign(&self, path: &str, expires: i64) -> (r: Result<Vec<u8>, DistributionSecurityError>)
        ensures
            r matches Ok(tag) && tag@ == hmac_sha256_tag(self.spec_secret(), token_message(path@, expires)),
    {
        let mut message: Vec<u8> = vstd::slice::slice_to_vec(path.as_bytes());
        message.push(58u8);
        let digits = i64_to_decimal(expires);
        let mut tail: Vec<u8> = vstd::slice::slice_to_vec(digits.as_str().as_bytes());
        message.append(&mut tail);
        assert(message@ =~= token_message(path@, expires));
        match hmac_sha256(self.secret.as_slice(), message.as_slice()) {
            Some(tag) => Ok(tag),
            None => Err(DistributionSecurityError::Hmac),
        }
    }

    /// A token for `path` issued at `now`, valid for the configured number
    /// of minutes.
    pub fn issue_token(&self, path: &str, now: &UtcTimestamp) -> (r: Result<SegmentToken, DistributionSecurityError>)
        requires
            expiry_secs(now.spec_secs(), now.spec_nanos(), self.spec_config().token_ttl_minutes) is Some,
        ensures
            r matches Ok(t) && t.path@ == path@
                && Some(t.expires_at.spec_secs()) == expiry_secs(now.spec_secs(), now.spec_nanos(), self.spec_config().token_ttl_minutes)
                && t.expires_at.spec_nanos() == now.spec_nanos()
                && t.token@ == token_text(self.spec_secret(), path@, t.expires_at.spec_secs()),
    {
        match token_expiry(now, self.config.token_ttl_minutes) {
            Some(expires_at) => {
                let signature = self.sign(path, expires_at.secs())?;
                let token = base64_url_encode(signature.as_slice());
                Ok(SegmentToken { token, expires_at, path: owned(path) })
            },
            None => vstd::pervasive::unreached(),
        }
    }

    /// `issue_token` where the expiry is in range; `None` where computing it
    /// would overflow (the configured lifetime or the resulting instant out of
    /// range), which panics in chrono's arithmetic.
    pub fn try_issue_token(&self, path: &str, now: &UtcTimestamp) -> (r: Option<Result<SegmentToken, DistributionSecurityError>>)
        ensures
            expiry_secs(now.spec_secs(), now.spec_nanos(), self.spec_config().token_ttl_minutes) is None ==> r is None,
            expiry_secs(now.spec_secs(), now.spec_nanos(), self.spec_config().token_ttl_minutes) is Some ==> (r matches Some(Ok(t))
                && t.path@ == path@
                && Some(t.expires_at.spec_secs()) == expiry_secs(now.spec_secs(), now.spec_nanos(), self.spec_config().token_ttl_minutes)
                && t.expires_at.spec_nanos() == now.spec_nanos()
                && t.token@ == token_text(self.spec_secret(), path@, t.expires_at.spec_secs())),
    {
        match token_expiry(now, self.config.token_ttl_minutes) {
            Some(_) => Some(self.issue_token(path, now)),
            None => None,
        }
    }

    /// Checks a token for `path` at `now`: refused as expired when its
    /// expiry lies before `now`, as forged when its text is not the
    /// signature of `path` and its expiry.
    pub fn validate_token(&self, token: &SegmentToken, path: &str, now: &UtcTimestamp) -> (r: Result<(), DistributionSecurityError>)
        ensures
            r == token_check(self.spec_secret(), token.token@, token.expires_at, path@, *now),
    {
        if token.expires_at.before(now) {
            return Err(DistributionSecurityError::TokenExpired);
        }
        let signature = self.sign(path, token.expires_at.secs())?;
        let expected = base64_url_encode(signature.as_slice());
        if !str_eq(expected.as_str(), token.token.as_str()) {
            return Err(DistributionSecurityError::InvalidSignature);
        }
        Ok(())
    }
}

/// A token issued for a path is accepted for that path at every instant up
/// to its expiry.
pub proof fn law_issued_token_validates(secret: Seq<u8>, path: Seq<char>, expires: UtcTimestamp, now: UtcTimestamp)
    requires
        now.total_nanos() <= expires.total_nanos(),
    ensures
        token_check(secret, token_text(secret, path, expires.spec_secs()), expires, path, now) == Ok::<(), DistributionSecurityError>(()),
{
}

/// A token whose expiry lies before the present is refused as expired,
/// whatever its text and path.
pub proof fn law_expired_token_refused(secret: Seq<u8>, token: Seq<char>, path: Seq<char>, expires: UtcTimestamp, now: UtcTimestamp)
    requires
        expires.total_nanos() < now.total_nanos(),
    ensures
        token_check(secret, token, expires, path, now) == Err::<(), DistributionSecurityError>(DistributionSecurityError::TokenExpired),
{
}

} // verus!
