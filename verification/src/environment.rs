//! The settings a server starts with.

use crate::domain::syntax::is_ascii_digit;
use crate::text::chars_of;
use vstd::prelude::*;

verus! {

/// The port a server listens on when none is configured.
pub const DEFAULT_SERVER_PORT: u16 = 8000;

/// The settings a server starts with.
pub struct Environment {
    pub database_url: String,
    pub redis_url: String,
    // Media storage (S3)
    pub s3_app_id: String,
    pub s3_app_key: String,
    pub s3_region: String,
    pub s3_endpoint: String,
    pub s3_base_storage_url: String,
    pub s3_bucket: String,
    // CORS origin
    pub origin: String,
    pub server_port: u16,
    // Loki logging server and the name of the running instance
    pub loki_host: Option<String>,
    pub loki_url: Option<String>,
}

/// The number the decimal digits `s` write.
pub open spec fn digits_value(s: Seq<char>) -> nat
    decreases s.len(),
{
    if s.len() == 0 {
        0
    } else {
        digits_value(s.drop_last()) * 10 + ((s.last() as int) - ('0' as int)) as nat
    }
}

pub open spec fn all_ascii_digits(s: Seq<char>) -> bool {
    forall|i: int| 0 <= i < s.len() ==> is_ascii_digit(#[trigger] s[i])
}

/// The port `text` names, read as `str::parse::<u16>` reads it: an optional `+`
/// and one or more decimal digits whose value fits in 16 bits.
pub open spec fn port_number(text: Seq<char>) -> Option<u16> {
    let digits = if text.len() > 0 && text[0] == '+' {
        text.skip(1)
    } else {
        text
    };
    if digits.len() > 0 && all_ascii_digits(digits) && digits_value(digits) <= u16::MAX {
        Some(digits_value(digits) as u16)
    } else {
        None
    }
}

proof fn lemma_digits_value_grows(s: Seq<char>, n: int)
    requires
        0 <= n <= s.len(),
        forall|i: int| 0 <= i < s.len() ==> is_ascii_digit(#[trigger] s[i]),
    ensures
        digits_value(s.take(n)) <= digits_value(s),
    decreases s.len() - n,
{
    if n < s.len() {
        lemma_digits_value_grows(s, n + 1);
        assert(s.take(n + 1).drop_last() =~= s.take(n));
    } else {
        assert(s.take(n) =~= s);
    }
}

/// The port to listen on: the configured one, or 8000 when none is configured;
/// none when the configured text is not a port.
pub fn server_port(configured: Option<&str>) -> (port: Option<u16>)
    ensures
        match configured {
            None => port == Some(DEFAULT_SERVER_PORT),
            Some(text) => port == port_number(text@),
        },
{
    let text = match configured {
        None => {
            return Some(DEFAULT_SERVER_PORT);
        },
        Some(text) => text,
    };
    let chars = chars_of(text);
    let ghost s = text@;
    let start: usize = if chars.len() > 0 && chars[0] == '+' {
        1
    } else {
        0
    };
    let ghost digits = if s.len() > 0 && s[0] == '+' {
        s.skip(1)
    } else {
        s
    };
    assert(digits =~= s.skip(start as int));
    if start == chars.len() {
        return None;
    }
    let mut value: u32 = 0;
    let mut i: usize = start;
    while i < chars.len()
        invariant
            start <= i <= chars@.len(),
            configured == Some(text),
            s == text@,
            chars@ == s,
            digits == s.skip(start as int),
            digits == (if s.len() > 0 && s[0] == '+' {
                s.skip(1)
            } else {
                s
            }),
            value == digits_value(digits.take(i - start)),
            value <= u16::MAX,
            forall|k: int| 0 <= k < i - start ==> is_ascii_digit(#[trigger] digits[k]),
        decreases chars@.len() - i,
    {
        let c = chars[i];
        assert(digits[i - start] == c);
        assert(digits.take(i - start + 1).drop_last() =~= digits.take(i - start));
        if !('0' <= c && c <= '9') {
            return None;
        }
        let d = (c as u32) - ('0' as u32);
        value = value * 10 + d;
        if value > 65535 {
            proof {
                assert(forall|k: int| 0 <= k < digits.len() ==> is_ascii_digit(#[trigger] digits[k]) || k >= i - start + 1);
                if forall|k: int| 0 <= k < digits.len() ==> is_ascii_digit(#[trigger] digits[k]) {
                    lemma_digits_value_grows(digits, i - start + 1);
                }
            }
            return None;
        }
        i = i + 1;
    }
    assert(digits.take(digits.len() as int) =~= digits);
    Some(value as u16)
}

/// The host of `origin` read as a URL by url's `Url::parse` and `Url::host_str`:
/// none when `origin` is not a URL, `Some(None)` when the URL has no host.
pub uninterp spec fn url_host(origin: Seq<char>) -> Option<Option<Seq<char>>>;

/// The characters of a parsed host, as the wrapper hands it over.
pub open spec fn host_texts(parsed: Option<Option<String>>) -> Option<Option<Seq<char>>> {
    match parsed {
        None => None,
        Some(None) => Some(None),
        Some(Some(h)) => Some(Some(h@)),
    }
}

/// Calls `url::Url::parse` of url and then `Url::host_str` on the result.
/// Trusted: the result is the host of `origin` read as a URL (see `url_host`),
/// which depends on `origin` alone.
#[verifier::external_body]
fn parse_url_host(origin: &str) -> (host: Option<Option<String>>)
    ensures
        host_texts(host) == url_host(origin@),
{
    match url::Url::parse(origin) {
        Ok(url) => Some(url.host_str().map(|h| h.to_string())),
        Err(_) => None,
    }
}

/// Why no cookie domain could be read out of the origin.
#[derive(Debug, Clone, Copy, PartialEq, Eq)]
pub enum OriginError {
    /// The origin is not a URL.
    NotAUrl,
    /// The origin is a URL without a host.
    NoHost,
}

/// The domain session cookies are issued for, given the host read out of the
/// origin: the host itself.
pub open spec fn domain_outcome(host: Option<Option<Seq<char>>>) -> Result<Seq<char>, OriginError> {
    match host {
        None => Err(OriginError::NotAUrl),
        Some(None) => Err(OriginError::NoHost),
        Some(Some(h)) => Ok(h),
    }
}

/// The domain session cookies are issued for, given the host read out of the
/// origin (see `domain_outcome`).
pub fn domain_of_host(host: Option<Option<String>>) -> (domain: Result<String, OriginError>)
    ensures
        match domain {
            Ok(d) => domain_outcome(host_texts(host)) == Ok::<Seq<char>, OriginError>(d@),
            Err(e) => domain_outcome(host_texts(host)) == Err::<Seq<char>, OriginError>(e),
        },
{
    match host {
        None => Err(OriginError::NotAUrl),
        Some(None) => Err(OriginError::NoHost),
        Some(Some(h)) => Ok(h),
    }
}

/// The domain session cookies are issued for: the host of the allowed origin.
pub fn cookie_domain(origin: &str) -> (domain: Result<String, OriginError>)
    ensures
        match domain {
            Ok(d) => domain_outcome(url_host(origin@)) == Ok::<Seq<char>, OriginError>(d@),
            Err(e) => domain_outcome(url_host(origin@)) == Err::<Seq<char>, OriginError>(e),
        },
{
    domain_of_host(parse_url_host(origin))
}

} // verus!
