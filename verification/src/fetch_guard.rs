//! The remote fetch guard.
//!
//! A client-supplied URL may only be fetched when its scheme is plain HTTP
//! or HTTPS, it names a host, and that host resolves to at least one safe
//! address — one that is not loopback, private, link-local, multicast,
//! broadcast, carrier-grade NAT, a test or documentation range, or the
//! cloud metadata address. The decision is taken on the resolved
//! addresses, never on the literal host string, so a lookalike hostname
//! cannot slip through. Resolution and the fetch itself are I/O and stay
//! outside; this module decides.

use vstd::prelude::*;

use crate::text::str_eq;

verus! {

/// A resolved network address, as plain values.
#[derive(Debug, Clone, Copy, PartialEq, Eq, Structural)]
pub enum IpAddress {
    V4(u8, u8, u8, u8),
    V6(u16, u16, u16, u16, u16, u16, u16, u16),
}

/// Whether a version-four address is safe to fetch from: not loopback, not
/// private, not link-local, not broadcast, not multicast, not
/// carrier-grade NAT, not the cloud metadata address, and not a test or
/// six-to-four relay range.
pub open spec fn spec_is_safe_v4(a: u8, b: u8, c: u8, d: u8) -> bool {
    &&& !(a == 10)  // private
    &&& !(a == 172 && 16 <= b < 32)  // private
    &&& !(a == 192 && b == 168)  // private
    &&& !(a == 127)  // loopback
    &&& !(a == 169 && b == 254)  // link-local, including the metadata address
    &&& !(a == 255 && b == 255 && c == 255 && d == 255)  // broadcast
    &&& !(224 <= a < 240)  // multicast
    &&& !(a == 100 && 64 <= b < 128)  // carrier-grade NAT
    &&& !(a == 192 && b == 0 && c == 2)  // test range
    &&& !(a == 198 && b == 51 && c == 100)  // test range
    &&& !(a == 203 && b == 0 && c == 113)  // test range
    &&& !(a == 192 && b == 88 && c == 99)  // six-to-four relay range
}

/// Whether a version-six address is safe to fetch from: not loopback, not
/// multicast, not link-local, not unique-local, and not the documentation
/// prefix.
pub open spec fn spec_is_safe_v6(
    s0: u16,
    s1: u16,
    s2: u16,
    s3: u16,
    s4: u16,
    s5: u16,
    s6: u16,
    s7: u16,
) -> bool {
    &&& !(s0 == 0 && s1 == 0 && s2 == 0 && s3 == 0 && s4 == 0 && s5 == 0 && s6 == 0 && s7
        == 1)  // loopback
    &&& !(0xff00 <= s0 <= 0xffff)  // multicast
    &&& !(0xfe80 <= s0 < 0xfec0)  // link-local
    &&& !(0xfc00 <= s0 < 0xfe00)  // unique-local
    &&& !(s0 == 0x2001 && s1 == 0x0db8)  // documentation prefix
}

/// Whether a resolved address is safe to fetch from.
pub open spec fn spec_is_safe_ip(ip: IpAddress) -> bool {
    match ip {
        IpAddress::V4(a, b, c, d) => spec_is_safe_v4(a, b, c, d),
        IpAddress::V6(s0, s1, s2, s3, s4, s5, s6, s7) => spec_is_safe_v6(
            s0,
            s1,
            s2,
            s3,
            s4,
            s5,
            s6,
            s7,
        ),
    }
}

/// Decides whether an address is safe for an outbound fetch.
pub fn is_safe_ip(ip: &IpAddress) -> (r: bool)
    ensures
        r == spec_is_safe_ip(*ip),
{
    match ip {
        IpAddress::V4(a, b, c, d) => {
            let a: u8 = *a;
            let b: u8 = *b;
            let c: u8 = *c;
            let d: u8 = *d;
            !(a == 10 || (a == 172 && 16 <= b && b < 32) || (a == 192 && b == 168) || a == 127 || (
            a == 169 && b == 254) || (a == 255 && b == 255 && c == 255 && d == 255) || (224 <= a
                && a < 240) || (a == 100 && 64 <= b && b < 128) || (a == 192 && b == 0 && c == 2)
                || (a == 198 && b == 51 && c == 100) || (a == 203 && b == 0 && c == 113) || (a
                == 192 && b == 88 && c == 99))
        },
        IpAddress::V6(s0, s1, _s2, _s3, _s4, _s5, _s6, _s7) => {
            let s0: u16 = *s0;
            let s1: u16 = *s1;
            let loopback = *_s2 == 0 && *_s3 == 0 && *_s4 == 0 && *_s5 == 0 && *_s6 == 0 && *_s7
                == 1 && s0 == 0 && s1 == 0;
            !(loopback || 0xff00 <= s0 || (0xfe80 <= s0 && s0 < 0xfec0) || (0xfc00 <= s0 && s0
                < 0xfe00) || (s0 == 0x2001 && s1 == 0x0db8))
        },
    }
}

/// The parts of a parsed URL that the guard reads.
#[derive(Debug, Clone, PartialEq, Eq)]
pub struct UrlParts {
    pub scheme: String,
    pub host: Option<String>,
    pub port: Option<u16>,
}

/// What the `url` crate's parser makes of the given text: its scheme, host
/// and port, or nothing when the text is not a valid URL. A function of the
/// text alone.
pub uninterp spec fn url_parts_of(s: Seq<char>) -> Option<UrlParts>;

/// Whether two parsed-URL values agree, character for character.
pub open spec fn url_parts_match(a: UrlParts, b: UrlParts) -> bool {
    &&& a.scheme@ == b.scheme@
    &&& match (a.host, b.host) {
        (Some(x), Some(y)) => x@ == y@,
        (None, None) => true,
        _ => false,
    }
    &&& a.port == b.port
}

/// Parses a URL into the parts the guard reads.
///
/// Relies on `url::Url::parse` and its `scheme`, `host_str` and `port`
/// accessors; the answer is a function of the text alone.
#[verifier::external_body]
fn parse_url_parts(s: &str) -> (r: Option<UrlParts>)
    ensures
        match r {
            Some(p) => url_parts_of(s@) matches Some(m) && url_parts_match(p, m),
            None => url_parts_of(s@) is None,
        },
{
    match url::Url::parse(s) {
        Ok(u) => {
            let scheme = u.scheme().to_owned();
            let host = u.host_str().map(|h| h.to_owned());
            let port = u.port();
            Some(UrlParts { scheme, host, port })
        },
        Err(_) => None,
    }
}

/// Why a fetch request was refused.
#[derive(Debug, Clone, Copy, PartialEq, Eq, Structural)]
pub enum FetchRejection {
    /// The text is not a URL.
    InvalidUrl,
    /// The scheme is neither `http` nor `https`.
    SchemeNotAllowed,
    /// The URL names no host.
    NoHost,
    /// No resolved address is safe.
    NoSafeAddress,
    /// The payload exceeds the size ceiling.
    TooLarge,
}

/// A vetted fetch destination: the host to resolve, the port to use, and
/// whether the fetch goes over TLS.
#[derive(Debug, Clone, PartialEq, Eq)]
pub struct FetchTarget {
    pub host: String,
    pub port: u16,
    pub https: bool,
}

/// The URL-level decision, over the parsed parts: the scheme must be
/// exactly `http` or `https` and a host must be present; the port defaults
/// to the scheme's own.
pub open spec fn spec_check_url(parts: Option<UrlParts>) -> Result<(Seq<char>, u16, bool), FetchRejection> {
    match parts {
        None => Err(FetchRejection::InvalidUrl),
        Some(p) => {
            let https = p.scheme@ == "https"@;
            if p.scheme@ != "http"@ && !https {
                Err(FetchRejection::SchemeNotAllowed)
            } else {
                match p.host {
                    None => Err(FetchRejection::NoHost),
                    Some(h) => {
                        let port = match p.port {
                            Some(pt) => pt,
                            None => if https {
                                443u16
                            } else {
                                80u16
                            },
                        };
                        Ok((h@, port, https))
                    },
                }
            }
        },
    }
}

/// Checks the URL-level conditions of the guard: scheme and host. The
/// address-level condition follows once the host is resolved, through
/// [`approve_destination`].
pub fn check_url(s: &str) -> (r: Result<FetchTarget, FetchRejection>)
    ensures
        match r {
            Ok(t) => spec_check_url(url_parts_of(s@)) matches Ok(m) && t.host@ == m.0 && t.port
                == m.1 && t.https == m.2,
            Err(e) => spec_check_url(url_parts_of(s@)) == Err::<(Seq<char>, u16, bool), FetchRejection>(e),
        },
{
    let parts = match parse_url_parts(s) {
        Some(p) => p,
        None => {
            return Err(FetchRejection::InvalidUrl);
        },
    };
    let https = str_eq(parts.scheme.as_str(), "https");
    if !str_eq(parts.scheme.as_str(), "http") && !https {
        return Err(FetchRejection::SchemeNotAllowed);
    }
    let host = match parts.host {
        Some(h) => h,
        None => {
            return Err(FetchRejection::NoHost);
        },
    };
    let port: u16 = match parts.port {
        Some(pt) => pt,
        None => if https {
            443
        } else {
            80
        },
    };
    Ok(FetchTarget { host, port, https })
}

/// Keeps the safe addresses among the resolved ones, in order.
pub fn select_safe_ips(ips: &Vec<IpAddress>) -> (r: Vec<IpAddress>)
    ensures
        forall|j: int| 0 <= j < r@.len() ==> spec_is_safe_ip(#[trigger] r@[j]),
        forall|j: int| 0 <= j < r@.len() ==> ips@.contains(#[trigger] r@[j]),
        (exists|j: int| 0 <= j < ips@.len() && spec_is_safe_ip(#[trigger] ips@[j])) <==> r@.len()
            > 0,
{
    let mut out: Vec<IpAddress> = Vec::new();
    let mut i: usize = 0;
    while i < ips.len()
        invariant
            0 <= i <= ips@.len(),
            forall|j: int| 0 <= j < out@.len() ==> spec_is_safe_ip(#[trigger] out@[j]),
            forall|j: int| 0 <= j < out@.len() ==> ips@.contains(#[trigger] out@[j]),
            (exists|j: int| 0 <= j < i && spec_is_safe_ip(#[trigger] ips@[j])) <==> out@.len() > 0,
        decreases ips@.len() - i,
    {
        let ip = ips[i];
        if is_safe_ip(&ip) {
            out.push(ip);
            proof {
                assert(ips@[i as int] == ip);
                assert(ips@.contains(ip));
            }
        }
        i = i + 1;
    }
    out
}

/// The address-level decision of the guard: the fetch may proceed exactly
/// when at least one resolved address is safe.
pub fn approve_destination(ips: &Vec<IpAddress>) -> (r: Result<(), FetchRejection>)
    ensures
        r is Ok <==> exists|j: int| 0 <= j < ips@.len() && spec_is_safe_ip(#[trigger] ips@[j]),
        r is Err ==> r == Err::<(), FetchRejection>(FetchRejection::NoSafeAddress),
{
    let safe = select_safe_ips(ips);
    if safe.len() > 0 {
        Ok(())
    } else {
        Err(FetchRejection::NoSafeAddress)
    }
}

/// The hard ceiling on a fetched image, in bytes.
pub const MAX_IMAGE_SIZE: usize = 10 * 1024 * 1024;

/// The effective payload ceiling: the configured body limit, itself capped
/// by [`MAX_IMAGE_SIZE`].
pub open spec fn spec_effective_limit(max_body_size: usize) -> usize {
    if max_body_size < MAX_IMAGE_SIZE {
        max_body_size
    } else {
        MAX_IMAGE_SIZE
    }
}

/// Whether a payload of the given size — declared or actual — is within
/// the effective ceiling.
pub fn payload_within_limit(size: u64, max_body_size: usize) -> (b: bool)
    ensures
        b == (size <= spec_effective_limit(max_body_size)),
{
    let limit: usize = if max_body_size < MAX_IMAGE_SIZE {
        max_body_size
    } else {
        MAX_IMAGE_SIZE
    };
    size <= limit as u64
}

} // verus!
