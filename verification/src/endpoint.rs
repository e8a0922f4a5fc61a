//! Concrete endpoint addresses and the transport descriptors built from them.
//!
//! An [`EndpointAddr`] is an IP address and a port. An [`EndpointDescriptor`]
//! is the address rendered as a URI together with the per-endpoint policy
//! (scheme, TLS peer name, timeouts) that the transport applies when it
//! connects.

use crate::numfmt::spec_dec;
use crate::numfmt::spec_hex;
use crate::numfmt::u16_to_dec;
use crate::numfmt::u16_to_hex;
use vstd::prelude::*;
use vstd::string::StringExecFns;

verus! {

/// An IP address, IPv4 as four octets or IPv6 as eight 16-bit groups.
#[derive(Clone, Copy, Debug, PartialEq, Eq, Structural)]
pub enum IpAddress {
    V4 { a: u8, b: u8, c: u8, d: u8 },
    V6 { g0: u16, g1: u16, g2: u16, g3: u16, g4: u16, g5: u16, g6: u16, g7: u16 },
}

/// A concrete socket address: IP address plus port. Two addresses are equal
/// exactly when every component is.
#[derive(Clone, Copy, Debug, PartialEq, Eq, Structural)]
pub struct EndpointAddr {
    pub ip: IpAddress,
    pub port: u16,
}

/// The URI scheme of an endpoint; `Https` exactly when TLS is configured.
#[derive(Clone, Copy, Debug, PartialEq, Eq, Structural)]
pub enum Scheme {
    Http,
    Https,
}

impl Scheme {
    /// The scheme's text as it appears in a URI.
    pub open spec fn spec_text(self) -> Seq<char> {
        if self is Http {
            "http"@
        } else {
            "https"@
        }
    }

    /// The scheme's text as it appears in a URI.
    pub fn text(&self) -> (r: &'static str)
        ensures
            r@ == self.spec_text(),
    {
        match self {
            Scheme::Http => "http",
            Scheme::Https => "https",
        }
    }
}

/// The TLS policy an endpoint descriptor carries: the name presented for SNI
/// and certificate verification. It is always the service's hostname, never a
/// resolved IP, because an IP is not a valid DNS name and verification against
/// it would fail.
#[derive(Clone, Debug)]
pub struct TlsPolicy {
    pub domain: String,
}

/// An endpoint descriptor: the URI the transport dials plus per-endpoint
/// policy. Timeouts are in milliseconds.
#[derive(Clone, Debug)]
pub struct EndpointDescriptor {
    pub uri: String,
    pub scheme: Scheme,
    pub tls_peer_name: Option<String>,
    pub request_timeout_ms: Option<u64>,
    pub connect_timeout_ms: Option<u64>,
}

/// Length of the run of zero groups starting at position `i`.
pub open spec fn spec_zero_run_len(g: Seq<u16>, i: int) -> int
    decreases g.len() - i,
{
    if i < 0 || i >= g.len() || g[i] != 0 {
        0
    } else {
        1 + spec_zero_run_len(g, i + 1)
    }
}

/// The zero run chosen for `::` compression among positions at or after `i`:
/// the leftmost longest run of length at least two, as `(start, length)`,
/// with length zero when no such run exists.
pub open spec fn spec_best_run_from(g: Seq<u16>, i: int) -> (int, int)
    decreases g.len() - i,
{
    if i < 0 || i >= g.len() {
        (0, 0)
    } else {
        let cur = spec_zero_run_len(g, i);
        let rest = spec_best_run_from(g, i + 1);
        if cur >= 2 && cur >= rest.1 {
            (i, cur)
        } else {
            rest
        }
    }
}

/// The groups' hexadecimal texts joined with ':'.
pub open spec fn spec_join_hex(g: Seq<u16>) -> Seq<char>
    decreases g.len(),
{
    if g.len() == 0 {
        Seq::empty()
    } else if g.len() == 1 {
        spec_hex(g[0] as int)
    } else {
        spec_join_hex(g.drop_last()) + seq![':'] + spec_hex(g.last() as int)
    }
}

/// IPv6 textual form, without brackets: hexadecimal groups joined with ':',
/// with the leftmost longest run of at least two zero groups compressed
/// to '::'.
pub open spec fn spec_ipv6_host(g: Seq<u16>) -> Seq<char> {
    let (s, l) = spec_best_run_from(g, 0);
    if l < 2 {
        spec_join_hex(g)
    } else {
        spec_join_hex(g.take(s)) + seq![':', ':'] + spec_join_hex(g.skip(s + l))
    }
}

/// IPv4 textual form: the four octets in decimal, joined with '.'.
pub open spec fn spec_ipv4_host(a: int, b: int, c: int, d: int) -> Seq<char> {
    spec_dec(a) + seq!['.'] + spec_dec(b) + seq!['.'] + spec_dec(c) + seq!['.'] + spec_dec(d)
}

impl IpAddress {
    /// The eight groups of an IPv6 address, in order.
    pub open spec fn spec_groups(self) -> Seq<u16>
        recommends
            self is V6,
    {
        match self {
            IpAddress::V4 { .. } => Seq::empty(),
            IpAddress::V6 { g0, g1, g2, g3, g4, g5, g6, g7 } => seq![
                g0,
                g1,
                g2,
                g3,
                g4,
                g5,
                g6,
                g7,
            ],
        }
    }
}

/// The host part of an endpoint URI: dotted decimal for IPv4, the bracketed
/// compressed form for IPv6.
pub open spec fn spec_host(ip: IpAddress) -> Seq<char> {
    match ip {
        IpAddress::V4 { a, b, c, d } => spec_ipv4_host(a as int, b as int, c as int, d as int),
        IpAddress::V6 { .. } => seq!['['] + spec_ipv6_host(ip.spec_groups()) + seq![']'],
    }
}

/// The full endpoint URI: `scheme "://" host ":" port`.
pub open spec fn spec_endpoint_uri(scheme: Scheme, addr: EndpointAddr) -> Seq<char> {
    scheme.spec_text() + "://"@ + spec_host(addr.ip) + seq![':'] + spec_dec(addr.port as int)
}

/// The descriptor built for `addr` under the given policy: the URI rendered
/// from the scheme and the address, the TLS peer name exactly when a TLS
/// domain is configured, and the timeouts passed through unchanged.
pub open spec fn descriptor_matches(
    d: EndpointDescriptor,
    scheme: Scheme,
    tls_domain: Option<Seq<char>>,
    request_timeout_ms: Option<u64>,
    connect_timeout_ms: Option<u64>,
    addr: EndpointAddr,
) -> bool {
    &&& d.uri@ == spec_endpoint_uri(scheme, addr)
    &&& d.scheme == scheme
    &&& match tls_domain {
        Some(n) => d.tls_peer_name matches Some(p) && p@ == n,
        None => d.tls_peer_name is None,
    }
    &&& d.request_timeout_ms == request_timeout_ms
    &&& d.connect_timeout_ms == connect_timeout_ms
}

/// A zero run never reaches past the end of the groups.
pub proof fn lemma_zero_run_len_bounds(g: Seq<u16>, i: int)
    requires
        0 <= i <= g.len(),
    ensures
        0 <= spec_zero_run_len(g, i) <= g.len() - i,
    decreases g.len() - i,
{
    if i < g.len() && g[i] == 0 {
        lemma_zero_run_len_bounds(g, i + 1);
    }
}

/// The chosen compression run either is empty or has length at least two and
/// lies entirely within the groups.
pub proof fn lemma_best_run_bounds(g: Seq<u16>, i: int)
    requires
        0 <= i <= g.len(),
    ensures
        ({
            let (s, l) = spec_best_run_from(g, i);
            l == 0 || (2 <= l && i <= s && s + l <= g.len())
        }),
    decreases g.len() - i,
{
    if i < g.len() {
        lemma_best_run_bounds(g, i + 1);
        lemma_zero_run_len_bounds(g, i);
    }
}

/// The URI of an IPv6 endpoint carries the address bracketed: the host part
/// begins with '[' and ends with ']'.
pub proof fn lemma_ipv6_uri_bracketed(scheme: Scheme, addr: EndpointAddr)
    requires
        addr.ip is V6,
    ensures
        spec_host(addr.ip).len() >= 2,
        spec_host(addr.ip).first() == '[',
        spec_host(addr.ip).last() == ']',
        spec_endpoint_uri(scheme, addr) == scheme.spec_text() + "://"@ + spec_host(addr.ip)
            + seq![':'] + spec_dec(addr.port as int),
{
}

/// Find the zero run to compress, scanning from the right so that each step
/// extends or restarts the current run.
fn best_zero_run(g: &Vec<u16>) -> (r: (usize, usize))
    ensures
        (r.0 as int, r.1 as int) == spec_best_run_from(g@, 0),
{
    let n: usize = g.len();
    let mut i: usize = n;
    let mut best_start: usize = 0;
    let mut best_len: usize = 0;
    let mut run_next: usize = 0;
    while i > 0
        invariant
            0 <= i <= n,
            n == g@.len(),
            run_next as int == spec_zero_run_len(g@, i as int),
            run_next <= n - i,
            (best_start as int, best_len as int) == spec_best_run_from(g@, i as int),
        decreases i,
    {
        i = i - 1;
        let cur: usize = if g[i] == 0 {
            run_next + 1
        } else {
            0
        };
        if cur >= 2 && cur >= best_len {
            best_start = i;
            best_len = cur;
        }
        run_next = cur;
    }
    (best_start, best_len)
}

/// Append the groups in `[from, to)` as hexadecimal texts joined with ':'.
fn push_join_hex(out: &mut String, g: &Vec<u16>, from: usize, to: usize)
    requires
        from <= to <= g@.len(),
    ensures
        final(out)@ == old(out)@ + spec_join_hex(g@.subrange(from as int, to as int)),
{
    let mut i: usize = from;
    proof {
        assert(g@.subrange(from as int, from as int) =~= Seq::<u16>::empty());
    }
    while i < to
        invariant
            from <= i <= to <= g@.len(),
            out@ == old(out)@ + spec_join_hex(g@.subrange(from as int, i as int)),
        decreases to - i,
    {
        if i > from {
            out.append(":");
            proof {
                reveal_strlit(":");
                assert(":"@ =~= seq![':']);
            }
        }
        let h = u16_to_hex(g[i]);
        out.append(h.as_str());
        proof {
            let pre = g@.subrange(from as int, i as int);
            let ext = g@.subrange(from as int, i + 1 as int);
            assert(ext.drop_last() =~= pre);
            assert(ext.last() == g@[i as int]);
        }
        i = i + 1;
    }
}

/// The IPv6 host text for eight groups, with zero-run compression.
fn format_ipv6_host(g: &Vec<u16>) -> (r: String)
    ensures
        r@ == spec_ipv6_host(g@),
{
    let (s, l): (usize, usize) = best_zero_run(g);
    proof {
        lemma_best_run_bounds(g@, 0);
    }
    let mut out = String::new();
    if l < 2 {
        push_join_hex(&mut out, g, 0, g.len());
        proof {
            assert(g@.subrange(0, g@.len() as int) =~= g@);
        }
    } else {
        let n: usize = g.len();
        proof {
            assert(s + l <= n);
        }
        push_join_hex(&mut out, g, 0, s);
        out.append("::");
        push_join_hex(&mut out, g, s + l, n);
        proof {
            reveal_strlit("::");
            assert("::"@ =~= seq![':', ':']);
            assert(g@.subrange(0, s as int) =~= g@.take(s as int));
            assert(g@.subrange(s + l as int, g@.len() as int) =~= g@.skip(s + l as int));
        }
    }
    out
}

/// The host part of the URI for `ip`: dotted decimal, or the bracketed
/// compressed IPv6 form.
pub fn format_host(ip: &IpAddress) -> (r: String)
    ensures
        r@ == spec_host(*ip),
{
    match ip {
        IpAddress::V4 { a, b, c, d } => {
            let mut out = u16_to_dec(*a as u16);
            out.append(".");
            let bs = u16_to_dec(*b as u16);
            out.append(bs.as_str());
            out.append(".");
            let cs = u16_to_dec(*c as u16);
            out.append(cs.as_str());
            out.append(".");
            let ds = u16_to_dec(*d as u16);
            out.append(ds.as_str());
            proof {
                reveal_strlit(".");
                assert("."@ =~= seq!['.']);
            }
            out
        },
        IpAddress::V6 { g0, g1, g2, g3, g4, g5, g6, g7 } => {
            let groups: Vec<u16> = vec![*g0, *g1, *g2, *g3, *g4, *g5, *g6, *g7];
            proof {
                assert(groups@ =~= ip.spec_groups());
            }
            let mut out = String::new();
            out.append("[");
            let host = format_ipv6_host(&groups);
            out.append(host.as_str());
            out.append("]");
            proof {
                reveal_strlit("[");
                reveal_strlit("]");
                assert("["@ =~= seq!['[']);
                assert("]"@ =~= seq![']']);
            }
            out
        },
    }
}

/// The full URI for an endpoint: `scheme "://" host ":" port`.
pub fn format_endpoint_uri(scheme: Scheme, addr: &EndpointAddr) -> (r: String)
    ensures
        r@ == spec_endpoint_uri(scheme, *addr),
{
    let mut out = String::new();
    out.append(scheme.text());
    out.append("://");
    let host = format_host(&addr.ip);
    out.append(host.as_str());
    out.append(":");
    let port = u16_to_dec(addr.port);
    out.append(port.as_str());
    proof {
        reveal_strlit(":");
        assert(":"@ =~= seq![':']);
    }
    out
}

} // verus!
