//! The exact invocation of the DHCP/DNS helper process.
//!
//! The helper serves the portal's DHCP range, advertises the gateway as
//! router and wildcard DNS target, binds only to the portal's interface,
//! and consults no system configuration.  The argument list is fixed; only
//! the gateway, the DHCP range and the interface name vary with the
//! configuration.

use vstd::prelude::*;
use vstd::utf8::{decode_utf8, encode_utf8, is_ascii_chars};

use crate::config::{Config, Ipv4Address};
use crate::text::{lemma_encode_utf8_concat, string_from_utf8};

verus! {

/// The decimal digits of one octet, one to three characters, no leading
/// zeros.
pub open spec fn spec_dec_chars(n: u8) -> Seq<char> {
    if n < 10 {
        seq![((n + 48) as u8) as char]
    } else if n < 100 {
        seq![(((n / 10) + 48) as u8) as char, (((n % 10) + 48) as u8) as char]
    } else {
        seq![
            (((n / 100) + 48) as u8) as char,
            ((((n / 10) % 10) + 48) as u8) as char,
            (((n % 10) + 48) as u8) as char,
        ]
    }
}

/// Dotted-decimal rendering of an IPv4 address.
pub open spec fn spec_ip_chars(ip: Ipv4Address) -> Seq<char> {
    spec_dec_chars(ip.a) + seq!['.'] + spec_dec_chars(ip.b) + seq!['.'] + spec_dec_chars(ip.c)
        + seq!['.'] + spec_dec_chars(ip.d)
}

/// A sequence of ASCII bytes encodes, char for char, to itself.
proof fn lemma_ascii_bytes_encode(c: Seq<char>, b: Seq<u8>)
    requires
        c.len() == b.len(),
        forall|i: int| 0 <= i < b.len() ==> #[trigger] b[i] < 128 && c[i] == b[i] as char,
    ensures
        encode_utf8(c) == b,
{
    assert(is_ascii_chars(c)) by {
        assert forall|i: int| 0 <= i < c.len() implies '\0' <= #[trigger] c[i] <= '\u{7f}' by {
            assert(b[i] < 128 && c[i] == b[i] as char);
        }
    }
    vstd::utf8::is_ascii_chars_encode_utf8(c);
    assert(encode_utf8(c) =~= b) by {
        assert forall|i: int| 0 <= i < c.len() implies encode_utf8(c)[i] == b[i] by {
            assert(b[i] < 128 && c[i] == b[i] as char);
            assert(encode_utf8(c)[i] == c[i] as u8);
        }
    }
}

/// Append the bytes of `s` to `v`.
fn push_bytes(v: &mut Vec<u8>, s: &[u8])
    ensures
        final(v)@ == old(v)@ + s@,
{
    let n = s.len();
    let mut i: usize = 0;
    while i < n
        invariant
            n == s@.len(),
            i <= n,
            v@ == old(v)@ + s@.take(i as int),
        decreases n - i,
    {
        v.push(s[i]);
        proof {
            assert(v@ =~= old(v)@ + s@.take(i + 1));
        }
        i += 1;
    }
    proof {
        assert(old(v)@ + s@.take(n as int) =~= old(v)@ + s@);
    }
}

/// Append the decimal digits of one octet to `v`, as ASCII bytes.
fn push_dec(v: &mut Vec<u8>, n: u8)
    ensures
        final(v)@ == old(v)@ + encode_utf8(spec_dec_chars(n)),
{
    let ghost v0 = v@;
    if n >= 100 {
        v.push(48 + n / 100);
        v.push(48 + (n / 10) % 10);
        v.push(48 + n % 10);
        proof {
            let b = seq![(48 + n / 100) as u8, (48 + (n / 10) % 10) as u8, (48 + n % 10) as u8];
            lemma_ascii_bytes_encode(spec_dec_chars(n), b);
            assert(v@ =~= v0 + b);
        }
    } else if n >= 10 {
        v.push(48 + n / 10);
        v.push(48 + n % 10);
        proof {
            let b = seq![(48 + n / 10) as u8, (48 + n % 10) as u8];
            lemma_ascii_bytes_encode(spec_dec_chars(n), b);
            assert(v@ =~= v0 + b);
        }
    } else {
        v.push(48 + n);
        proof {
            let b = seq![(48 + n) as u8];
            lemma_ascii_bytes_encode(spec_dec_chars(n), b);
            assert(v@ =~= v0 + b);
        }
    }
}

/// Render an IPv4 address in dotted-decimal notation.
pub fn ip_string(ip: &Ipv4Address) -> (s: String)
    ensures
        s@ == spec_ip_chars(*ip),
{
    let mut v: Vec<u8> = Vec::new();
    push_dec(&mut v, ip.a);
    v.push(46);
    push_dec(&mut v, ip.b);
    v.push(46);
    push_dec(&mut v, ip.c);
    v.push(46);
    push_dec(&mut v, ip.d);
    proof {
        lemma_ascii_bytes_encode(seq!['.'], seq![46u8]);
        let c = spec_ip_chars(*ip);
        lemma_encode_utf8_concat(spec_dec_chars(ip.a), seq!['.']);
        lemma_encode_utf8_concat(spec_dec_chars(ip.a) + seq!['.'], spec_dec_chars(ip.b));
        lemma_encode_utf8_concat(
            spec_dec_chars(ip.a) + seq!['.'] + spec_dec_chars(ip.b),
            seq!['.'],
        );
        lemma_encode_utf8_concat(
            spec_dec_chars(ip.a) + seq!['.'] + spec_dec_chars(ip.b) + seq!['.'],
            spec_dec_chars(ip.c),
        );
        lemma_encode_utf8_concat(
            spec_dec_chars(ip.a) + seq!['.'] + spec_dec_chars(ip.b) + seq!['.'] + spec_dec_chars(
                ip.c,
            ),
            seq!['.'],
        );
        lemma_encode_utf8_concat(
            spec_dec_chars(ip.a) + seq!['.'] + spec_dec_chars(ip.b) + seq!['.'] + spec_dec_chars(
                ip.c,
            ) + seq!['.'],
            spec_dec_chars(ip.d),
        );
        assert(v@ =~= encode_utf8(c));
        vstd::utf8::encode_utf8_valid_utf8(c);
        vstd::utf8::encode_utf8_decode_utf8(c);
    }
    let s = string_from_utf8(&v);
    s.unwrap()
}

/// Concatenate a literal prefix and a suffix into one argument.
fn concat_arg(prefix: &str, suffix: &str) -> (s: String)
    ensures
        s@ == prefix@ + suffix@,
{
    let mut v: Vec<u8> = Vec::new();
    push_bytes(&mut v, prefix.as_bytes());
    push_bytes(&mut v, suffix.as_bytes());
    proof {
        lemma_encode_utf8_concat(prefix@, suffix@);
        assert(v@ =~= encode_utf8(prefix@ + suffix@));
        vstd::utf8::encode_utf8_valid_utf8(prefix@ + suffix@);
        vstd::utf8::encode_utf8_decode_utf8(prefix@ + suffix@);
    }
    let s = string_from_utf8(&v);
    s.unwrap()
}

/// The fixed helper invocation: wildcard-domain address mapping to the
/// gateway, the configured DHCP range, router option = gateway, bound to
/// the resolved interface, foreground mode, interface-bound only, loopback
/// excluded, no default configuration or hosts files consulted.
pub open spec fn spec_dnsmasq_args(c: crate::config::ConfigView, interface: Seq<char>) -> Seq<
    Seq<char>,
> {
    seq![
        "--address=/#/"@ + spec_ip_chars(c.gateway),
        "--dhcp-range="@ + c.dhcp_range,
        "--dhcp-option=option:router,"@ + spec_ip_chars(c.gateway),
        "--interface="@ + interface,
        "--keep-in-foreground"@,
        "--bind-interfaces"@,
        "--except-interface=lo"@,
        "--conf-file"@,
        "--no-hosts"@,
    ]
}

/// Build the helper's argument list for this configuration and interface.
pub fn dnsmasq_arguments(config: &Config, interface: &str) -> (args: Vec<String>)
    ensures
        args.deep_view() == spec_dnsmasq_args(config@, interface@),
{
    let gateway = ip_string(&config.gateway);
    let mut args: Vec<String> = Vec::new();
    args.push(concat_arg("--address=/#/", gateway.as_str()));
    args.push(concat_arg("--dhcp-range=", config.dhcp_range.as_str()));
    args.push(concat_arg("--dhcp-option=option:router,", gateway.as_str()));
    args.push(concat_arg("--interface=", interface));
    args.push("--keep-in-foreground".to_owned());
    args.push("--bind-interfaces".to_owned());
    args.push("--except-interface=lo".to_owned());
    args.push("--conf-file".to_owned());
    args.push("--no-hosts".to_owned());
    proof {
        assert(args.deep_view() =~= spec_dnsmasq_args(config@, interface@));
    }
    args
}

} // verus!
