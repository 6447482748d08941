//! Ethernet II / IPv4 / UDP framing for outbound packets, with the
//! Internet checksum computed for both the IPv4 header and UDP.

use vstd::prelude::*;

use crate::bytes::{be16, be16_bytes, be32_bytes, push_be16, push_be32};

verus! {

/// The IPv4 time-to-live of every frame this server emits.
pub const IP_TTL: u8 = 128;

/// The six big-endian bytes of a MAC address held in the low 48 bits
/// of a `u64`.
pub open spec fn mac_bytes(m: u64) -> Seq<u8> {
    seq![
        ((m / 0x10000000000) % 0x100) as u8,
        ((m / 0x100000000) % 0x100) as u8,
        ((m / 0x1000000) % 0x100) as u8,
        ((m / 0x10000) % 0x100) as u8,
        ((m / 0x100) % 0x100) as u8,
        (m % 0x100) as u8,
    ]
}

/// Appends the six big-endian bytes of a MAC address.
pub fn push_mac(out: &mut Vec<u8>, m: u64)
    ensures
        final(out)@ == old(out)@ + mac_bytes(m),
{
    out.push(((m / 0x10000000000) % 0x100) as u8);
    out.push(((m / 0x100000000) % 0x100) as u8);
    out.push(((m / 0x1000000) % 0x100) as u8);
    out.push(((m / 0x10000) % 0x100) as u8);
    out.push(((m / 0x100) % 0x100) as u8);
    out.push((m % 0x100) as u8);
    assert(out@ =~= old(out)@ + mac_bytes(m));
}

/// The 48-bit value stored big-endian in the six bytes of `s`.
pub open spec fn be48(s: Seq<u8>) -> u64 {
    (s[0] as u64 * 0x10000000000 + s[1] as u64 * 0x100000000 + s[2] as u64 * 0x1000000 + s[3] as u64
        * 0x10000 + s[4] as u64 * 0x100 + s[5] as u64) as u64
}

/// Reads the big-endian 48-bit MAC address at offset `i`.
pub fn read_mac48(v: &Vec<u8>, i: usize) -> (r: u64)
    requires
        i + 6 <= v@.len(),
    ensures
        r == be48(v@.subrange(i as int, i + 6)),
{
    let n: usize = v.len();
    let r = v[i] as u64 * 0x10000000000 + v[i + 1] as u64 * 0x100000000 + v[i + 2] as u64
        * 0x1000000 + v[i + 3] as u64 * 0x10000 + v[i + 4] as u64 * 0x100 + v[i + 5] as u64;
    proof {
        let s = v@.subrange(i as int, i + 6);
        assert(s[0] == v@[i as int] && s[1] == v@[i + 1] && s[2] == v@[i + 2] && s[3] == v@[i + 3]
            && s[4] == v@[i + 4] && s[5] == v@[i + 5]);
    }
    r
}

/// The sum of the big-endian 16-bit words of `s`, an odd trailing byte
/// padded with a zero low byte; plain addition, carries not yet folded.
pub open spec fn word_sum(s: Seq<u8>) -> nat
    decreases s.len(),
{
    if s.len() == 0 {
        0
    } else if s.len() == 1 {
        s[0] as nat * 256
    } else {
        (be16(s[0], s[1]) + word_sum(s.skip(2))) as nat
    }
}

/// End-around carry folding of a ones'-complement accumulator.
pub open spec fn fold16(n: nat) -> nat
    decreases n,
    via fold16_decreases
{
    if n < 0x10000 {
        n
    } else {
        fold16((n / 0x10000 + n % 0x10000) as nat)
    }
}

#[via_fn]
proof fn fold16_decreases(n: nat) {
    if n >= 0x10000 {
        assert(n / 0x10000 + n % 0x10000 < n) by (nonlinear_arith)
            requires
                n >= 0x10000,
        ;
    }
}

/// The Internet checksum of `s`: the complement of the end-around-carry
/// sum of its 16-bit words.
pub open spec fn checksum_of(s: Seq<u8>) -> u16 {
    (0xFFFF - fold16(word_sum(s))) as u16
}

/// The folded accumulator is always below `2^16`.
pub proof fn lemma_fold16_bound(n: nat)
    ensures
        fold16(n) < 0x10000,
    decreases n,
{
    if n >= 0x10000 {
        assert(n / 0x10000 + n % 0x10000 < n) by (nonlinear_arith)
            requires
                n >= 0x10000,
        ;
        lemma_fold16_bound((n / 0x10000 + n % 0x10000) as nat);
    }
}

/// Computes the Internet checksum of `v`, exactly `checksum_of`.
pub fn checksum(v: &Vec<u8>) -> (r: u16)
    requires
        v@.len() <= 0x20000,
    ensures
        r == checksum_of(v@),
{
    let n: usize = v.len();
    let mut sum: u64 = 0;
    let mut i: usize = 0;
    proof {
        assert(v@.skip(0) =~= v@);
    }
    while i + 2 <= n
        invariant
            i <= n == v@.len(),
            n <= 0x20000,
            i % 2 == 0,
            sum <= 0xFFFF * i,
            sum + word_sum(v@.skip(i as int)) == word_sum(v@),
        decreases n - i,
    {
        proof {
            assert(v@.skip(i as int).skip(2) =~= v@.skip(i + 2));
            assert(v@.skip(i as int)[0] == v@[i as int]);
            assert(v@.skip(i as int)[1] == v@[i + 1]);
        }
        sum = sum + (v[i] as u64 * 256 + v[i + 1] as u64);
        i += 2;
    }
    if i < n {
        proof {
            assert(v@.skip(i as int).len() == 1);
            assert(v@.skip(i as int)[0] == v@[i as int]);
        }
        sum = sum + v[i] as u64 * 256;
        i += 1;
        assert(v@.skip(i as int).len() == 0);
    }
    assert(sum == word_sum(v@));
    while sum >= 0x10000
        invariant
            fold16(sum as nat) == fold16(word_sum(v@)),
        decreases sum,
    {
        proof {
            assert(sum / 0x10000 + sum % 0x10000 < sum) by (nonlinear_arith)
                requires
                    sum >= 0x10000,
            ;
        }
        sum = sum / 0x10000 + sum % 0x10000;
    }
    0xFFFFu16 - (sum as u16)
}

/// The 20 IPv4 header bytes: version 4, header length 5, no options,
/// identification 0, no fragmentation, TTL 128, protocol UDP, and the
/// given checksum field.
pub open spec fn ipv4_header_bytes(src_ip: u32, dst_ip: u32, total_len: u16, cksum: u16) -> Seq<
    u8,
> {
    seq![0x45u8, 0x00u8] + be16_bytes(total_len) + seq![0u8, 0u8, 0u8, 0u8, IP_TTL, 17u8]
        + be16_bytes(cksum) + be32_bytes(src_ip) + be32_bytes(dst_ip)
}

/// The checksum an IPv4 header carries: computed over the header with a
/// zero checksum field.
pub open spec fn ipv4_header_checksum(src_ip: u32, dst_ip: u32, total_len: u16) -> u16 {
    checksum_of(ipv4_header_bytes(src_ip, dst_ip, total_len, 0))
}

/// The UDP pseudo-header the UDP checksum is computed over.
pub open spec fn udp_pseudo_bytes(src_ip: u32, dst_ip: u32, udp_len: u16) -> Seq<u8> {
    be32_bytes(src_ip) + be32_bytes(dst_ip) + seq![0u8, 17u8] + be16_bytes(udp_len)
}

/// The 8 UDP header bytes.
pub open spec fn udp_header_bytes(src_port: u16, dst_port: u16, udp_len: u16, cksum: u16) -> Seq<
    u8,
> {
    be16_bytes(src_port) + be16_bytes(dst_port) + be16_bytes(udp_len) + be16_bytes(cksum)
}

/// The transmitted UDP checksum: computed over pseudo-header, header
/// with zero checksum, and payload; a zero result is sent as `0xFFFF`.
pub open spec fn udp_checksum(
    src_ip: u32,
    dst_ip: u32,
    src_port: u16,
    dst_port: u16,
    payload: Seq<u8>,
) -> u16 {
    let udp_len = (payload.len() + 8) as u16;
    let c = checksum_of(
        udp_pseudo_bytes(src_ip, dst_ip, udp_len) + udp_header_bytes(src_port, dst_port, udp_len, 0)
            + payload,
    );
    if c == 0 {
        0xFFFF
    } else {
        c
    }
}

/// A whole outbound frame: Ethernet II header, IPv4 header, UDP header,
/// payload, with both checksums filled in.
#[verifier::opaque]
pub open spec fn udp_frame_bytes(
    src_mac: u64,
    dst_mac: u64,
    src_ip: u32,
    dst_ip: u32,
    src_port: u16,
    dst_port: u16,
    payload: Seq<u8>,
) -> Seq<u8> {
    let total_len = (payload.len() + 28) as u16;
    let udp_len = (payload.len() + 8) as u16;
    mac_bytes(dst_mac) + mac_bytes(src_mac) + seq![0x08u8, 0x00u8] + ipv4_header_bytes(
        src_ip,
        dst_ip,
        total_len,
        ipv4_header_checksum(src_ip, dst_ip, total_len),
    ) + udp_header_bytes(
        src_port,
        dst_port,
        udp_len,
        udp_checksum(src_ip, dst_ip, src_port, dst_port, payload),
    ) + payload
}

/// Appends every byte of `src` to `out`.
pub fn extend_bytes(out: &mut Vec<u8>, src: &Vec<u8>)
    ensures
        final(out)@ == old(out)@ + src@,
{
    let n: usize = src.len();
    let mut i: usize = 0;
    while i < n
        invariant
            i <= n == src@.len(),
            out@ == old(out)@ + src@.take(i as int),
        decreases n - i,
    {
        out.push(src[i]);
        assert(src@.take(i + 1) =~= src@.take(i as int) + seq![src@[i as int]]);
        i += 1;
    }
    proof {
        assert(src@.take(n as int) =~= src@);
    }
}

/// Builds the outbound Ethernet/IPv4/UDP frame around `payload`,
/// exactly as `udp_frame_bytes` describes.
pub fn build_udp_frame(
    src_mac: u64,
    dst_mac: u64,
    src_ip: u32,
    dst_ip: u32,
    src_port: u16,
    dst_port: u16,
    payload: &Vec<u8>,
) -> (r: Vec<u8>)
    requires
        payload@.len() <= 65507,
    ensures
        r@ == udp_frame_bytes(src_mac, dst_mac, src_ip, dst_ip, src_port, dst_port, payload@),
{
    let total_len: u16 = (payload.len() + 28) as u16;
    let udp_len: u16 = (payload.len() + 8) as u16;

    // IPv4 header with a zero checksum field, to compute the checksum over.
    let mut ip0: Vec<u8> = Vec::new();
    ip0.push(0x45);
    ip0.push(0x00);
    push_be16(&mut ip0, total_len);
    ip0.push(0);
    ip0.push(0);
    ip0.push(0);
    ip0.push(0);
    ip0.push(IP_TTL);
    ip0.push(17);
    push_be16(&mut ip0, 0);
    push_be32(&mut ip0, src_ip);
    push_be32(&mut ip0, dst_ip);
    assert(ip0@ =~= ipv4_header_bytes(src_ip, dst_ip, total_len, 0));
    let ip_cksum = checksum(&ip0);

    // Pseudo-header + UDP header with zero checksum + payload.
    let mut ps: Vec<u8> = Vec::new();
    push_be32(&mut ps, src_ip);
    push_be32(&mut ps, dst_ip);
    ps.push(0);
    ps.push(17);
    push_be16(&mut ps, udp_len);
    push_be16(&mut ps, src_port);
    push_be16(&mut ps, dst_port);
    push_be16(&mut ps, udp_len);
    push_be16(&mut ps, 0);
    extend_bytes(&mut ps, payload);
    assert(ps@ =~= udp_pseudo_bytes(src_ip, dst_ip, udp_len) + udp_header_bytes(
        src_port,
        dst_port,
        udp_len,
        0,
    ) + payload@);
    let c = checksum(&ps);
    let udp_cksum: u16 = if c == 0 {
        0xFFFF
    } else {
        c
    };

    let mut out: Vec<u8> = Vec::new();
    push_mac(&mut out, dst_mac);
    push_mac(&mut out, src_mac);
    out.push(0x08);
    out.push(0x00);
    ip0.set(10, (ip_cksum / 256) as u8);
    ip0.set(11, (ip_cksum % 256) as u8);
    assert(ip0@ =~= ipv4_header_bytes(src_ip, dst_ip, total_len, ip_cksum));
    extend_bytes(&mut out, &ip0);
    push_be16(&mut out, src_port);
    push_be16(&mut out, dst_port);
    push_be16(&mut out, udp_len);
    push_be16(&mut out, udp_cksum);
    extend_bytes(&mut out, payload);
    proof {
        reveal(udp_frame_bytes);
        assert(out@ =~= udp_frame_bytes(
            src_mac,
            dst_mac,
            src_ip,
            dst_ip,
            src_port,
            dst_port,
            payload@,
        ));
    }
    out
}

} // verus!
