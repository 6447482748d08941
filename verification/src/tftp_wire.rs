//! TFTP wire format: NUL-terminated option strings, option blocks, and
//! whole packets (RRQ, WRQ, DATA, ACK, ERROR, OACK).

use vstd::prelude::*;

use crate::bytes::{be16, be16_bytes, push_be16, read_be16, subrange_vec};

verus! {

/// TFTP opcodes.
pub const OPCODE_RRQ: u16 = 1;

pub const OPCODE_WRQ: u16 = 2;

pub const OPCODE_DATA: u16 = 3;

pub const OPCODE_ACK: u16 = 4;

pub const OPCODE_ERROR: u16 = 5;

pub const OPCODE_OACK: u16 = 6;

/// Whether `s` holds no NUL byte.
pub open spec fn nul_free(s: Seq<u8>) -> bool {
    forall|i: int| 0 <= i < s.len() ==> s[i] != 0
}

/// Splits the leading NUL-terminated string off `s`: the string (without
/// its terminator) and what follows the terminator. `None` when `s` holds
/// no NUL at all.
pub open spec fn split_cstr(s: Seq<u8>) -> Option<(Seq<u8>, Seq<u8>)>
    decreases s.len(),
{
    if s.len() == 0 {
        None
    } else if s[0] == 0 {
        Some((Seq::<u8>::empty(), s.drop_first()))
    } else {
        match split_cstr(s.drop_first()) {
            None => None,
            Some((a, b)) => Some((seq![s[0]] + a, b)),
        }
    }
}

/// What `split_cstr` yields is the prefix before the first NUL and the
/// suffix after it; the prefix is NUL-free and strictly shorter than `s`.
pub proof fn lemma_split_cstr_shape(s: Seq<u8>)
    requires
        split_cstr(s) is Some,
    ensures
        nul_free(split_cstr(s)->Some_0.0),
        split_cstr(s)->Some_0.0.len() + 1 + split_cstr(s)->Some_0.1.len() == s.len(),
        s == split_cstr(s)->Some_0.0 + seq![0u8] + split_cstr(s)->Some_0.1,
    decreases s.len(),
{
    let (a, b) = split_cstr(s)->Some_0;
    if s[0] == 0 {
        assert(s =~= a + seq![0u8] + b);
    } else {
        lemma_split_cstr_shape(s.drop_first());
        let (a2, b2) = split_cstr(s.drop_first())->Some_0;
        assert(s =~= seq![s[0]] + s.drop_first());
        assert(a =~= seq![s[0]] + a2);
        assert(s =~= a + seq![0u8] + b);
    }
}

/// Splitting recovers exactly the NUL-free string that was encoded in
/// front of the terminator.
pub proof fn lemma_split_cstr_of_encoded(a: Seq<u8>, rest: Seq<u8>)
    requires
        nul_free(a),
    ensures
        split_cstr(a + seq![0u8] + rest) == Some((a, rest)),
    decreases a.len(),
{
    let s = a + seq![0u8] + rest;
    if a.len() == 0 {
        assert(s[0] == 0);
        assert(s.drop_first() =~= rest);
        assert(a =~= Seq::<u8>::empty());
    } else {
        assert(s[0] == a[0]);
        assert(s[0] != 0);
        lemma_split_cstr_of_encoded(a.drop_first(), rest);
        assert(s.drop_first() =~= a.drop_first() + seq![0u8] + rest);
        let (a2, b2) = split_cstr(s.drop_first())->Some_0;
        assert(a2 == a.drop_first() && b2 == rest);
        assert(seq![s[0]] + a2 =~= a);
    }
}

/// One encoded option pair: name, NUL, value, NUL.
pub open spec fn encode_opt_pair(name: Seq<u8>, value: Seq<u8>) -> Seq<u8> {
    name + seq![0u8] + value + seq![0u8]
}

/// An options block: the pairs encoded back to back.
pub open spec fn encode_opts(l: Seq<(Seq<u8>, Seq<u8>)>) -> Seq<u8>
    decreases l.len(),
{
    if l.len() == 0 {
        Seq::<u8>::empty()
    } else {
        encode_opt_pair(l[0].0, l[0].1) + encode_opts(l.drop_first())
    }
}

/// Decodes an options block into its (name, value) pairs; `None` when a
/// string runs off the end of the buffer unterminated.
pub open spec fn decode_opts(s: Seq<u8>) -> Option<Seq<(Seq<u8>, Seq<u8>)>>
    decreases s.len(),
    via decode_opts_decreases
{
    if s.len() == 0 {
        Some(Seq::<(Seq<u8>, Seq<u8>)>::empty())
    } else {
        match split_cstr(s) {
            None => None,
            Some((name, r1)) => match split_cstr(r1) {
                None => None,
                Some((value, r2)) => match decode_opts(r2) {
                    None => None,
                    Some(rest) => Some(seq![(name, value)] + rest),
                },
            },
        }
    }
}

#[via_fn]
proof fn decode_opts_decreases(s: Seq<u8>) {
    if s.len() != 0 {
        match split_cstr(s) {
            None => {},
            Some((name, r1)) => {
                lemma_split_cstr_shape(s);
                match split_cstr(r1) {
                    None => {},
                    Some((value, r2)) => {
                        lemma_split_cstr_shape(r1);
                    },
                }
            },
        }
    }
}

/// Every option name and value in `l` is NUL-free.
pub open spec fn opts_nul_free(l: Seq<(Seq<u8>, Seq<u8>)>) -> bool {
    forall|i: int| 0 <= i < l.len() ==> nul_free(#[trigger] l[i].0) && nul_free(l[i].1)
}

/// Encoding an options block and decoding it again yields the original
/// (name, value) list, in order.
pub proof fn lemma_opts_roundtrip(l: Seq<(Seq<u8>, Seq<u8>)>)
    requires
        opts_nul_free(l),
    ensures
        decode_opts(encode_opts(l)) == Some(l),
    decreases l.len(),
{
    if l.len() == 0 {
        assert(l =~= Seq::<(Seq<u8>, Seq<u8>)>::empty());
    } else {
        let (name, value) = l[0];
        let rest = l.drop_first();
        lemma_opts_roundtrip(rest);
        let s = encode_opts(l);
        assert(s =~= name + seq![0u8] + (value + seq![0u8] + encode_opts(rest)));
        lemma_split_cstr_of_encoded(name, value + seq![0u8] + encode_opts(rest));
        lemma_split_cstr_of_encoded(value, encode_opts(rest));
        if s.len() == 0 {
            assert(name.len() == 0 && value.len() == 0);
            assert(s.len() >= 2);
        }
        assert(seq![(name, value)] + rest =~= l);
    }
}

/// The view of an executable (name, value) list.
pub open spec fn opt_pairs_view(l: Seq<(Vec<u8>, Vec<u8>)>) -> Seq<(Seq<u8>, Seq<u8>)> {
    l.map(|i: int, p: (Vec<u8>, Vec<u8>)| (p.0@, p.1@))
}

/// Appends the encoding of the option pairs to `out`.
pub fn emit_opts(out: &mut Vec<u8>, l: &Vec<(Vec<u8>, Vec<u8>)>)
    ensures
        final(out)@ == old(out)@ + encode_opts(opt_pairs_view(l@)),
{
    let n: usize = l.len();
    let mut i: usize = 0;
    while i < n
        invariant
            n == l@.len(),
            i <= n,
            out@ == old(out)@ + encode_opts(opt_pairs_view(l@).take(i as int)),
        decreases n - i,
    {
        let mut k: usize = 0;
        let name_len: usize = l[i].0.len();
        while k < name_len
            invariant
                i < n == l@.len(),
                name_len == l@[i as int].0@.len(),
                k <= name_len,
                out@ == old(out)@ + encode_opts(opt_pairs_view(l@).take(i as int)) + l@[i as int].0@.take(
                    k as int),
            decreases name_len - k,
        {
            out.push(l[i].0[k]);
            assert(l@[i as int].0@.take(k + 1) =~= l@[i as int].0@.take(k as int) + seq![l@[i as int].0@[k as int]]);
            k += 1;
        }
        out.push(0);
        let mut k: usize = 0;
        let value_len: usize = l[i].1.len();
        while k < value_len
            invariant
                i < n == l@.len(),
                value_len == l@[i as int].1@.len(),
                k <= value_len,
                out@ == old(out)@ + encode_opts(opt_pairs_view(l@).take(i as int)) + l@[i as int].0@
                    + seq![0u8] + l@[i as int].1@.take(k as int),
            decreases value_len - k,
        {
            out.push(l[i].1[k]);
            assert(l@[i as int].1@.take(k + 1) =~= l@[i as int].1@.take(k as int) + seq![l@[i as int].1@[k as int]]);
            k += 1;
        }
        out.push(0);
        proof {
            let lv = opt_pairs_view(l@);
            assert(out@ =~= old(out)@ + (encode_opts(lv.take(i as int)) + encode_opt_pair(
                lv[i as int].0,
                lv[i as int].1,
            )));
            lemma_encode_opts_snoc(lv, i as int);
        }
        i += 1;
    }
    proof {
        assert(opt_pairs_view(l@).take(n as int) =~= opt_pairs_view(l@));
    }
}

/// Encoding one more pair appends its encoding.
proof fn lemma_encode_opts_snoc(l: Seq<(Seq<u8>, Seq<u8>)>, i: int)
    requires
        0 <= i < l.len(),
    ensures
        encode_opts(l.take(i + 1)) == encode_opts(l.take(i)) + encode_opt_pair(l[i].0, l[i].1),
    decreases i,
{
    if i == 0 {
        assert(l.take(1)[0] == l[0]);
        assert(l.take(1).drop_first() =~= l.take(0));
        assert(encode_opts(l.take(0)) =~= Seq::<u8>::empty());
        assert(encode_opts(l.take(1)) =~= encode_opt_pair(l[0].0, l[0].1));
    } else {
        lemma_encode_opts_snoc(l.drop_first(), i - 1);
        assert(l.take(i + 1).drop_first() =~= l.drop_first().take(i));
        assert(l.take(i).drop_first() =~= l.drop_first().take(i - 1));
        assert(l.take(i + 1)[0] == l[0]);
        assert(l.take(i)[0] == l[0]);
        assert(l.drop_first()[i - 1] == l[i]);
        assert(encode_opts(l.take(i + 1)) =~= encode_opt_pair(l[0].0, l[0].1) + encode_opts(
            l.drop_first().take(i),
        ));
        assert(encode_opts(l.take(i)) =~= encode_opt_pair(l[0].0, l[0].1) + encode_opts(
            l.drop_first().take(i - 1),
        ));
        assert(encode_opts(l.take(i + 1)) =~= encode_opts(l.take(i)) + encode_opt_pair(
            l[i].0,
            l[i].1,
        ));
    }
}

/// Scans `v` from `start` for a NUL; the string before it and the
/// position after it, mirroring `split_cstr` on the suffix.
fn take_cstr(v: &Vec<u8>, start: usize) -> (r: Option<(Vec<u8>, usize)>)
    requires
        start <= v@.len(),
    ensures
        match r {
            Some((s, pos)) => {
                &&& start < pos <= v@.len()
                &&& split_cstr(v@.skip(start as int)) == Some((s@, v@.skip(pos as int)))
            },
            None => split_cstr(v@.skip(start as int)) is None,
        },
{
    let n: usize = v.len();
    let mut i: usize = start;
    while i < n
        invariant
            start <= i <= n == v@.len(),
            forall|j: int| start <= j < i ==> v@[j] != 0,
        decreases n - i,
    {
        if v[i] == 0 {
            let s = subrange_vec(v, start, i);
            proof {
                assert(v@.skip(start as int) =~= s@ + seq![0u8] + v@.skip(i + 1));
                lemma_split_cstr_of_encoded(s@, v@.skip(i + 1));
            }
            return Some((s, i + 1));
        }
        i += 1;
    }
    proof {
        lemma_no_nul_split_none(v@.skip(start as int));
    }
    None
}

/// A NUL-free buffer has no leading NUL-terminated string.
proof fn lemma_no_nul_split_none(s: Seq<u8>)
    requires
        nul_free(s),
    ensures
        split_cstr(s) is None,
    decreases s.len(),
{
    if s.len() > 0 {
        lemma_no_nul_split_none(s.drop_first());
    }
}

/// Decodes the whole options block `v[start..]`.
pub fn parse_opts(v: &Vec<u8>, start: usize) -> (r: Option<Vec<(Vec<u8>, Vec<u8>)>>)
    requires
        start <= v@.len(),
    ensures
        match r {
            Some(l) => decode_opts(v@.skip(start as int)) == Some(opt_pairs_view(l@)),
            None => decode_opts(v@.skip(start as int)) is None,
        },
{
    let n: usize = v.len();
    let mut out: Vec<(Vec<u8>, Vec<u8>)> = Vec::new();
    let mut pos: usize = start;
    while pos < n
        invariant
            start <= pos <= n == v@.len(),
            decode_opts(v@.skip(start as int)) == match decode_opts(v@.skip(pos as int)) {
                Some(rest) => Some(opt_pairs_view(out@) + rest),
                None => None::<Seq<(Seq<u8>, Seq<u8>)>>,
            },
        decreases n - pos,
    {
        let name = match take_cstr(v, pos) {
            Some((s, p)) => (s, p),
            None => {
                return None;
            },
        };
        let value = match take_cstr(v, name.1) {
            Some((s, p)) => (s, p),
            None => {
                proof {
                    lemma_split_cstr_shape(v@.skip(pos as int));
                }
                return None;
            },
        };
        proof {
            lemma_split_cstr_shape(v@.skip(pos as int));
            lemma_split_cstr_shape(v@.skip(name.1 as int));
        }
        let ghost old_out = out@;
        out.push((name.0, value.0));
        proof {
            assert(opt_pairs_view(out@) =~= opt_pairs_view(old_out) + seq![(name.0@, value.0@)]);
            if decode_opts(v@.skip(value.1 as int)) is Some {
                let rest = decode_opts(v@.skip(value.1 as int))->Some_0;
                assert(seq![(name.0@, value.0@)] + rest =~= decode_opts(
                    v@.skip(pos as int),
                )->Some_0);
                assert(opt_pairs_view(old_out) + (seq![(name.0@, value.0@)] + rest) =~= opt_pairs_view(
                    out@,
                ) + rest);
            }
        }
        pos = value.1;
    }
    proof {
        assert(v@.skip(n as int) =~= Seq::<u8>::empty());
        assert(opt_pairs_view(out@) + Seq::<(Seq<u8>, Seq<u8>)>::empty() =~= opt_pairs_view(out@));
    }
    Some(out)
}

/// A parsed TFTP packet, at the specification level.
pub enum TftpPacketView {
    ReadRequest { filename: Seq<u8>, mode: Seq<u8>, options: Seq<(Seq<u8>, Seq<u8>)> },
    WriteRequest { filename: Seq<u8>, mode: Seq<u8>, options: Seq<(Seq<u8>, Seq<u8>)> },
    Data { block_num: u16, data: Seq<u8> },
    Ack { block_num: u16 },
    Error { code: u16, message: Seq<u8> },
    OptionAck { options: Seq<(Seq<u8>, Seq<u8>)> },
}

/// A parsed TFTP packet.
#[derive(Debug, PartialEq, Eq)]
pub enum TftpPacket {
    ReadRequest { filename: Vec<u8>, mode: Vec<u8>, options: Vec<(Vec<u8>, Vec<u8>)> },
    WriteRequest { filename: Vec<u8>, mode: Vec<u8>, options: Vec<(Vec<u8>, Vec<u8>)> },
    Data { block_num: u16, data: Vec<u8> },
    Ack { block_num: u16 },
    Error { code: u16, message: Vec<u8> },
    OptionAck { options: Vec<(Vec<u8>, Vec<u8>)> },
}

impl View for TftpPacket {
    type V = TftpPacketView;

    open spec fn view(&self) -> TftpPacketView {
        match self {
            TftpPacket::ReadRequest { filename, mode, options } => TftpPacketView::ReadRequest {
                filename: filename@,
                mode: mode@,
                options: opt_pairs_view(options@),
            },
            TftpPacket::WriteRequest { filename, mode, options } => TftpPacketView::WriteRequest {
                filename: filename@,
                mode: mode@,
                options: opt_pairs_view(options@),
            },
            TftpPacket::Data { block_num, data } => TftpPacketView::Data {
                block_num: *block_num,
                data: data@,
            },
            TftpPacket::Ack { block_num } => TftpPacketView::Ack { block_num: *block_num },
            TftpPacket::Error { code, message } => TftpPacketView::Error {
                code: *code,
                message: message@,
            },
            TftpPacket::OptionAck { options } => TftpPacketView::OptionAck {
                options: opt_pairs_view(options@),
            },
        }
    }
}

/// What a TFTP payload parses to: the opcode picks the arm; a request
/// carries filename, mode and an options block; DATA carries a block
/// number and the rest of the payload; an ACK is exactly four bytes;
/// an ERROR carries a code and one NUL-terminated message.
pub open spec fn parse_packet(s: Seq<u8>) -> Option<TftpPacketView> {
    if s.len() < 2 {
        None
    } else {
        let op = be16(s[0], s[1]);
        if op == OPCODE_RRQ || op == OPCODE_WRQ {
            match split_cstr(s.skip(2)) {
                None => None,
                Some((filename, r1)) => match split_cstr(r1) {
                    None => None,
                    Some((mode, r2)) => match decode_opts(r2) {
                        None => None,
                        Some(options) => Some(
                            if op == OPCODE_RRQ {
                                TftpPacketView::ReadRequest { filename, mode, options }
                            } else {
                                TftpPacketView::WriteRequest { filename, mode, options }
                            },
                        ),
                    },
                },
            }
        } else if op == OPCODE_DATA {
            if s.len() < 4 {
                None
            } else {
                Some(TftpPacketView::Data { block_num: be16(s[2], s[3]), data: s.skip(4) })
            }
        } else if op == OPCODE_ACK {
            if s.len() == 4 {
                Some(TftpPacketView::Ack { block_num: be16(s[2], s[3]) })
            } else {
                None
            }
        } else if op == OPCODE_ERROR {
            if s.len() < 4 {
                None
            } else {
                match split_cstr(s.skip(4)) {
                    Some((message, rest)) => if rest.len() == 0 {
                        Some(TftpPacketView::Error { code: be16(s[2], s[3]), message })
                    } else {
                        None
                    },
                    None => None,
                }
            }
        } else if op == OPCODE_OACK {
            match decode_opts(s.skip(2)) {
                None => None,
                Some(options) => Some(TftpPacketView::OptionAck { options }),
            }
        } else {
            None
        }
    }
}

/// Parses a TFTP payload, exactly as `parse_packet` describes.
pub fn parse_tftp(v: &Vec<u8>) -> (r: Option<TftpPacket>)
    ensures
        match r {
            Some(p) => parse_packet(v@) == Some(p@),
            None => parse_packet(v@) is None,
        },
{
    let n: usize = v.len();
    if n < 2 {
        return None;
    }
    let op = read_be16(v, 0);
    if op == OPCODE_RRQ || op == OPCODE_WRQ {
        let (filename, p1) = match take_cstr(v, 2) {
            Some(r) => r,
            None => {
                return None;
            },
        };
        let (mode, p2) = match take_cstr(v, p1) {
            Some(r) => r,
            None => {
                return None;
            },
        };
        let options = match parse_opts(v, p2) {
            Some(l) => l,
            None => {
                return None;
            },
        };
        if op == OPCODE_RRQ {
            Some(TftpPacket::ReadRequest { filename, mode, options })
        } else {
            Some(TftpPacket::WriteRequest { filename, mode, options })
        }
    } else if op == OPCODE_DATA {
        if n < 4 {
            return None;
        }
        let block_num = read_be16(v, 2);
        let data = subrange_vec(v, 4, n);
        proof {
            assert(v@.subrange(4, n as int) =~= v@.skip(4));
        }
        Some(TftpPacket::Data { block_num, data })
    } else if op == OPCODE_ACK {
        if n != 4 {
            return None;
        }
        Some(TftpPacket::Ack { block_num: read_be16(v, 2) })
    } else if op == OPCODE_ERROR {
        if n < 4 {
            return None;
        }
        let (message, p1) = match take_cstr(v, 4) {
            Some(r) => r,
            None => {
                return None;
            },
        };
        if p1 != n {
            proof {
                lemma_split_cstr_shape(v@.skip(4));
            }
            return None;
        }
        Some(TftpPacket::Error { code: read_be16(v, 2), message })
    } else if op == OPCODE_OACK {
        let options = match parse_opts(v, 2) {
            Some(l) => l,
            None => {
                return None;
            },
        };
        Some(TftpPacket::OptionAck { options })
    } else {
        None
    }
}

/// The bytes of a DATA packet.
pub open spec fn data_packet_bytes(block_num: u16, data: Seq<u8>) -> Seq<u8> {
    be16_bytes(OPCODE_DATA) + be16_bytes(block_num) + data
}

/// The bytes of an ERROR packet.
pub open spec fn error_packet_bytes(code: u16, message: Seq<u8>) -> Seq<u8> {
    be16_bytes(OPCODE_ERROR) + be16_bytes(code) + message + seq![0u8]
}

/// The bytes of an OACK packet.
pub open spec fn oack_packet_bytes(options: Seq<(Seq<u8>, Seq<u8>)>) -> Seq<u8> {
    be16_bytes(OPCODE_OACK) + encode_opts(options)
}

/// Builds a DATA packet.
pub fn emit_data(block_num: u16, data: &Vec<u8>) -> (r: Vec<u8>)
    ensures
        r@ == data_packet_bytes(block_num, data@),
{
    let mut out: Vec<u8> = Vec::new();
    push_be16(&mut out, OPCODE_DATA);
    push_be16(&mut out, block_num);
    let mut i: usize = 0;
    let n: usize = data.len();
    while i < n
        invariant
            i <= n == data@.len(),
            out@ == be16_bytes(OPCODE_DATA) + be16_bytes(block_num) + data@.take(i as int),
        decreases n - i,
    {
        out.push(data[i]);
        assert(data@.take(i + 1) =~= data@.take(i as int) + seq![data@[i as int]]);
        i += 1;
    }
    proof {
        assert(data@.take(n as int) =~= data@);
    }
    out
}

/// Builds an ERROR packet from a NUL-free message.
pub fn emit_error(code: u16, message: &Vec<u8>) -> (r: Vec<u8>)
    ensures
        r@ == error_packet_bytes(code, message@),
{
    let mut out: Vec<u8> = Vec::new();
    push_be16(&mut out, OPCODE_ERROR);
    push_be16(&mut out, code);
    let mut i: usize = 0;
    let n: usize = message.len();
    while i < n
        invariant
            i <= n == message@.len(),
            out@ == be16_bytes(OPCODE_ERROR) + be16_bytes(code) + message@.take(i as int),
        decreases n - i,
    {
        out.push(message[i]);
        assert(message@.take(i + 1) =~= message@.take(i as int) + seq![message@[i as int]]);
        i += 1;
    }
    out.push(0);
    proof {
        assert(message@.take(n as int) =~= message@);
        assert(out@ =~= error_packet_bytes(code, message@));
    }
    out
}

/// Builds an OACK packet.
pub fn emit_oack(options: &Vec<(Vec<u8>, Vec<u8>)>) -> (r: Vec<u8>)
    ensures
        r@ == oack_packet_bytes(opt_pairs_view(options@)),
{
    let mut out: Vec<u8> = Vec::new();
    push_be16(&mut out, OPCODE_OACK);
    emit_opts(&mut out, options);
    out
}

} // verus!
