//! Per-transfer TFTP state: negotiated options, the connection tuple,
//! the file-source capability, and the transfer state machine.

use vstd::prelude::*;

use crate::bytes::{dec_bytes, dec_chars, decimal_string};
use crate::error::Error;
use crate::frame::{build_udp_frame, udp_frame_bytes};
use crate::tftp_wire::{oack_packet_bytes, opt_pairs_view};
use crate::{MAX_RETRIES, RETRY_TIMEOUT_MS};

use vstd::string::StringExecFns;

verus! {

/// The two TFTP options this server negotiates.
#[derive(Debug, Clone, Copy, PartialEq, Eq, Structural, PartialOrd, Ord, Hash)]
pub enum TftpOptionEnum {
    Blksize,
    Tsize,
}

/// The wire name of an option, as bytes.
pub open spec fn option_name_bytes(o: TftpOptionEnum) -> Seq<u8> {
    match o {
        TftpOptionEnum::Blksize => seq![98u8, 108u8, 107u8, 115u8, 105u8, 122u8, 101u8],
        TftpOptionEnum::Tsize => seq![116u8, 115u8, 105u8, 122u8, 101u8],
    }
}

impl TftpOptionEnum {
    /// The wire name of the option ("blksize" or "tsize").
    pub fn name(&self) -> (r: &'static str)
        ensures
            r@ == match self {
                TftpOptionEnum::Blksize => "blksize"@,
                TftpOptionEnum::Tsize => "tsize"@,
            },
            r@.len() > 0,
    {
        proof {
            reveal_strlit("blksize");
            reveal_strlit("tsize");
        }
        match self {
            TftpOptionEnum::Blksize => "blksize",
            TftpOptionEnum::Tsize => "tsize",
        }
    }

    /// The wire name of the option as raw bytes.
    pub fn wire_name(&self) -> (r: Vec<u8>)
        ensures
            r@ == option_name_bytes(*self),
    {
        let mut v: Vec<u8> = Vec::new();
        match self {
            TftpOptionEnum::Blksize => {
                v.push(98);
                v.push(108);
                v.push(107);
                v.push(115);
                v.push(105);
                v.push(122);
                v.push(101);
            },
            TftpOptionEnum::Tsize => {
                v.push(116);
                v.push(115);
                v.push(105);
                v.push(122);
                v.push(101);
            },
        }
        assert(v@ =~= option_name_bytes(*self));
        v
    }
}

/// Classifies a proposed option name; `None` for any name this server
/// does not recognize.
pub fn classify_option_name(name: &Vec<u8>) -> (r: Option<TftpOptionEnum>)
    ensures
        r == if name@ == option_name_bytes(TftpOptionEnum::Blksize) {
            Some(TftpOptionEnum::Blksize)
        } else if name@ == option_name_bytes(TftpOptionEnum::Tsize) {
            Some(TftpOptionEnum::Tsize)
        } else {
            None::<TftpOptionEnum>
        },
{
    let blk = TftpOptionEnum::Blksize.wire_name();
    let tsz = TftpOptionEnum::Tsize.wire_name();
    if crate::bytes::bytes_eq(name, &blk) {
        Some(TftpOptionEnum::Blksize)
    } else if crate::bytes::bytes_eq(name, &tsz) {
        Some(TftpOptionEnum::Tsize)
    } else {
        None
    }
}

/// The negotiated options of one transfer: a small map from
/// `TftpOptionEnum` to its value.
#[derive(Debug, Clone)]
pub struct TftpOptions {
    blksize: Option<usize>,
    tsize: Option<usize>,
}

impl View for TftpOptions {
    type V = Map<TftpOptionEnum, usize>;

    closed spec fn view(&self) -> Map<TftpOptionEnum, usize> {
        let m = Map::<TftpOptionEnum, usize>::empty();
        let m = if self.blksize is Some {
            m.insert(TftpOptionEnum::Blksize, self.blksize->Some_0)
        } else {
            m
        };
        if self.tsize is Some {
            m.insert(TftpOptionEnum::Tsize, self.tsize->Some_0)
        } else {
            m
        }
    }
}

impl TftpOptions {
    /// An empty option set.
    pub fn new() -> (r: Self)
        ensures
            r@ == Map::<TftpOptionEnum, usize>::empty(),
    {
        TftpOptions { blksize: None, tsize: None }
    }

    /// Whether `option` has been set.
    pub fn has(&self, option: TftpOptionEnum) -> (r: bool)
        ensures
            r == self@.contains_key(option),
    {
        match option {
            TftpOptionEnum::Blksize => self.blksize.is_some(),
            TftpOptionEnum::Tsize => self.tsize.is_some(),
        }
    }

    /// Sets `option` to `value`, replacing any earlier value.
    pub fn add(&mut self, option: TftpOptionEnum, value: usize)
        ensures
            final(self)@ == old(self)@.insert(option, value),
    {
        match option {
            TftpOptionEnum::Blksize => {
                self.blksize = Some(value);
            },
            TftpOptionEnum::Tsize => {
                self.tsize = Some(value);
            },
        }
        proof {
            assert(self@ =~= old(self)@.insert(option, value));
        }
    }

    /// The value of `option`, if set.
    pub fn get(&self, option: TftpOptionEnum) -> (r: Option<usize>)
        ensures
            r == if self@.contains_key(option) {
                Some(self@[option])
            } else {
                None::<usize>
            },
    {
        match option {
            TftpOptionEnum::Blksize => self.blksize,
            TftpOptionEnum::Tsize => self.tsize,
        }
    }

    /// The set options as (name, decimal value) strings, in wire-name
    /// order: `blksize` first, then `tsize`.
    pub fn to_str_str(&self) -> (r: Vec<(String, String)>)
        ensures
            r@.len() == (if self@.contains_key(TftpOptionEnum::Blksize) {
                1int
            } else {
                0int
            }) + (if self@.contains_key(TftpOptionEnum::Tsize) {
                1int
            } else {
                0int
            }),
            self@.contains_key(TftpOptionEnum::Blksize) ==> r@[0].0@ == "blksize"@ && r@[0].1@
                == dec_chars(self@[TftpOptionEnum::Blksize] as nat),
            self@.contains_key(TftpOptionEnum::Tsize) ==> r@.last().0@ == "tsize"@ && r@.last().1@
                == dec_chars(self@[TftpOptionEnum::Tsize] as nat),
    {
        let mut r: Vec<(String, String)> = Vec::new();
        if let Some(v) = self.blksize {
            r.push((TftpOptionEnum::Blksize.name().to_owned(), decimal_string(v as u64)));
        }
        if let Some(v) = self.tsize {
            r.push((TftpOptionEnum::Tsize.name().to_owned(), decimal_string(v as u64)));
        }
        r
    }
}

impl Default for TftpOptions {
    /// An empty option set.
    fn default() -> (r: Self)
        ensures
            r@ == Map::<TftpOptionEnum, usize>::empty(),
    {
        TftpOptions::new()
    }
}

/// The immutable six-tuple identifying one TFTP transfer. MAC addresses
/// are held in the low 48 bits of a `u64`.
#[derive(Debug, Clone, Copy, PartialEq, Eq, Structural, Hash)]
pub struct TftpConnection {
    pub server_ip: u32,
    pub server_mac: u64,
    pub client_ip: u32,
    pub client_mac: u64,
    pub server_port: u16,
    pub client_port: u16,
}

impl TftpConnection {
    /// A human-readable `client -> server` rendering of the connection.
    pub fn display_string(&self) -> String {
        let mut s = String::new();
        append_ip(&mut s, self.client_ip);
        s.append(":");
        crate::bytes::append_decimal_chars(&mut s, self.client_port as u64);
        s.append(" -> ");
        append_ip(&mut s, self.server_ip);
        s.append(":");
        crate::bytes::append_decimal_chars(&mut s, self.server_port as u64);
        s
    }
}

/// Appends the dotted-quad rendering of an IPv4 address.
fn append_ip(s: &mut String, ip: u32) {
    crate::bytes::append_decimal_chars(s, (ip / 0x1000000) as u64);
    s.append(".");
    crate::bytes::append_decimal_chars(s, ((ip / 0x10000) % 0x100) as u64);
    s.append(".");
    crate::bytes::append_decimal_chars(s, ((ip / 0x100) % 0x100) as u64);
    s.append(".");
    crate::bytes::append_decimal_chars(s, (ip % 0x100) as u64);
}

/// The frame bytes of a TFTP payload sent unicast from the server to
/// the client of `conn`.
pub open spec fn tftp_frame_bytes(conn: TftpConnection, payload: Seq<u8>) -> Seq<u8> {
    udp_frame_bytes(
        conn.server_mac,
        conn.client_mac,
        conn.server_ip,
        conn.client_ip,
        conn.server_port,
        conn.client_port,
        payload,
    )
}

/// Frames a TFTP payload as a unicast Ethernet/IPv4/UDP packet from the
/// server to the client of `conn`.
pub fn tftp_to_ether_unicast(payload: &Vec<u8>, conn: &TftpConnection) -> (r: Vec<u8>)
    requires
        payload@.len() <= 65507,
    ensures
        r@ == tftp_frame_bytes(*conn, payload@),
{
    build_udp_frame(
        conn.server_mac,
        conn.client_mac,
        conn.server_ip,
        conn.client_ip,
        conn.server_port,
        conn.client_port,
        payload,
    )
}

/// The chunk a read at `pos` yields from contents `c` with block size
/// `blksize`: the next `blksize` bytes, short only at the end.
pub open spec fn next_chunk(c: Seq<u8>, pos: int, blksize: int) -> Seq<u8> {
    c.subrange(
        pos,
        pos + (if blksize <= c.len() - pos {
            blksize
        } else {
            c.len() - pos
        }),
    )
}

/// An open file handle: the capability a transfer reads its file
/// through, modelled by three accessors: `contents`, the bytes it
/// serves; `position`, how far reads have advanced; `last_n`, the
/// length of the chunk the last `read` returned. `read` hands back
/// the next at-most-`len` bytes, short only at the end;
/// `repeat_last_read` re-reads exactly that chunk, for retransmission
/// without buffering; neither may succeed with anything else.
pub trait Handle: Sized {
    /// The bytes this handle serves.
    spec fn contents(&self) -> Seq<u8>;

    /// How many bytes reads have consumed.
    spec fn position(&self) -> nat;

    /// The length of the chunk the last `read` returned.
    spec fn last_n(&self) -> nat;

    /// Position and last-read length stay inside the contents.
    open spec fn inv(&self) -> bool {
        self.last_n() <= self.position() <= self.contents().len()
    }

    fn read(&mut self, len: usize) -> (r: Result<Vec<u8>, Error>)
        ensures
            old(self).inv() ==> final(self).inv(),
            match r {
                Ok(d) => d@.len() <= len && (old(self).inv() ==> {
                    &&& d@ == next_chunk(
                        old(self).contents(),
                        old(self).position() as int,
                        len as int,
                    )
                    &&& final(self).contents() == old(self).contents()
                    &&& final(self).position() == old(self).position() + d@.len()
                    &&& final(self).last_n() == d@.len()
                }),
                Err(_) => true,
            },
    ;

    fn repeat_last_read(&mut self, len: usize) -> (r: Result<Vec<u8>, Error>)
        ensures
            old(self).inv() ==> {
                &&& final(self).inv()
                &&& final(self).contents() == old(self).contents()
                &&& final(self).position() == old(self).position()
                &&& final(self).last_n() == old(self).last_n()
            },
            old(self).inv() && len != old(self).last_n() ==> (r matches Err(e) && e is Generic),
            match r {
                Ok(d) => old(self).inv() ==> d@ == old(self).contents().subrange(
                    old(self).position() - old(self).last_n(),
                    old(self).position() as int,
                ),
                Err(_) => true,
            },
    ;

    fn write(&mut self, buf: &Vec<u8>) -> Result<usize, Error>;
}

/// A fully in-memory file source, the `Handle` used by the engine and
/// the tests: the image bytes, a read position, and the length of the
/// last chunk handed out.
pub struct MemoryHandle {
    data: Vec<u8>,
    pos: usize,
    last_read: usize,
}

impl MemoryHandle {
    /// A handle serving exactly `data`, from position zero.
    pub fn new(data: Vec<u8>) -> (r: Self)
        ensures
            r.inv(),
            r.contents() == data@,
            r.position() == 0,
            r.last_n() == 0,
    {
        MemoryHandle { data, pos: 0, last_read: 0 }
    }
}

impl Handle for MemoryHandle {
    /// The bytes the handle was built over.
    closed spec fn contents(&self) -> Seq<u8> {
        self.data@
    }

    /// The read position inside the buffer.
    closed spec fn position(&self) -> nat {
        self.pos as nat
    }

    /// The length of the last chunk `read` returned.
    closed spec fn last_n(&self) -> nat {
        self.last_read as nat
    }

    /// The next at-most-`len` bytes of the buffer; never fails.
    fn read(&mut self, len: usize) -> (r: Result<Vec<u8>, Error>)
        ensures
            r is Ok,
    {
        let dlen: usize = self.data.len();
        if self.pos > dlen {
            self.pos = dlen;
        }
        let avail: usize = dlen - self.pos;
        let n: usize = if len < avail {
            len
        } else {
            avail
        };
        let chunk = crate::bytes::subrange_vec(&self.data, self.pos, self.pos + n);
        self.pos = self.pos + n;
        self.last_read = n;
        Ok(chunk)
    }

    /// The same bytes the previous `read` returned; only a buffer of
    /// exactly that length is accepted.
    fn repeat_last_read(&mut self, len: usize) -> (r: Result<Vec<u8>, Error>)
        ensures
            old(self).inv() && len == old(self).last_n() ==> r is Ok,
    {
        if len != self.last_read || self.last_read > self.pos || self.pos > self.data.len() {
            return Err(
                Error::Generic("buffer size does not match last read size".to_owned()),
            );
        }
        let chunk = crate::bytes::subrange_vec(&self.data, self.pos - self.last_read, self.pos);
        Ok(chunk)
    }

    /// Unsupported: this server never accepts uploads.
    fn write(&mut self, _buf: &Vec<u8>) -> Result<usize, Error> {
        Err(Error::Generic("write is not supported".to_owned()))
    }
}

/// The block number following `b`: 16-bit, wrapping from 65535 to 1 so
/// the client's next ACK stays unambiguous.
pub open spec fn wrap_inc(b: u16) -> u16 {
    if b == 0xFFFF {
        1u16
    } else {
        (b + 1) as u16
    }
}

/// The (name, decimal value) wire pairs of an accepted option set, in
/// wire-name order: `blksize` first, then `tsize`.
pub open spec fn oack_opts_of(m: Map<TftpOptionEnum, usize>) -> Seq<(Seq<u8>, Seq<u8>)> {
    (if m.contains_key(TftpOptionEnum::Blksize) {
        seq![
            (option_name_bytes(TftpOptionEnum::Blksize), dec_bytes(m[TftpOptionEnum::Blksize] as nat)),
        ]
    } else {
        Seq::<(Seq<u8>, Seq<u8>)>::empty()
    }) + (if m.contains_key(TftpOptionEnum::Tsize) {
        seq![
            (option_name_bytes(TftpOptionEnum::Tsize), dec_bytes(m[TftpOptionEnum::Tsize] as nat)),
        ]
    } else {
        Seq::<(Seq<u8>, Seq<u8>)>::empty()
    })
}

/// An active TFTP transfer: one open file, one connection, the
/// stop-and-wait position, and the retransmission bookkeeping.
/// `block_num` is the block most recently sent (0 before any DATA);
/// `last_len` is the payload length of that DATA; `last_packet` holds
/// the frame bytes last sent, re-emitted on timeout.
pub struct Transfer<H> {
    pub handle: H,
    pub connection: TftpConnection,
    pub is_write: bool,
    pub block_num: u16,
    pub options: TftpOptions,
    pub retries: u8,
    pub timeout: i64,
    pub last_len: usize,
    pub last_packet: Vec<u8>,
}

impl<H: Handle> Transfer<H> {
    /// A transfer is well formed once a block size has been negotiated
    /// (the 512-byte default counts) and its retry counter is in bounds.
    pub open spec fn wf(&self) -> bool {
        &&& self.options@.contains_key(TftpOptionEnum::Blksize)
        &&& 8 <= self.options@[TftpOptionEnum::Blksize] <= 65464
        &&& self.retries <= MAX_RETRIES
    }

    /// A fresh transfer: no DATA sent yet, no retries, first deadline
    /// one retry interval from `now`.
    pub fn new(xfer_idx: H, connection: TftpConnection, is_write: bool, now: i64) -> (r: Self)
        requires
            now <= i64::MAX - RETRY_TIMEOUT_MS,
        ensures
            r.handle == xfer_idx,
            r.connection == connection,
            r.is_write == is_write,
            r.block_num == 0,
            r.options@ == Map::<TftpOptionEnum, usize>::empty(),
            r.retries == 0,
            r.timeout == now + RETRY_TIMEOUT_MS,
            r.last_len == 0,
            r.last_packet@ == Seq::<u8>::empty(),
    {
        Transfer {
            handle: xfer_idx,
            connection,
            options: TftpOptions::new(),
            is_write,
            retries: 0,
            timeout: now + RETRY_TIMEOUT_MS,
            block_num: 0,
            last_len: 0,
            last_packet: Vec::new(),
        }
    }

    /// Pushes the retransmission deadline one interval past `now`,
    /// leaving everything else untouched.
    pub fn reset_timeout(&mut self, now: i64)
        requires
            now <= i64::MAX - RETRY_TIMEOUT_MS,
        ensures
            final(self).timeout == now + RETRY_TIMEOUT_MS,
            final(self).handle == old(self).handle,
            final(self).connection == old(self).connection,
            final(self).is_write == old(self).is_write,
            final(self).block_num == old(self).block_num,
            final(self).options == old(self).options,
            final(self).retries == old(self).retries,
            final(self).last_len == old(self).last_len,
            final(self).last_packet == old(self).last_packet,
    {
        self.timeout = now + RETRY_TIMEOUT_MS;
    }

    /// Handles ACK `ack_block_num`: on the expected ACK reads the next
    /// chunk and returns the framed DATA block; on an ACK for a
    /// different block changes nothing; on the ACK of a short block
    /// signals completion.
    pub fn send_data(&mut self, ack_block_num: u16, now: i64) -> (r: Result<Vec<u8>, Error>)
        requires
            old(self).wf(),
            now <= i64::MAX - RETRY_TIMEOUT_MS,
        ensures
            final(self).wf(),
            final(self).connection == old(self).connection,
            final(self).options == old(self).options,
            final(self).is_write == old(self).is_write,
            old(self).handle.inv() ==> final(self).handle.inv(),
            ack_block_num != old(self).block_num ==> *final(self) == *old(self) && (r matches Err(
                e,
            ) && e matches Error::Tftp(m) && m@ == ack_mismatch_message(
                ack_block_num,
                old(self).block_num,
            )),
            ack_block_num == old(self).block_num && old(self).block_num > 0 && old(self).last_len
                < old(self).options@[TftpOptionEnum::Blksize] ==> *final(self) == *old(self) && (
            r matches Err(e) && e is TftpEndOfFile),
            ack_block_num == old(self).block_num && !(old(self).block_num > 0 && old(
                self,
            ).last_len < old(self).options@[TftpOptionEnum::Blksize]) ==> match r {
                Ok(p) => {
                    &&& final(self).block_num == wrap_inc(old(self).block_num)
                    &&& final(self).retries == 0
                    &&& final(self).timeout == now + RETRY_TIMEOUT_MS
                    &&& final(self).last_len <= old(self).options@[TftpOptionEnum::Blksize]
                    &&& p@ == tftp_frame_bytes(
                        old(self).connection,
                        crate::tftp_wire::data_packet_bytes(
                            wrap_inc(old(self).block_num),
                            final(self).last_packet@.skip(46),
                        ),
                    )
                    &&& final(self).last_packet@ == p@
                    &&& final(self).last_len == p@.len() - 46
                    &&& old(self).handle.inv() ==> {
                        &&& p@ == tftp_frame_bytes(
                            old(self).connection,
                            crate::tftp_wire::data_packet_bytes(
                                wrap_inc(old(self).block_num),
                                next_chunk(
                                    old(self).handle.contents(),
                                    old(self).handle.position() as int,
                                    old(self).options@[TftpOptionEnum::Blksize] as int,
                                ),
                            ),
                        )
                        &&& final(self).handle.contents() == old(self).handle.contents()
                        &&& final(self).last_len == next_chunk(
                            old(self).handle.contents(),
                            old(self).handle.position() as int,
                            old(self).options@[TftpOptionEnum::Blksize] as int,
                        ).len()
                        &&& final(self).handle.position() == old(self).handle.position()
                            + final(self).last_len
                    }
                },
                Err(e) => {
                    &&& e is Tftp
                    &&& final(self).block_num == old(self).block_num
                },
            },
    {
        if ack_block_num != self.block_num {
            let mut m = "tftp: received ack for block ".to_owned();
            crate::bytes::append_decimal_chars(&mut m, ack_block_num as u64);
            m.append(" but expected ");
            crate::bytes::append_decimal_chars(&mut m, self.block_num as u64);
            proof {
                assert(m@ =~= ack_mismatch_message(ack_block_num, self.block_num));
            }
            return Err(Error::Tftp(m));
        }
        let blksize: usize = self.options.get(TftpOptionEnum::Blksize).unwrap();
        if self.block_num > 0 && self.last_len < blksize {
            return Err(Error::TftpEndOfFile);
        }
        self.reset_timeout(now);

        let data = match self.handle.read(blksize) {
            Ok(d) => d,
            Err(_) => {
                return Err(Error::Tftp("tftp: error reading file".to_owned()));
            },
        };

        self.block_num = if self.block_num == 0xFFFF {
            1
        } else {
            self.block_num + 1
        };
        self.retries = 0;
        self.last_len = data.len();

        let payload = crate::tftp_wire::emit_data(self.block_num, &data);
        let packet = tftp_to_ether_unicast(&payload, &self.connection);
        let mut kept: Vec<u8> = Vec::new();
        crate::frame::extend_bytes(&mut kept, &packet);
        self.last_packet = kept;
        proof {
            reveal(crate::frame::udp_frame_bytes);
            assert(packet@.skip(46) =~= data@);
        }
        Ok(packet)
    }

    /// Builds the framed OACK acknowledging this transfer's accepted
    /// options.
    pub fn ack_options(&self) -> (r: Result<Vec<u8>, Error>)
        ensures
            r matches Ok(p) && p@ == tftp_frame_bytes(
                self.connection,
                oack_packet_bytes(oack_opts_of(self.options@)),
            ),
    {
        let mut wire: Vec<(Vec<u8>, Vec<u8>)> = Vec::new();
        if let Some(v) = self.options.get(TftpOptionEnum::Blksize) {
            let mut vb: Vec<u8> = Vec::new();
            crate::bytes::push_decimal(&mut vb, v as u64);
            wire.push((TftpOptionEnum::Blksize.wire_name(), vb));
        }
        if let Some(v) = self.options.get(TftpOptionEnum::Tsize) {
            let mut vb: Vec<u8> = Vec::new();
            crate::bytes::push_decimal(&mut vb, v as u64);
            wire.push((TftpOptionEnum::Tsize.wire_name(), vb));
        }
        proof {
            assert(opt_pairs_view(wire@) =~= oack_opts_of(self.options@));
        }
        let payload = crate::tftp_wire::emit_oack(&wire);
        proof {
            lemma_oack_payload_len(self.options@);
        }
        let packet = tftp_to_ether_unicast(&payload, &self.connection);
        Ok(packet)
    }
}

/// The message `send_data` reports an out-of-order ACK with.
pub open spec fn ack_mismatch_message(ack: u16, expected: u16) -> Seq<char> {
    "tftp: received ack for block "@ + dec_chars(ack as nat) + " but expected "@ + dec_chars(
        expected as nat,
    )
}

/// The block numbers a transfer emits for a run of `n` expected ACKs
/// after block `b`: each ACK advances by exactly one `wrap_inc` step,
/// as `send_data` ensures.
pub open spec fn blocks_after(b: u16, n: nat) -> Seq<u16>
    decreases n,
{
    if n == 0 {
        Seq::<u16>::empty()
    } else {
        seq![wrap_inc(b)] + blocks_after(wrap_inc(b), (n - 1) as nat)
    }
}

/// Block sequencing: below the wrap limit, the DATA blocks emitted for
/// `n` consecutive expected ACKs after block `b` are exactly
/// `b+1, b+2, ..., b+n`, in order, each block number once.
pub proof fn lemma_block_sequencing(b: u16, n: nat)
    requires
        b + n <= 0xFFFF,
    ensures
        blocks_after(b, n).len() == n,
        forall|i: int| 0 <= i < n ==> blocks_after(b, n)[i] == b + i + 1,
        forall|i: int, j: int| 0 <= i < j < n ==> blocks_after(b, n)[i] != blocks_after(b, n)[j],
    decreases n,
{
    if n > 0 {
        lemma_block_sequencing(wrap_inc(b), (n - 1) as nat);
        assert forall|i: int| 0 <= i < n implies blocks_after(b, n)[i] == b + i + 1 by {
            if i > 0 {
                assert(blocks_after(b, n)[i] == blocks_after(wrap_inc(b), (n - 1) as nat)[i - 1]);
            }
        }
    }
}

/// A decimal numeral never runs past 20 digits for a 64-bit value.
proof fn lemma_dec_bytes_len(n: nat, k: nat)
    requires
        k >= 1,
        n < crate::bytes::pow10(k),
    ensures
        dec_bytes(n).len() <= k,
    decreases k,
{
    if n >= 10 {
        assert(crate::bytes::pow10(k) == 10 * crate::bytes::pow10((k - 1) as nat));
        lemma_dec_bytes_len(n / 10, (k - 1) as nat);
    }
}

/// The OACK payload of any option set stays tiny: two short names and
/// two at-most-20-digit numerals.
proof fn lemma_oack_payload_len(m: Map<TftpOptionEnum, usize>)
    ensures
        oack_packet_bytes(oack_opts_of(m)).len() <= 65507,
{
    reveal_with_fuel(crate::tftp_wire::encode_opts, 4);
    reveal_with_fuel(crate::bytes::pow10, 21);
    assert(crate::bytes::pow10(20) == 100000000000000000000);
    if m.contains_key(TftpOptionEnum::Blksize) {
        lemma_dec_bytes_len(m[TftpOptionEnum::Blksize] as nat, 20);
    }
    if m.contains_key(TftpOptionEnum::Tsize) {
        lemma_dec_bytes_len(m[TftpOptionEnum::Tsize] as nat, 20);
    }
}

} // verus!
