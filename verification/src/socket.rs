//! The top-level PXE engine: it owns the server identity, the two boot
//! images, and the live TFTP transfers, and routes every inbound frame
//! to the DHCP or TFTP path.

use vstd::prelude::*;

use crate::bytes::{be16, be32, bytes_eq, dec_val, is_dec_digits, parse_decimal, subrange_vec};
use crate::error::Error;
use crate::tftp_state::{
    next_chunk, oack_opts_of, option_name_bytes, tftp_frame_bytes, tftp_to_ether_unicast,
    wrap_inc, Handle, MemoryHandle, TftpConnection, TftpOptionEnum, TftpOptions, Transfer,
};
use crate::tftp_wire::{
    data_packet_bytes, error_packet_bytes, oack_packet_bytes, opt_pairs_view,
};
use crate::{MAX_RETRIES, RETRY_TIMEOUT_MS, TFTP_PORT};

verus! {

/// The default TFTP block size when the client negotiates none.
pub const DEFAULT_BLKSIZE: usize = 512;

/// The largest block size this server grants.
pub const MAX_BLKSIZE: usize = 1468;

/// The bytes of the TFTP mode string "octet".
pub open spec fn octet_bytes() -> Seq<u8> {
    seq![111u8, 99u8, 116u8, 101u8, 116u8]
}

/// The bytes of "File not found".
pub open spec fn file_not_found_bytes() -> Seq<u8> {
    seq![
        70u8, 105u8, 108u8, 101u8, 32u8, 110u8, 111u8, 116u8, 32u8, 102u8, 111u8, 117u8, 110u8,
        100u8,
    ]
}

/// The bytes of "Illegal operation".
pub open spec fn illegal_operation_bytes() -> Seq<u8> {
    seq![
        73u8, 108u8, 108u8, 101u8, 103u8, 97u8, 108u8, 32u8, 111u8, 112u8, 101u8, 114u8, 97u8,
        116u8, 105u8, 111u8, 110u8,
    ]
}

/// What one proposed option does to the accepted set: a valid decimal
/// `blksize` of at least 8 is granted, clamped to the server maximum;
/// `tsize 0` is answered with the real file size; everything else is
/// dropped.
pub open spec fn accept_step(
    m: Map<TftpOptionEnum, usize>,
    name: Seq<u8>,
    value: Seq<u8>,
    fsize: usize,
) -> Map<TftpOptionEnum, usize> {
    if name == option_name_bytes(TftpOptionEnum::Blksize) && is_dec_digits(value) && value.len()
        <= 18 {
        if dec_val(value) < 8 {
            m
        } else if dec_val(value) > MAX_BLKSIZE {
            m.insert(TftpOptionEnum::Blksize, MAX_BLKSIZE)
        } else {
            m.insert(TftpOptionEnum::Blksize, dec_val(value) as usize)
        }
    } else if name == option_name_bytes(TftpOptionEnum::Tsize) && is_dec_digits(value)
        && value.len() <= 18 && dec_val(value) == 0 {
        m.insert(TftpOptionEnum::Tsize, fsize)
    } else {
        m
    }
}

/// The options granted for a proposal list, later proposals winning.
pub open spec fn accept_opts(l: Seq<(Seq<u8>, Seq<u8>)>, fsize: usize) -> Map<
    TftpOptionEnum,
    usize,
>
    decreases l.len(),
{
    if l.len() == 0 {
        Map::<TftpOptionEnum, usize>::empty()
    } else {
        accept_step(accept_opts(l.drop_last(), fsize), l.last().0, l.last().1, fsize)
    }
}

/// Grants options for a proposal list, exactly as `accept_opts`.
pub fn accept_options(l: &Vec<(Vec<u8>, Vec<u8>)>, fsize: usize) -> (r: TftpOptions)
    ensures
        r@ == accept_opts(opt_pairs_view(l@), fsize),
        r@.contains_key(TftpOptionEnum::Blksize) ==> 8 <= r@[TftpOptionEnum::Blksize]
            <= MAX_BLKSIZE,
        r@.contains_key(TftpOptionEnum::Tsize) ==> r@[TftpOptionEnum::Tsize] == fsize,
{
    let n: usize = l.len();
    let mut r = TftpOptions::new();
    let mut i: usize = 0;
    proof {
        assert(opt_pairs_view(l@).take(0) =~= Seq::<(Seq<u8>, Seq<u8>)>::empty());
    }
    while i < n
        invariant
            i <= n == l@.len(),
            r@ == accept_opts(opt_pairs_view(l@).take(i as int), fsize),
            r@.contains_key(TftpOptionEnum::Blksize) ==> 8 <= r@[TftpOptionEnum::Blksize]
                <= MAX_BLKSIZE,
            r@.contains_key(TftpOptionEnum::Tsize) ==> r@[TftpOptionEnum::Tsize] == fsize,
        decreases n - i,
    {
        let ghost lv = opt_pairs_view(l@);
        proof {
            assert(lv.take(i + 1).drop_last() =~= lv.take(i as int));
            assert(lv.take(i + 1).last() == lv[i as int]);
        }
        proof {
            if is_dec_digits(l@[i as int].1@) && l@[i as int].1@.len() <= 18 {
                crate::bytes::lemma_dec_val_bound(l@[i as int].1@, l@[i as int].1@.len());
                crate::bytes::lemma_pow10_monotonic(l@[i as int].1@.len(), 18);
                reveal_with_fuel(crate::bytes::pow10, 20);
                assert(crate::bytes::pow10(18) == 1000000000000000000);
            }
        }
        match crate::tftp_state::classify_option_name(&l[i].0) {
            Some(TftpOptionEnum::Blksize) => {
                match parse_decimal(&l[i].1) {
                    Some(v) => {
                        if v >= 8 {
                            if v > MAX_BLKSIZE as u64 {
                                r.add(TftpOptionEnum::Blksize, MAX_BLKSIZE);
                            } else {
                                r.add(TftpOptionEnum::Blksize, v as usize);
                            }
                        }
                    },
                    None => {},
                }
            },
            Some(TftpOptionEnum::Tsize) => {
                match parse_decimal(&l[i].1) {
                    Some(v) => {
                        if v == 0 {
                            r.add(TftpOptionEnum::Tsize, fsize);
                        }
                    },
                    None => {},
                }
            },
            None => {},
        }
        i += 1;
    }
    proof {
        assert(opt_pairs_view(l@).take(n as int) =~= opt_pairs_view(l@));
    }
    r
}

/// The index of the transfer owning connection `c`, if any.
pub open spec fn find_transfer(ts: Seq<Transfer<MemoryHandle>>, c: TftpConnection) -> Option<int>
    decreases ts.len(),
{
    if ts.len() == 0 {
        None
    } else if ts[0].connection == c {
        Some(0)
    } else {
        match find_transfer(ts.drop_first(), c) {
            Some(i) => Some(i + 1),
            None => None,
        }
    }
}

/// What `find_transfer` yields is a real index for `c`, and `None`
/// means no transfer has `c`.
pub proof fn lemma_find_transfer(ts: Seq<Transfer<MemoryHandle>>, c: TftpConnection)
    ensures
        match find_transfer(ts, c) {
            Some(i) => 0 <= i < ts.len() && ts[i].connection == c,
            None => forall|i: int| 0 <= i < ts.len() ==> (#[trigger] ts[i]).connection != c,
        },
    decreases ts.len(),
{
    if ts.len() > 0 && ts[0].connection != c {
        lemma_find_transfer(ts.drop_first(), c);
        match find_transfer(ts.drop_first(), c) {
            Some(i) => {
                assert(ts.drop_first()[i] == ts[i + 1]);
            },
            None => {
                assert forall|i: int| 0 <= i < ts.len() implies (#[trigger] ts[i]).connection
                    != c by {
                    if i > 0 {
                        assert(ts.drop_first()[i - 1] == ts[i]);
                    }
                }
            },
        }
    }
}

/// The top-level PXE engine.
///
/// It listens on one well-known TFTP port for the whole life of every
/// transfer; transfers are told apart by the client's address and
/// port. Boot images are held in memory; `kernel_clients` lists the
/// MAC of every client whose last DHCP exchange reported iPXE
/// firmware and which may therefore fetch the kernel image.
pub struct PxeSocket {
    pub server_ip: u32,
    pub server_mac: u64,
    pub ipxe_name: Vec<u8>,
    pub kernel_name: Vec<u8>,
    pub ipxe_image: Vec<u8>,
    pub kernel_image: Vec<u8>,
    pub kernel_clients: Vec<u64>,
    pub transfers: Vec<Transfer<MemoryHandle>>,
}

impl PxeSocket {
    /// Every live transfer is well formed and no two share a
    /// connection.
    pub open spec fn wf(&self) -> bool {
        &&& self.ipxe_name@.len() <= 127
        &&& self.kernel_name@.len() <= 127
        &&& forall|i: int|
            0 <= i < self.transfers@.len() ==> (#[trigger] self.transfers@[i]).wf()
        &&& forall|i: int|
            0 <= i < self.transfers@.len() ==> (#[trigger] self.transfers@[i]).handle.inv()
        &&& forall|i: int, j: int|
            0 <= i < j < self.transfers@.len() ==> (#[trigger] self.transfers@[i]).connection != (
            #[trigger] self.transfers@[j]).connection
    }

    /// A fresh engine with no live transfers.
    pub fn new(
        server_ip: u32,
        server_mac: u64,
        ipxe_name: Vec<u8>,
        kernel_name: Vec<u8>,
        ipxe_image: Vec<u8>,
        kernel_image: Vec<u8>,
    ) -> (r: PxeSocket)
        requires
            ipxe_name@.len() <= 127,
            kernel_name@.len() <= 127,
        ensures
            r.wf(),
            r.server_ip == server_ip,
            r.server_mac == server_mac,
            r.ipxe_name == ipxe_name,
            r.kernel_name == kernel_name,
            r.ipxe_image == ipxe_image,
            r.kernel_image == kernel_image,
            r.kernel_clients@.len() == 0,
            r.transfers@.len() == 0,
    {
        PxeSocket {
            server_ip,
            server_mac,
            ipxe_name,
            kernel_name,
            ipxe_image,
            kernel_image,
            kernel_clients: Vec::new(),
            transfers: Vec::new(),
        }
    }

    /// Whether `conn` may fetch the file called `filename`, and which
    /// image that is: the iPXE image for its advertised name, the
    /// kernel image only after this client's iPXE stage.
    pub open spec fn file_for(&self, conn: TftpConnection, filename: Seq<u8>) -> Option<Seq<u8>> {
        if filename == self.ipxe_name@ {
            Some(self.ipxe_image@)
        } else if filename == self.kernel_name@ && self.kernel_clients@.contains(conn.client_mac) {
            Some(self.kernel_image@)
        } else {
            None
        }
    }

    /// Handles an inbound RRQ: picks the file, grants options, creates
    /// the transfer, and answers with an OACK exactly when the request
    /// carried granted options, else directly with DATA block 1.
    #[verifier::rlimit(100)]
    pub fn process_tftp_rrq(
        &mut self,
        conn: TftpConnection,
        filename: &Vec<u8>,
        mode: &Vec<u8>,
        options: &Vec<(Vec<u8>, Vec<u8>)>,
        now: i64,
    ) -> (r: Result<Vec<u8>, Error>)
        requires
            old(self).wf(),
            conn.server_ip == old(self).server_ip,
            conn.server_mac == old(self).server_mac,
            now <= i64::MAX - RETRY_TIMEOUT_MS,
        ensures
            final(self).wf(),
            final(self).server_ip == old(self).server_ip,
            final(self).server_mac == old(self).server_mac,
            final(self).ipxe_name == old(self).ipxe_name,
            final(self).kernel_name == old(self).kernel_name,
            final(self).ipxe_image == old(self).ipxe_image,
            final(self).kernel_image == old(self).kernel_image,
            final(self).kernel_clients == old(self).kernel_clients,
            // A second RRQ on a live connection changes nothing.
            find_transfer(old(self).transfers@, conn) is Some ==> *final(self) == *old(self) && (
            r matches Err(e) && e is Ignore),
            // A mode other than octet: error 0, no transfer.
            find_transfer(old(self).transfers@, conn) is None && mode@ != octet_bytes()
                ==> final(self).transfers == old(self).transfers && (r matches Ok(p) && p@
                == tftp_frame_bytes(conn, error_packet_bytes(0, octet_only_bytes()))),
            // An unknown or not-yet-allowed file: error 1, no transfer.
            find_transfer(old(self).transfers@, conn) is None && mode@ == octet_bytes() && old(self).file_for(conn, filename@) is None ==> final(self).transfers == old(self).transfers
                && (r matches Ok(p) && p@ == tftp_frame_bytes(
                conn,
                error_packet_bytes(1, file_not_found_bytes()),
            )),
            // The served case with granted options: the OACK is owed
            // (nothing outside decides this path), and a waiting
            // transfer is added.
            find_transfer(old(self).transfers@, conn) is None && mode@ == octet_bytes() ==> (old(self).file_for(conn, filename@) matches Some(image) ==> {
                &&& accept_opts(opt_pairs_view(options@), image.len() as usize) != Map::<
                    TftpOptionEnum,
                    usize,
                >::empty() ==> match r {
                    Ok(p) => {
                        &&& p@ == tftp_frame_bytes(
                            conn,
                            oack_packet_bytes(
                                oack_opts_of(
                                    accept_opts(opt_pairs_view(options@), image.len() as usize),
                                ),
                            ),
                        )
                        &&& final(self).transfers@.len() == old(self).transfers@.len() + 1
                        &&& final(self).transfers@.take(old(self).transfers@.len() as int) == old(self).transfers@
                        &&& final(self).transfers@.last().connection == conn
                        &&& final(self).transfers@.last().block_num == 0
                        &&& final(self).transfers@.last().handle.contents() == image
                        &&& final(self).transfers@.last().handle.position() == 0
                    },
                    Err(e) => false,
                }
                // Without granted options: DATA block 1 carrying the
                // first chunk of the image, or, if the read capability
                // failed, a TFTP error and no transfer.
                &&& accept_opts(opt_pairs_view(options@), image.len() as usize) == Map::<
                    TftpOptionEnum,
                    usize,
                >::empty() ==> match r {
                    Ok(p) => {
                        ||| (p@ == tftp_frame_bytes(
                            conn,
                            data_packet_bytes(
                                1,
                                crate::tftp_state::next_chunk(image, 0, DEFAULT_BLKSIZE as int),
                            ),
                        ) && final(self).transfers@.len() == old(self).transfers@.len() + 1
                            && final(self).transfers@.take(old(self).transfers@.len() as int)
                            == old(self).transfers@
                            && final(self).transfers@.last().connection == conn
                            && final(self).transfers@.last().block_num == 1
                            && final(self).transfers@.last().handle.contents() == image
                            && final(self).transfers@.last().handle.position() == crate::tftp_state::next_chunk(
                            image,
                            0,
                            DEFAULT_BLKSIZE as int,
                        ).len())
                        ||| (p@ == tftp_frame_bytes(
                            conn,
                            error_packet_bytes(0, read_failed_bytes()),
                        ) && final(self).transfers == old(self).transfers)
                    },
                    Err(e) => false,
                }
            }),
    {
        proof {
            lemma_find_transfer(self.transfers@, conn);
        }
        if self.find_transfer_index(&conn).is_some() {
            return Err(Error::Ignore("tftp transfer already active".to_owned()));
        }
        let mut octet: Vec<u8> = Vec::new();
        octet.push(111);
        octet.push(99);
        octet.push(116);
        octet.push(101);
        octet.push(116);
        assert(octet@ =~= octet_bytes());
        if !bytes_eq(mode, &octet) {
            let mut msg: Vec<u8> = Vec::new();
            msg.push(111);
            msg.push(110);
            msg.push(108);
            msg.push(121);
            msg.push(32);
            msg.push(111);
            msg.push(99);
            msg.push(116);
            msg.push(101);
            msg.push(116);
            assert(msg@ =~= octet_only_bytes());
            let payload = crate::tftp_wire::emit_error(0, &msg);
            return Ok(tftp_to_ether_unicast(&payload, &conn));
        }
        let image: &Vec<u8> = if bytes_eq(filename, &self.ipxe_name) {
            &self.ipxe_image
        } else if bytes_eq(filename, &self.kernel_name) && contains_u64(
            &self.kernel_clients,
            conn.client_mac,
        ) {
            &self.kernel_image
        } else {
            let mut msg: Vec<u8> = Vec::new();
            msg.push(70);
            msg.push(105);
            msg.push(108);
            msg.push(101);
            msg.push(32);
            msg.push(110);
            msg.push(111);
            msg.push(116);
            msg.push(32);
            msg.push(102);
            msg.push(111);
            msg.push(117);
            msg.push(110);
            msg.push(100);
            assert(msg@ =~= file_not_found_bytes());
            let payload = crate::tftp_wire::emit_error(1, &msg);
            return Ok(tftp_to_ether_unicast(&payload, &conn));
        };
        let fsize: usize = image.len();
        let accepted = accept_options(options, fsize);
        let any_granted = accepted.has(TftpOptionEnum::Blksize) || accepted.has(
            TftpOptionEnum::Tsize,
        );
        proof {
            if accepted@ =~= Map::<TftpOptionEnum, usize>::empty() {
                assert(!any_granted);
            }
            if !any_granted {
                assert(accepted@ =~= Map::<TftpOptionEnum, usize>::empty());
            }
        }
        let mut data_copy: Vec<u8> = Vec::new();
        crate::frame::extend_bytes(&mut data_copy, image);
        proof {
            assert(data_copy@ =~= image@);
        }
        let handle = MemoryHandle::new(data_copy);
        let mut transfer = Transfer::new(handle, conn, false, now);
        transfer.options = accepted;
        if any_granted {
            let packet = match transfer.ack_options() {
                Ok(p) => p,
                Err(_) => {
                    return Err(Error::Tftp("tftp: could not build oack".to_owned()));
                },
            };
            let mut kept: Vec<u8> = Vec::new();
            crate::frame::extend_bytes(&mut kept, &packet);
            transfer.last_packet = kept;
            if !transfer.options.has(TftpOptionEnum::Blksize) {
                transfer.options.add(TftpOptionEnum::Blksize, DEFAULT_BLKSIZE);
            }
            let ghost oldts = self.transfers@;
            self.transfers.push(transfer);
            proof {
                assert(self.transfers@.take(oldts.len() as int) =~= oldts);
                assert forall|i: int, j: int|
                    0 <= i < j < self.transfers@.len() implies (
                #[trigger] self.transfers@[i]).connection != (
                #[trigger] self.transfers@[j]).connection by {
                    if j == self.transfers@.len() - 1 {
                        lemma_find_transfer(oldts, self.transfers@[j].connection);
                    }
                }
            }
            Ok(packet)
        } else {
            transfer.options.add(TftpOptionEnum::Blksize, DEFAULT_BLKSIZE);
            let packet = match transfer.send_data(0, now) {
                Ok(p) => p,
                Err(_) => {
                    let payload = crate::tftp_wire::emit_error(0, &read_failed_message());
                    return Ok(tftp_to_ether_unicast(&payload, &conn));
                },
            };
            let ghost oldts = self.transfers@;
            self.transfers.push(transfer);
            proof {
                assert(self.transfers@.take(oldts.len() as int) =~= oldts);
                assert forall|i: int, j: int|
                    0 <= i < j < self.transfers@.len() implies (
                #[trigger] self.transfers@[i]).connection != (
                #[trigger] self.transfers@[j]).connection by {
                    if j == self.transfers@.len() - 1 {
                        lemma_find_transfer(oldts, self.transfers@[j].connection);
                    }
                }
            }
            Ok(packet)
        }
    }

    /// Handles an inbound ACK for `conn`: the expected ACK advances
    /// the transfer by exactly one block and answers with that DATA
    /// block; the ACK of a final short block completes and removes the
    /// transfer; any other block number is a no-op — nothing is
    /// re-sent and nothing advances.
    pub fn process_tftp_ack(&mut self, conn: TftpConnection, ack_block_num: u16, now: i64) -> (r:
        Result<Vec<u8>, Error>)
        requires
            old(self).wf(),
            now <= i64::MAX - RETRY_TIMEOUT_MS,
        ensures
            final(self).wf(),
            final(self).server_ip == old(self).server_ip,
            final(self).server_mac == old(self).server_mac,
            final(self).ipxe_name == old(self).ipxe_name,
            final(self).kernel_name == old(self).kernel_name,
            final(self).ipxe_image == old(self).ipxe_image,
            final(self).kernel_image == old(self).kernel_image,
            final(self).kernel_clients == old(self).kernel_clients,
            // No transfer for this connection: ignored, nothing changes.
            find_transfer(old(self).transfers@, conn) is None ==> *final(self) == *old(self) && (
            r matches Err(e) && e is Ignore),
            find_transfer(old(self).transfers@, conn) matches Some(i) ==> {
                let t = old(self).transfers@[i];
                // A duplicate or out-of-order ACK is a no-op.
                &&& ack_block_num != t.block_num ==> *final(self) == *old(self) && (r matches Err(
                    e,
                ) && e is Ignore)
                // The ACK of the final short DATA completes the transfer.
                &&& ack_block_num == t.block_num && t.block_num > 0 && t.last_len < t.options@[TftpOptionEnum::Blksize] ==> final(self).transfers@ == old(self).transfers@.remove(i) && (r matches Err(e)
                    && e is TftpEndOfFile)
                // The expected ACK: an answer is owed. Either DATA for
                // the next block, exactly once, carrying the next chunk
                // of the file; or, if the read capability failed, the
                // TFTP error frame of §7 and the transfer terminated.
                &&& ack_block_num == t.block_num && !(t.block_num > 0 && t.last_len < t.options@[TftpOptionEnum::Blksize]) ==> match r {
                    Ok(p) => {
                        ||| exists|t2: Transfer<MemoryHandle>|
                            {
                                &&& #[trigger] t2.connection == conn
                                &&& t2.block_num == wrap_inc(t.block_num)
                                &&& t2.retries == 0
                                &&& t2.handle.contents() == t.handle.contents()
                                &&& t2.handle.position() == t.handle.position()
                                    + crate::tftp_state::next_chunk(
                                    t.handle.contents(),
                                    t.handle.position() as int,
                                    t.options@[TftpOptionEnum::Blksize] as int,
                                ).len()
                                &&& final(self).transfers@ == old(self).transfers@.remove(i).push(
                                    t2,
                                )
                                &&& p@ == tftp_frame_bytes(
                                    conn,
                                    data_packet_bytes(
                                        wrap_inc(t.block_num),
                                        crate::tftp_state::next_chunk(
                                            t.handle.contents(),
                                            t.handle.position() as int,
                                            t.options@[TftpOptionEnum::Blksize] as int,
                                        ),
                                    ),
                                )
                                &&& t2.last_packet@ == p@
                            }
                        ||| (p@ == tftp_frame_bytes(
                            conn,
                            error_packet_bytes(0, read_failed_bytes()),
                        ) && final(self).transfers@ == old(self).transfers@.remove(i))
                    },
                    Err(e) => false,
                }
            },
    {
        proof {
            lemma_find_transfer(self.transfers@, conn);
        }
        let idx = match self.find_transfer_index(&conn) {
            Some(i) => i,
            None => {
                return Err(Error::Ignore("no transfer for this connection".to_owned()));
            },
        };
        if ack_block_num != self.transfers[idx].block_num {
            return Err(Error::Ignore("ack for a block already acknowledged".to_owned()));
        }
        let ghost oldts = self.transfers@;
        let mut t = self.transfers.remove(idx);
        match t.send_data(ack_block_num, now) {
            Ok(p) => {
                self.transfers.push(t);
                proof {
                    assert forall|a: int, b: int|
                        0 <= a < b < self.transfers@.len() implies (
                    #[trigger] self.transfers@[a]).connection != (
                    #[trigger] self.transfers@[b]).connection by {
                        if b == self.transfers@.len() - 1 {
                            lemma_remove_distinct(oldts, idx as int, a);
                        }
                    }
                }
                Ok(p)
            },
            Err(Error::TftpEndOfFile) => Err(Error::TftpEndOfFile),
            Err(_) => {
                // §7: an in-session failure answers the peer with a
                // TFTP error and terminates this transfer only.
                let payload = crate::tftp_wire::emit_error(0, &read_failed_message());
                Ok(tftp_to_ether_unicast(&payload, &t.connection))
            },
        }
    }

    /// Sweeps the live transfers: the first one past its deadline is
    /// either re-sent (its last packet, unchanged, at most
    /// `MAX_RETRIES` times in a row) or, with its retries exhausted,
    /// terminated with a TFTP error frame for the caller to transmit.
    pub fn process_timeout(&mut self, now: i64) -> (r: Result<Vec<u8>, Error>)
        requires
            old(self).wf(),
            now <= i64::MAX - RETRY_TIMEOUT_MS,
        ensures
            final(self).wf(),
            final(self).server_ip == old(self).server_ip,
            final(self).server_mac == old(self).server_mac,
            final(self).ipxe_name == old(self).ipxe_name,
            final(self).kernel_name == old(self).kernel_name,
            final(self).ipxe_image == old(self).ipxe_image,
            final(self).kernel_image == old(self).kernel_image,
            final(self).kernel_clients == old(self).kernel_clients,
            // Nothing due: nothing changes, nothing is sent.
            first_due(old(self).transfers@, now) is None ==> *final(self) == *old(self) && (
            r matches Err(e) && e is IgnoreNoLog),
            first_due(old(self).transfers@, now) matches Some(i) ==> {
                let t = old(self).transfers@[i];
                // Retries left: the same packet is re-sent, the retry
                // counter grows by one, the deadline moves on.
                &&& t.retries < MAX_RETRIES ==> match r {
                    Ok(p) => {
                        &&& p@ == t.last_packet@
                        &&& exists|t2: Transfer<MemoryHandle>|
                            {
                                &&& #[trigger] t2.retries == t.retries + 1
                                &&& t2.timeout == now + RETRY_TIMEOUT_MS
                                &&& t2.connection == t.connection
                                &&& t2.block_num == t.block_num
                                &&& t2.last_packet == t.last_packet
                                &&& final(self).transfers@ == old(self).transfers@.remove(i).push(
                                    t2,
                                )
                            }
                    },
                    Err(e) => false,
                }
                // Retries exhausted: the transfer is dropped and the
                // caller is handed a terminal TFTP error frame.
                &&& t.retries >= MAX_RETRIES ==> (r matches Err(Error::StopTftpConnection(p))
                    && p@ == tftp_frame_bytes(t.connection, error_packet_bytes(0, timed_out_bytes()))
                    && final(self).transfers@ == old(self).transfers@.remove(i))
            },
    {
        proof {
            lemma_first_due(self.transfers@, now);
        }
        let idx = match self.first_due_index(now) {
            Some(i) => i,
            None => {
                return Err(Error::IgnoreNoLog("no transfer timed out".to_owned()));
            },
        };
        let ghost oldts = self.transfers@;
        let mut t = self.transfers.remove(idx);
        if t.retries < MAX_RETRIES {
            t.retries = t.retries + 1;
            t.reset_timeout(now);
            let mut p: Vec<u8> = Vec::new();
            crate::frame::extend_bytes(&mut p, &t.last_packet);
            self.transfers.push(t);
            proof {
                assert forall|a: int, b: int|
                    0 <= a < b < self.transfers@.len() implies (
                #[trigger] self.transfers@[a]).connection != (
                #[trigger] self.transfers@[b]).connection by {
                    if b == self.transfers@.len() - 1 {
                        lemma_remove_distinct(oldts, idx as int, a);
                    }
                }
            }
            Ok(p)
        } else {
            let mut msg: Vec<u8> = Vec::new();
            msg.push(116);
            msg.push(105);
            msg.push(109);
            msg.push(101);
            msg.push(100);
            msg.push(32);
            msg.push(111);
            msg.push(117);
            msg.push(116);
            assert(msg@ =~= timed_out_bytes());
            let payload = crate::tftp_wire::emit_error(0, &msg);
            let frame = tftp_to_ether_unicast(&payload, &t.connection);
            Err(Error::StopTftpConnection(frame))
        }
    }

    /// The TFTP connection named by an inbound frame: this server on
    /// its well-known port, the client by the frame's source address.
    pub open spec fn conn_of_frame(&self, f: Seq<u8>) -> TftpConnection {
        TftpConnection {
            server_ip: self.server_ip,
            server_mac: self.server_mac,
            client_ip: be32(f[26], f[27], f[28], f[29]),
            client_mac: crate::frame::be48(f.subrange(6, 12)),
            server_port: TFTP_PORT,
            client_port: be16(f[34], f[35]),
        }
    }

    /// Handles the UDP payload of a frame addressed to the DHCP
    /// server port: classifies it, and for an accepted PXE Discover
    /// or Request builds the broadcast Offer or Ack; an iPXE-firmware
    /// exchange also admits the client's MAC to the kernel stage.
    #[verifier::rlimit(100)]
    pub fn process_dhcp(&mut self, payload: &Vec<u8>) -> (r: Result<Vec<u8>, Error>)
        requires
            old(self).wf(),
        ensures
            final(self).wf(),
            final(self).server_ip == old(self).server_ip,
            final(self).server_mac == old(self).server_mac,
            final(self).ipxe_name == old(self).ipxe_name,
            final(self).kernel_name == old(self).kernel_name,
            final(self).ipxe_image == old(self).ipxe_image,
            final(self).kernel_image == old(self).kernel_image,
            final(self).transfers == old(self).transfers,
            match crate::dhcp::pxe_discover_spec(payload@) {
                crate::dhcp::ClassifyView::Accepted(v) => {
                    &&& (v.msg_type == crate::dhcp::DhcpMessageType::Discover || v.msg_type
                        == crate::dhcp::DhcpMessageType::Request) && (v.vendor_id matches Some(b)
                        && vendor_is_pxe(b)) ==> (r matches Ok(p) && p@
                        == crate::frame::udp_frame_bytes(
                        old(self).server_mac,
                        crate::frame::be48(crate::dhcp::chaddr_of(payload@)),
                        old(self).server_ip,
                        0xFFFFFFFFu32,
                        crate::DHCP_SERVER_PORT,
                        crate::DHCP_CLIENT_PORT,
                        crate::dhcp_reply::dhcp_reply_payload(
                            v.transaction_id,
                            v.secs,
                            be16(payload@[10], payload@[11]),
                            crate::dhcp::chaddr_of(payload@),
                            old(self).server_ip,
                            if v.firmware_type == crate::dhcp::FirmwareType::IPxe {
                                old(self).kernel_name@
                            } else {
                                old(self).ipxe_name@
                            },
                            v.client_uuid,
                            crate::dhcp_reply::reply_msg_byte(v.msg_type),
                        ),
                    ))
                    &&& !((v.msg_type == crate::dhcp::DhcpMessageType::Discover || v.msg_type
                        == crate::dhcp::DhcpMessageType::Request) && (v.vendor_id matches Some(b)
                        && vendor_is_pxe(b))) ==> (r is Err && *final(self) == *old(self))
                    &&& v.firmware_type == crate::dhcp::FirmwareType::IPxe && r is Ok ==> final(self).kernel_clients@.contains(crate::frame::be48(crate::dhcp::chaddr_of(payload@)))
                    &&& v.firmware_type != crate::dhcp::FirmwareType::IPxe && r is Ok ==> !final(self).kernel_clients@.contains(
                        crate::frame::be48(crate::dhcp::chaddr_of(payload@)),
                    )
                },
                _ => r is Err && *final(self) == *old(self),
            },
    {
        let info = match crate::dhcp::pxe_discover(payload) {
            Ok(i) => i,
            Err(e) => {
                return Err(e);
            },
        };
        proof {
            if payload@.len() < 240 {
                assert(crate::dhcp::pxe_discover_spec(payload@) is NotDhcp);
            }
        }
        let handled = matches!(info.msg_type, crate::dhcp::DhcpMessageType::Discover) || matches!(
            info.msg_type,
            crate::dhcp::DhcpMessageType::Request,
        );
        if !handled {
            return Err(Error::Ignore("dhcp message type not handled".to_owned()));
        }
        let vendor_ok = match &info.vendor_id {
            Some(v) => string_has_pxeclient_prefix(&v.data),
            None => false,
        };
        if !vendor_ok {
            return Err(Error::Ignore("Not a pxe request".to_owned()));
        }
        let chaddr = subrange_vec(payload, 28, 34);
        proof {
            assert(chaddr@ =~= crate::dhcp::chaddr_of(payload@));
            assert(payload@.subrange(28, 34) =~= crate::dhcp::chaddr_of(payload@));
        }
        let client_mac = crate::frame::read_mac48(payload, 28);
        let flags = crate::bytes::read_be16(payload, 10);
        let serve_kernel = matches!(info.firmware_type, crate::dhcp::FirmwareType::IPxe);
        if serve_kernel {
            if !contains_u64(&self.kernel_clients, client_mac) {
                self.kernel_clients.push(client_mac);
                proof {
                    assert(self.kernel_clients@.last() == client_mac);
                    assert(self.kernel_clients@.contains(client_mac));
                }
            }
        } else {
            // The stage follows the last exchange: a client no longer
            // reporting iPXE firmware loses its kernel admission.
            remove_u64(&mut self.kernel_clients, client_mac);
        }
        proof {
            crate::dhcp::lemma_accepted_uuid_len(payload@);
        }
        let reply = crate::dhcp_reply::build_dhcp_reply(
            &info,
            &chaddr,
            flags,
            client_mac,
            self.server_ip,
            self.server_mac,
            if serve_kernel {
                &self.kernel_name
            } else {
                &self.ipxe_name
            },
        );
        Ok(reply)
    }

    /// Routes one inbound Ethernet frame. Anything that is not IPv4
    /// over Ethernet carrying UDP is ignored unchanged. UDP to the
    /// DHCP server port runs the classifier and, for a PXE Discover
    /// or Request, returns the framed Offer or Ack; UDP to the TFTP
    /// port runs the transfer engine; any other port is a silent
    /// no-op.
    #[verifier::rlimit(100)]
    pub fn process(&mut self, frame: &Vec<u8>, now: i64) -> (r: Result<Vec<u8>, Error>)
        requires
            old(self).wf(),
            now <= i64::MAX - RETRY_TIMEOUT_MS,
        ensures
            final(self).wf(),
            final(self).server_ip == old(self).server_ip,
            final(self).server_mac == old(self).server_mac,
            final(self).ipxe_name == old(self).ipxe_name,
            final(self).kernel_name == old(self).kernel_name,
            final(self).ipxe_image == old(self).ipxe_image,
            final(self).kernel_image == old(self).kernel_image,
            !frame_udp_ok(frame@) ==> *final(self) == *old(self) && r is Err,
            frame_udp_ok(frame@) && frame_udp_dst(frame@) != crate::DHCP_SERVER_PORT
                && frame_udp_dst(frame@) != TFTP_PORT ==> *final(self) == *old(self) && (r matches
            Err(e) && e is IgnoreNoLog),
            // The DHCP path: transfers untouched; a reply is built
            // exactly for an accepted PXE Discover or Request, and is
            // the Offer or Ack broadcast back to the client's MAC.
            frame_udp_ok(frame@) && frame_udp_dst(frame@) == crate::DHCP_SERVER_PORT ==> {
                let payload = frame_udp_payload(frame@);
                &&& final(self).transfers == old(self).transfers
                &&& match crate::dhcp::pxe_discover_spec(payload) {
                    crate::dhcp::ClassifyView::Accepted(v) => {
                        &&& (v.msg_type == crate::dhcp::DhcpMessageType::Discover || v.msg_type
                            == crate::dhcp::DhcpMessageType::Request) && (v.vendor_id matches Some(
                            b,
                        ) && vendor_is_pxe(b)) ==> (r matches Ok(p) && p@
                            == crate::frame::udp_frame_bytes(
                            old(self).server_mac,
                            crate::frame::be48(crate::dhcp::chaddr_of(payload)),
                            old(self).server_ip,
                            0xFFFFFFFFu32,
                            crate::DHCP_SERVER_PORT,
                            crate::DHCP_CLIENT_PORT,
                            crate::dhcp_reply::dhcp_reply_payload(
                                v.transaction_id,
                                v.secs,
                                be16(payload[10], payload[11]),
                                crate::dhcp::chaddr_of(payload),
                                old(self).server_ip,
                                if v.firmware_type == crate::dhcp::FirmwareType::IPxe {
                                    old(self).kernel_name@
                                } else {
                                    old(self).ipxe_name@
                                },
                                v.client_uuid,
                                crate::dhcp_reply::reply_msg_byte(v.msg_type),
                            ),
                        ))
                        &&& !((v.msg_type == crate::dhcp::DhcpMessageType::Discover || v.msg_type
                            == crate::dhcp::DhcpMessageType::Request) && (v.vendor_id matches Some(
                            b,
                        ) && vendor_is_pxe(b))) ==> (r is Err && *final(self) == *old(self))
                        &&& v.firmware_type == crate::dhcp::FirmwareType::IPxe && r is Ok ==> final(self).kernel_clients@.contains(
                            crate::frame::be48(crate::dhcp::chaddr_of(payload)),
                        )
                        &&& v.firmware_type != crate::dhcp::FirmwareType::IPxe && r is Ok ==> !final(self).kernel_clients@.contains(
                            crate::frame::be48(crate::dhcp::chaddr_of(payload)),
                        )
                    },
                    _ => r is Err && *final(self) == *old(self),
                }
            },
            // The TFTP path: WRQ answered with error 4 and no
            // transfer; RRQ and ACK as the transfer engine says;
            // anything else ignored.
            frame_udp_ok(frame@) && frame_udp_dst(frame@) == TFTP_PORT ==> {
                let payload = frame_udp_payload(frame@);
                let conn = old(self).conn_of_frame(frame@);
                &&& final(self).kernel_clients == old(self).kernel_clients
                &&& match crate::tftp_wire::parse_packet(payload) {
                    None => *final(self) == *old(self) && (r matches Err(e) && e is Malformed),
                    Some(pk) => match pk {
                        crate::tftp_wire::TftpPacketView::WriteRequest { .. } => final(self).transfers == old(self).transfers && (r matches Ok(p) && p@
                            == tftp_frame_bytes(
                            conn,
                            error_packet_bytes(4, illegal_operation_bytes()),
                        )),
                        crate::tftp_wire::TftpPacketView::ReadRequest { filename, mode, options } => {
                            &&& find_transfer(old(self).transfers@, conn) is Some ==> *final(self)
                                == *old(self) && (r matches Err(e) && e is Ignore)
                            &&& find_transfer(old(self).transfers@, conn) is None && mode
                                != octet_bytes() ==> final(self).transfers == old(self).transfers
                                && (r matches Ok(p) && p@ == tftp_frame_bytes(
                                conn,
                                error_packet_bytes(0, octet_only_bytes()),
                            ))
                            &&& find_transfer(old(self).transfers@, conn) is None && mode
                                == octet_bytes() && old(self).file_for(conn, filename) is None
                                ==> final(self).transfers == old(self).transfers && (r matches Ok(
                                p,
                            ) && p@ == tftp_frame_bytes(
                                conn,
                                error_packet_bytes(1, file_not_found_bytes()),
                            ))
                            &&& find_transfer(old(self).transfers@, conn) is None && mode
                                == octet_bytes() ==> (old(self).file_for(conn, filename) matches
                            Some(image) ==> {
                                &&& accept_opts(options, image.len() as usize) != Map::<
                                    TftpOptionEnum,
                                    usize,
                                >::empty() ==> match r {
                                    Ok(p) => p@ == tftp_frame_bytes(
                                        conn,
                                        oack_packet_bytes(
                                            oack_opts_of(
                                                accept_opts(options, image.len() as usize),
                                            ),
                                        ),
                                    ) && final(self).transfers@.len() == old(self).transfers@.len() + 1 && final(self).transfers@.last().connection == conn,
                                    Err(e) => false,
                                }
                                &&& accept_opts(options, image.len() as usize) == Map::<
                                    TftpOptionEnum,
                                    usize,
                                >::empty() ==> match r {
                                    Ok(p) => {
                                        ||| (p@ == tftp_frame_bytes(
                                            conn,
                                            data_packet_bytes(
                                                1,
                                                next_chunk(image, 0, DEFAULT_BLKSIZE as int),
                                            ),
                                        ) && final(self).transfers@.len() == old(self).transfers@.len() + 1 && final(self).transfers@.last().connection == conn)
                                        ||| (p@ == tftp_frame_bytes(
                                            conn,
                                            error_packet_bytes(0, read_failed_bytes()),
                                        ) && final(self).transfers == old(self).transfers)
                                    },
                                    Err(e) => false,
                                }
                            })
                        },
                        crate::tftp_wire::TftpPacketView::Ack { block_num } => {
                            &&& find_transfer(old(self).transfers@, conn) is None ==> *final(self)
                                == *old(self) && (r matches Err(e) && e is Ignore)
                            &&& find_transfer(old(self).transfers@, conn) matches Some(i) ==> {
                                let t = old(self).transfers@[i];
                                &&& block_num != t.block_num ==> *final(self) == *old(self) && (
                                r matches Err(e) && e is Ignore)
                                &&& block_num == t.block_num && t.block_num > 0 && t.last_len
                                    < t.options@[TftpOptionEnum::Blksize] ==> final(self).transfers@ == old(self).transfers@.remove(i) && (r matches Err(e)
                                    && e is TftpEndOfFile)
                                &&& block_num == t.block_num && !(t.block_num > 0 && t.last_len
                                    < t.options@[TftpOptionEnum::Blksize]) ==> match r {
                                    Ok(p) => {
                                        ||| (p@ == tftp_frame_bytes(
                                            conn,
                                            data_packet_bytes(
                                                wrap_inc(t.block_num),
                                                next_chunk(
                                                    t.handle.contents(),
                                                    t.handle.position() as int,
                                                    t.options@[TftpOptionEnum::Blksize] as int,
                                                ),
                                            ),
                                        ) && final(self).transfers@.len() == old(self).transfers@.len())
                                        ||| (p@ == tftp_frame_bytes(
                                            conn,
                                            error_packet_bytes(0, read_failed_bytes()),
                                        ) && final(self).transfers@ == old(self).transfers@.remove(i))
                                    },
                                    Err(e) => false,
                                }
                            }
                        },
                        crate::tftp_wire::TftpPacketView::Error { .. } => r is Err && (
                        match find_transfer(old(self).transfers@, conn) {
                            Some(i) => final(self).transfers@ == old(self).transfers@.remove(i),
                            None => *final(self) == *old(self),
                        }),
                        _ => *final(self) == *old(self) && (r matches Err(e) && e is Ignore),
                    },
                }
            },
    {
        let n: usize = frame.len();
        if n < 42 {
            return Err(Error::Ignore("not an ethernet ipv4 udp frame".to_owned()));
        }
        if !(frame[12] == 8 && frame[13] == 0) {
            return Err(Error::Ignore("not an ipv4 packet".to_owned()));
        }
        if frame[14] != 0x45 {
            return Err(Error::Ignore("unsupported ipv4 header".to_owned()));
        }
        if frame[23] != 17 {
            return Err(Error::Ignore("not a udp datagram".to_owned()));
        }
        let udp_len: usize = crate::bytes::read_be16(frame, 38) as usize;
        if udp_len < 8 || udp_len - 8 > n - 42 {
            return Err(Error::Malformed("truncated udp datagram".to_owned()));
        }
        let payload = subrange_vec(frame, 42, 42 + (udp_len - 8));
        proof {
            assert(payload@ =~= frame_udp_payload(frame@));
        }
        let dst_port = crate::bytes::read_be16(frame, 36);
        if dst_port == crate::DHCP_SERVER_PORT {
            self.process_dhcp(&payload)
        } else if dst_port == TFTP_PORT {
            let conn = TftpConnection {
                server_ip: self.server_ip,
                server_mac: self.server_mac,
                client_ip: crate::bytes::read_be32(frame, 26),
                client_mac: crate::frame::read_mac48(frame, 6),
                server_port: TFTP_PORT,
                client_port: crate::bytes::read_be16(frame, 34),
            };
            proof {
                lemma_find_transfer(self.transfers@, conn);
            }
            match crate::tftp_wire::parse_tftp(&payload) {
                None => Err(Error::Malformed("invalid tftp packet".to_owned())),
                Some(crate::tftp_wire::TftpPacket::ReadRequest { filename, mode, options }) => self
                    .process_tftp_rrq(conn, &filename, &mode, &options, now),
                Some(crate::tftp_wire::TftpPacket::WriteRequest { .. }) => {
                    let mut msg: Vec<u8> = Vec::new();
                    msg.push(73);
                    msg.push(108);
                    msg.push(108);
                    msg.push(101);
                    msg.push(103);
                    msg.push(97);
                    msg.push(108);
                    msg.push(32);
                    msg.push(111);
                    msg.push(112);
                    msg.push(101);
                    msg.push(114);
                    msg.push(97);
                    msg.push(116);
                    msg.push(105);
                    msg.push(111);
                    msg.push(110);
                    assert(msg@ =~= illegal_operation_bytes());
                    let p = crate::tftp_wire::emit_error(4, &msg);
                    Ok(tftp_to_ether_unicast(&p, &conn))
                },
                Some(crate::tftp_wire::TftpPacket::Ack { block_num }) => self.process_tftp_ack(
                    conn,
                    block_num,
                    now,
                ),
                Some(crate::tftp_wire::TftpPacket::Error { .. }) => {
                    proof {
                        lemma_find_transfer(self.transfers@, conn);
                    }
                    match self.find_transfer_index(&conn) {
                        Some(i) => {
                            let ghost oldts = self.transfers@;
                            let _ = self.transfers.remove(i);
                            proof {
                                assert forall|a: int, b: int|
                                    0 <= a < b < self.transfers@.len() implies (
                                #[trigger] self.transfers@[a]).connection != (
                                #[trigger] self.transfers@[b]).connection by {
                                    if a < i as int && b < i as int {
                                        assert(self.transfers@[a] == oldts[a]);
                                    }
                                }
                            }
                            Err(Error::Ignore("tftp error from peer".to_owned()))
                        },
                        None => Err(Error::Ignore("tftp error from peer".to_owned())),
                    }
                },
                Some(_) => Err(Error::Ignore("unexpected tftp packet".to_owned())),
            }
        } else {
            Err(Error::IgnoreNoLog("udp datagram not for this server".to_owned()))
        }
    }

    /// The index of the first transfer whose deadline has passed,
    /// mirroring `first_due`.
    fn first_due_index(&self, now: i64) -> (r: Option<usize>)
        ensures
            match r {
                Some(i) => first_due(self.transfers@, now) == Some(i as int),
                None => first_due(self.transfers@, now) is None,
            },
    {
        let n: usize = self.transfers.len();
        let mut i: usize = 0;
        proof {
            assert(self.transfers@.skip(0) =~= self.transfers@);
        }
        while i < n
            invariant
                i <= n == self.transfers@.len(),
                first_due(self.transfers@, now) == match first_due(
                    self.transfers@.skip(i as int),
                    now,
                ) {
                    Some(k) => Some(k + i),
                    None => None::<int>,
                },
            decreases n - i,
        {
            proof {
                assert(self.transfers@.skip(i as int)[0] == self.transfers@[i as int]);
                assert(self.transfers@.skip(i as int).drop_first() =~= self.transfers@.skip(i + 1));
            }
            if self.transfers[i].timeout <= now {
                return Some(i);
            }
            i += 1;
        }
        proof {
            assert(self.transfers@.skip(n as int).len() == 0);
        }
        None
    }

    /// The index of the live transfer for `conn`, mirroring
    /// `find_transfer`.
    fn find_transfer_index(&self, conn: &TftpConnection) -> (r: Option<usize>)
        ensures
            match r {
                Some(i) => find_transfer(self.transfers@, *conn) == Some(i as int),
                None => find_transfer(self.transfers@, *conn) is None,
            },
    {
        let n: usize = self.transfers.len();
        let mut i: usize = 0;
        proof {
            assert(self.transfers@.skip(0) =~= self.transfers@);
        }
        while i < n
            invariant
                i <= n == self.transfers@.len(),
                find_transfer(self.transfers@, *conn) == match find_transfer(
                    self.transfers@.skip(i as int),
                    *conn,
                ) {
                    Some(k) => Some(k + i),
                    None => None::<int>,
                },
            decreases n - i,
        {
            proof {
                assert(self.transfers@.skip(i as int)[0] == self.transfers@[i as int]);
                assert(self.transfers@.skip(i as int).drop_first() =~= self.transfers@.skip(i + 1));
            }
            if self.transfers[i].connection == *conn {
                return Some(i);
            }
            i += 1;
        }
        proof {
            assert(self.transfers@.skip(n as int).len() == 0);
        }
        None
    }
}

/// The bytes of "only octet".
pub open spec fn octet_only_bytes() -> Seq<u8> {
    seq![111u8, 110u8, 108u8, 121u8, 32u8, 111u8, 99u8, 116u8, 101u8, 116u8]
}

/// Whether a frame is Ethernet II carrying IPv4 (no IP options) with
/// a UDP datagram that fits inside the frame.
pub open spec fn frame_udp_ok(f: Seq<u8>) -> bool {
    &&& f.len() >= 42
    &&& f[12] == 8 && f[13] == 0
    &&& f[14] == 0x45
    &&& f[23] == 17
    &&& be16(f[38], f[39]) >= 8
    &&& be16(f[38], f[39]) - 8 <= f.len() - 42
}

/// The UDP destination port of a frame.
pub open spec fn frame_udp_dst(f: Seq<u8>) -> u16 {
    be16(f[36], f[37])
}

/// The UDP payload of a frame.
pub open spec fn frame_udp_payload(f: Seq<u8>) -> Seq<u8> {
    f.subrange(42, 42 + be16(f[38], f[39]) - 8)
}

/// Whether a vendor class identifier announces a PXE client:
/// it starts with "PXEClient".
pub open spec fn vendor_is_pxe(b: Seq<u8>) -> bool {
    b.len() >= 9 && b.take(9) == crate::dhcp_reply::pxeclient_bytes()
}

/// Whether the string starts with "PXEClient", over its UTF-8 bytes.
fn string_has_pxeclient_prefix(s: &String) -> (r: bool)
    ensures
        r == vendor_is_pxe(vstd::utf8::encode_utf8(s@)),
{
    let bytes: Vec<u8> = vstd::slice::slice_to_vec(s.as_str().as_bytes());
    if bytes.len() < 9 {
        return false;
    }
    let r = bytes[0] == 80 && bytes[1] == 88 && bytes[2] == 69 && bytes[3] == 67 && bytes[4] == 108
        && bytes[5] == 105 && bytes[6] == 101 && bytes[7] == 110 && bytes[8] == 116;
    proof {
        if r {
            assert(bytes@.take(9) =~= crate::dhcp_reply::pxeclient_bytes());
        } else {
            assert(bytes@.take(9) != crate::dhcp_reply::pxeclient_bytes());
        }
    }
    r
}

/// The bytes of "error reading file".
pub open spec fn read_failed_bytes() -> Seq<u8> {
    seq![
        101u8, 114u8, 114u8, 111u8, 114u8, 32u8, 114u8, 101u8, 97u8, 100u8, 105u8, 110u8, 103u8,
        32u8, 102u8, 105u8, 108u8, 101u8,
    ]
}

/// Builds the "error reading file" message bytes.
fn read_failed_message() -> (r: Vec<u8>)
    ensures
        r@ == read_failed_bytes(),
{
    let mut msg: Vec<u8> = Vec::new();
    msg.push(101);
    msg.push(114);
    msg.push(114);
    msg.push(111);
    msg.push(114);
    msg.push(32);
    msg.push(114);
    msg.push(101);
    msg.push(97);
    msg.push(100);
    msg.push(105);
    msg.push(110);
    msg.push(103);
    msg.push(32);
    msg.push(102);
    msg.push(105);
    msg.push(108);
    msg.push(101);
    assert(msg@ =~= read_failed_bytes());
    msg
}

/// The bytes of "timed out".
pub open spec fn timed_out_bytes() -> Seq<u8> {
    seq![116u8, 105u8, 109u8, 101u8, 100u8, 32u8, 111u8, 117u8, 116u8]
}

/// The index of the first transfer whose deadline is at or before
/// `now`, if any.
pub open spec fn first_due(ts: Seq<Transfer<MemoryHandle>>, now: i64) -> Option<int>
    decreases ts.len(),
{
    if ts.len() == 0 {
        None
    } else if ts[0].timeout <= now {
        Some(0)
    } else {
        match first_due(ts.drop_first(), now) {
            Some(i) => Some(i + 1),
            None => None,
        }
    }
}

/// What `first_due` yields is a real index of a due transfer, and
/// `None` means no transfer is due.
pub proof fn lemma_first_due(ts: Seq<Transfer<MemoryHandle>>, now: i64)
    ensures
        match first_due(ts, now) {
            Some(i) => 0 <= i < ts.len() && ts[i].timeout <= now,
            None => forall|i: int| 0 <= i < ts.len() ==> (#[trigger] ts[i]).timeout > now,
        },
    decreases ts.len(),
{
    if ts.len() > 0 && ts[0].timeout > now {
        lemma_first_due(ts.drop_first(), now);
        match first_due(ts.drop_first(), now) {
            Some(i) => {
                assert(ts.drop_first()[i] == ts[i + 1]);
            },
            None => {
                assert forall|i: int| 0 <= i < ts.len() implies (#[trigger] ts[i]).timeout
                    > now by {
                    if i > 0 {
                        assert(ts.drop_first()[i - 1] == ts[i]);
                    }
                }
            },
        }
    }
}

/// Whether a transfer whose retry counter stands at `r` can still be
/// re-sent `k` times in a row: each re-send demands `r < MAX_RETRIES`
/// and increments the counter, as `process_timeout` ensures.
pub open spec fn can_resend(r: u8, k: nat) -> bool
    decreases k,
{
    k == 0 || (r < MAX_RETRIES && can_resend((r + 1) as u8, (k - 1) as nat))
}

/// Retry bound: a run of `k` consecutive re-sends of one packet is
/// possible exactly when it keeps the counter within `MAX_RETRIES`,
/// so no packet is ever retransmitted more than `MAX_RETRIES` times
/// between two valid ACKs.
pub proof fn lemma_retry_bound(r: u8, k: nat)
    requires
        r <= MAX_RETRIES,
    ensures
        can_resend(r, k) <==> r + k <= MAX_RETRIES,
    decreases k,
{
    if k > 0 && r < MAX_RETRIES {
        lemma_retry_bound((r + 1) as u8, (k - 1) as nat);
    }
}

/// Removing one element of a pairwise-distinct-connection sequence and
/// appending an element with the removed connection keeps the
/// connections pairwise distinct.
proof fn lemma_remove_distinct(ts: Seq<Transfer<MemoryHandle>>, idx: int, a: int)
    requires
        0 <= idx < ts.len(),
        0 <= a < ts.len() - 1,
        forall|i: int, j: int|
            0 <= i < j < ts.len() ==> (#[trigger] ts[i]).connection != (#[trigger] ts[j]).connection,
    ensures
        ts.remove(idx)[a].connection != ts[idx].connection,
{
    if a < idx {
        assert(ts.remove(idx)[a] == ts[a]);
    } else {
        assert(ts.remove(idx)[a] == ts[a + 1]);
    }
}

/// Removes every occurrence of `x`, keeping everything else.
fn remove_u64(v: &mut Vec<u64>, x: u64)
    ensures
        !final(v)@.contains(x),
        forall|y: u64| y != x ==> final(v)@.contains(y) == old(v)@.contains(y),
{
    let n: usize = v.len();
    let mut out: Vec<u64> = Vec::new();
    let mut i: usize = 0;
    while i < n
        invariant
            i <= n == v@.len(),
            forall|k: int| 0 <= k < out@.len() ==> (#[trigger] out@[k]) != x && v@.contains(out@[k]),
            forall|j: int| 0 <= j < i && v@[j] != x ==> out@.contains(#[trigger] v@[j]),
        decreases n - i,
    {
        if v[i] != x {
            let ghost before = out@;
            out.push(v[i]);
            proof {
                assert forall|j: int| 0 <= j < i + 1 && v@[j] != x implies out@.contains(
                    #[trigger] v@[j],
                ) by {
                    if j < i {
                        let k = choose|k: int| 0 <= k < before.len() && before[k] == v@[j];
                        assert(out@[k] == v@[j]);
                    } else {
                        assert(out@.last() == v@[j]);
                    }
                }
            }
        }
        i += 1;
    }
    *v = out;
    proof {
        assert forall|y: u64| y != x implies v@.contains(y) == old(v)@.contains(y) by {
            if v@.contains(y) {
                let k = choose|k: int| 0 <= k < v@.len() && v@[k] == y;
            }
            if old(v)@.contains(y) {
                let j = choose|j: int| 0 <= j < old(v)@.len() && old(v)@[j] == y;
                assert(old(v)@[j] != x);
            }
        }
        if v@.contains(x) {
            let k = choose|k: int| 0 <= k < v@.len() && v@[k] == x;
        }
    }
}

/// Whether `v` holds `x`, as `contains` on the view.
fn contains_u64(v: &Vec<u64>, x: u64) -> (r: bool)
    ensures
        r == v@.contains(x),
{
    let n: usize = v.len();
    let mut i: usize = 0;
    while i < n
        invariant
            i <= n == v@.len(),
            forall|j: int| 0 <= j < i ==> v@[j] != x,
        decreases n - i,
    {
        if v[i] == x {
            return true;
        }
        i += 1;
    }
    false
}

} // verus!
