//! Construction of the DHCP Offer / Ack replies the server sends a PXE
//! client, framed for broadcast before the client owns an address.

use vstd::prelude::*;

use crate::bytes::{be16_bytes, be32_bytes, push_be16, push_be32};
use crate::dhcp::{magic_cookie, DhcpMessageType, PxeClientInfo};
use crate::frame::{build_udp_frame, extend_bytes, udp_frame_bytes};
use crate::{DHCP_CLIENT_PORT, DHCP_SERVER_PORT};

verus! {

/// `k` zero bytes.
pub open spec fn zero_bytes(k: nat) -> Seq<u8> {
    Seq::new(k, |i: int| 0u8)
}

/// Appends `k` zero bytes.
pub fn push_zeros(out: &mut Vec<u8>, k: usize)
    ensures
        final(out)@ == old(out)@ + zero_bytes(k as nat),
{
    let mut i: usize = 0;
    while i < k
        invariant
            i <= k,
            out@ == old(out)@ + zero_bytes(i as nat),
        decreases k - i,
    {
        out.push(0);
        assert(out@ =~= old(out)@ + zero_bytes((i + 1) as nat));
        i += 1;
    }
}

/// The DHCP message-type byte of the reply: an Ack answers a Request,
/// an Offer answers everything else the server replies to.
pub open spec fn reply_msg_byte(t: DhcpMessageType) -> u8 {
    if t == DhcpMessageType::Request {
        5u8
    } else {
        2u8
    }
}

/// The bytes of the string "PXEClient".
pub open spec fn pxeclient_bytes() -> Seq<u8> {
    seq![80u8, 88u8, 69u8, 67u8, 108u8, 105u8, 101u8, 110u8, 116u8]
}

/// The PXE vendor options carried in option 43: the discovery-control
/// sub-option directing the client to the boot file, then the
/// sub-option terminator.
pub open spec fn pxe_vendor_option_bytes() -> Seq<u8> {
    seq![6u8, 1u8, 8u8, 255u8]
}

/// The options block of a reply: message type, server identifier,
/// vendor class "PXEClient", the client UUID echoed back, the PXE
/// vendor options, and the end option.
pub open spec fn reply_options_bytes(msg: u8, server_ip: u32, uuid: (u8, Seq<u8>)) -> Seq<u8> {
    seq![53u8, 1u8, msg] + seq![54u8, 4u8] + be32_bytes(server_ip) + seq![60u8, 9u8]
        + pxeclient_bytes() + seq![97u8, 17u8] + seq![uuid.0] + uuid.1 + seq![43u8, 4u8]
        + pxe_vendor_option_bytes() + seq![255u8]
}

/// The whole BOOTP reply payload: opcode BOOTREPLY, Ethernet hardware
/// addressing, the client's transaction id, secs and flags echoed,
/// `your_ip` left zero, the server as `server_ip`, the client's
/// chaddr, the boot file name NUL-padded in the file field, then the
/// options.
#[verifier::opaque]
pub open spec fn dhcp_reply_payload(
    xid: u32,
    secs: u16,
    flags: u16,
    chaddr: Seq<u8>,
    server_ip: u32,
    boot_file: Seq<u8>,
    uuid: (u8, Seq<u8>),
    msg: u8,
) -> Seq<u8> {
    seq![2u8, 1u8, 6u8, 0u8] + be32_bytes(xid) + be16_bytes(secs) + be16_bytes(flags) + zero_bytes(
        4,
    ) + zero_bytes(4) + be32_bytes(server_ip) + zero_bytes(4) + chaddr + zero_bytes(10)
        + zero_bytes(64) + boot_file + zero_bytes((128 - boot_file.len()) as nat) + magic_cookie()
        + reply_options_bytes(msg, server_ip, uuid)
}

/// Builds the framed DHCP Offer or Ack for `info`, broadcast to the
/// client's MAC with UDP ports 67 to 68, exactly as
/// `dhcp_reply_payload` and `udp_frame_bytes` describe.
#[verifier::rlimit(100)]
pub fn build_dhcp_reply(
    info: &PxeClientInfo,
    chaddr: &Vec<u8>,
    flags: u16,
    client_mac: u64,
    server_ip: u32,
    server_mac: u64,
    boot_file: &Vec<u8>,
) -> (r: Vec<u8>)
    requires
        chaddr@.len() == 6,
        boot_file@.len() <= 127,
        info.client_uuid.bytes@.len() == 16,
    ensures
        r@ == udp_frame_bytes(
            server_mac,
            client_mac,
            server_ip,
            0xFFFFFFFFu32,
            DHCP_SERVER_PORT,
            DHCP_CLIENT_PORT,
            dhcp_reply_payload(
                info.transaction_id,
                info.secs,
                flags,
                chaddr@,
                server_ip,
                boot_file@,
                info.client_uuid@,
                reply_msg_byte(info.msg_type),
            ),
        ),
{
    let mut p: Vec<u8> = Vec::new();
    p.push(2);
    p.push(1);
    p.push(6);
    p.push(0);
    push_be32(&mut p, info.transaction_id);
    push_be16(&mut p, info.secs);
    push_be16(&mut p, flags);
    push_zeros(&mut p, 4);
    push_zeros(&mut p, 4);
    push_be32(&mut p, server_ip);
    push_zeros(&mut p, 4);
    extend_bytes(&mut p, chaddr);
    push_zeros(&mut p, 10);
    push_zeros(&mut p, 64);
    extend_bytes(&mut p, boot_file);
    push_zeros(&mut p, 128 - boot_file.len());
    p.push(99);
    p.push(130);
    p.push(83);
    p.push(99);
    // Options.
    p.push(53);
    p.push(1);
    p.push(
        if matches!(info.msg_type, DhcpMessageType::Request) {
            5
        } else {
            2
        },
    );
    p.push(54);
    p.push(4);
    push_be32(&mut p, server_ip);
    p.push(60);
    p.push(9);
    p.push(80);
    p.push(88);
    p.push(69);
    p.push(67);
    p.push(108);
    p.push(105);
    p.push(101);
    p.push(110);
    p.push(116);
    p.push(97);
    p.push(17);
    p.push(info.client_uuid.uuid_type);
    extend_bytes(&mut p, &info.client_uuid.bytes);
    p.push(43);
    p.push(4);
    p.push(6);
    p.push(1);
    p.push(8);
    p.push(255);
    p.push(255);
    proof {
        reveal(dhcp_reply_payload);
        assert(p@ =~= dhcp_reply_payload(
            info.transaction_id,
            info.secs,
            flags,
            chaddr@,
            server_ip,
            boot_file@,
            info.client_uuid@,
            reply_msg_byte(info.msg_type),
        ));
    }
    build_udp_frame(
        server_mac,
        client_mac,
        server_ip,
        0xFFFFFFFF,
        DHCP_SERVER_PORT,
        DHCP_CLIENT_PORT,
        &p,
    )
}

} // verus!
