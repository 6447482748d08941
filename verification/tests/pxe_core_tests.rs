//! End-to-end tests of the PXE protocol core: the DHCP classifier on
//! captured packets, the TFTP engine through whole transfers, the wire
//! codecs, and the framing checksums.

use pxe_core::bytes::{decimal_string, parse_decimal};
use pxe_core::dhcp::{
    pxe_discover, ClientArchType, DhcpMessageType, FirmwareType, HardwareType, PxeUuid,
    VendorClassIdentifier,
};
use pxe_core::socket::PxeSocket;
use pxe_core::tftp_state::{
    tftp_to_ether_unicast, Handle, MemoryHandle, TftpConnection, TftpOptionEnum, TftpOptions,
    Transfer,
};
use pxe_core::tftp_wire::{emit_opts, parse_opts, parse_tftp, TftpPacket};
use pxe_core::Error;

fn push_option(p: &mut Vec<u8>, kind: u8, data: &[u8]) {
    p.push(kind);
    p.push(data.len() as u8);
    p.extend(data);
}

fn bootp_header(opcode: u8, xid: u32, secs: u16, flags: u16, chaddr: [u8; 6]) -> Vec<u8> {
    let mut p = vec![0u8; 240];
    p[0] = opcode;
    p[1] = 1; // Ethernet
    p[2] = 6;
    p[4..8].copy_from_slice(&xid.to_be_bytes());
    p[8..10].copy_from_slice(&secs.to_be_bytes());
    p[10..12].copy_from_slice(&flags.to_be_bytes());
    p[28..34].copy_from_slice(&chaddr);
    p[236..240].copy_from_slice(&[99, 130, 83, 99]);
    p
}

/// The captured 406-byte PXE Discover of a QEMU client: transaction id
/// 0x4331af13, chaddr 52:54:00:12:34:56, vendor class
/// "PXEClient:Arch:00000:UNDI:002001", architecture tag 0, an iPXE
/// user class, and assorted options the server ignores.
fn pxe_discover_fixture() -> Vec<u8> {
    let mut p = bootp_header(1, 0x4331af13, 4, 0x8000, [0x52, 0x54, 0x00, 0x12, 0x34, 0x56]);
    push_option(&mut p, 53, &[1]); // DHCPDISCOVER
    push_option(&mut p, 57, &[0x05, 0xc0]); // max message size 1472
    push_option(&mut p, 93, &[0, 0]); // architecture: x86 BIOS
    push_option(&mut p, 94, &[1, 2, 1]); // NIC identifier: UNDI 2.1
    push_option(&mut p, 60, b"PXEClient:Arch:00000:UNDI:002001");
    push_option(&mut p, 77, b"iPXE");
    push_option(
        &mut p,
        55, // parameter request list
        &[
            0x01, 0x03, 0x06, 0x07, 0x0c, 0x0f, 0x11, 0x1a, 0x2b, 0x3c, 0x42, 0x43, 0x77, 0x80,
            0x81, 0x82, 0x83, 0x84, 0x85, 0x86, 0x87, 0xaf, 0xcb,
        ],
    );
    push_option(
        &mut p,
        175, // iPXE feature flags
        &[
            0xb1, 0x05, 0x01, 0x80, 0x86, 0x10, 0x0e, 0xeb, 0x03, 0x01, 0x00, 0x00, 0x17, 0x01,
            0x01, 0x22, 0x01, 0x01, 0x13, 0x01, 0x01, 0x14, 0x01, 0x01, 0x11, 0x01, 0x01, 0x27,
            0x01, 0x01, 0x19, 0x01, 0x01, 0x19, 0x01, 0x01, 0x10, 0x01, 0x02, 0x21, 0x01, 0x01,
            0x15, 0x01, 0x01, 0x18, 0x01, 0x01, 0x1b, 0x01, 0x01, 0x12, 0x01, 0x01,
        ],
    );
    push_option(&mut p, 61, &[0x01, 0x52, 0x54, 0x00, 0x12, 0x34, 0x56]);
    push_option(&mut p, 97, &[0u8; 17]);
    p.push(255);
    p
}

/// The matching 548-byte DHCP Offer a router answered with: opcode 2,
/// the addresses it assigned, and its own option set.
fn pxe_offer_fixture() -> Vec<u8> {
    let mut p = bootp_header(2, 0x4331af13, 4, 0x8000, [0x52, 0x54, 0x00, 0x12, 0x34, 0x56]);
    p[16..20].copy_from_slice(&[0xc0, 0xa8, 0xb2, 0x4f]); // your ip
    p[20..24].copy_from_slice(&[0xc0, 0xa8, 0xb2, 0x01]); // server ip
    push_option(&mut p, 53, &[2]); // DHCPOFFER
    push_option(&mut p, 54, &[0xc0, 0xa8, 0xb2, 0x01]); // server identifier
    push_option(&mut p, 51, &[0x00, 0x0d, 0x2f, 0x00]); // lease time
    push_option(&mut p, 58, &[0x00, 0x06, 0x97, 0x80]); // renewal time
    push_option(&mut p, 59, &[0x00, 0x0b, 0x89, 0x20]); // rebinding time
    push_option(&mut p, 1, &[0xff, 0xff, 0xff, 0x00]); // subnet mask
    push_option(&mut p, 3, &[0xc0, 0xa8, 0xb2, 0x01]); // router
    push_option(&mut p, 6, &[0xc0, 0xa8, 0xb2, 0x01]); // DNS
    push_option(&mut p, 15, b"fritz.box"); // domain name
    p.push(255);
    p.extend(vec![0u8; 251]);
    p
}

#[test]
fn test_pxe_request() {
    let packet = pxe_discover_fixture();
    let info = match pxe_discover(&packet) {
        Ok(i) => i,
        Err(e) => panic!("Parsing dhcp packet failed: {:?}", e),
    };

    assert_eq!(
        info.vendor_id,
        Some(VendorClassIdentifier {
            data: "PXEClient:Arch:00000:UNDI:002001".to_string()
        })
    );
    assert_eq!(info.client_arch, ClientArchType::X86Bios);
    assert_eq!(info.msg_type, DhcpMessageType::Discover);
    assert_eq!(
        info.client_identifier.hardware_address,
        vec![0x52, 0x54, 0x00, 0x12, 0x34, 0x56]
    );
    assert_eq!(info.client_identifier.hardware_type, HardwareType::Ethernet);
    assert_eq!(
        info.client_uuid,
        PxeUuid { uuid_type: 0, bytes: vec![0u8; 16] }
    );
}

#[test]
fn test_pxe_offer() {
    let packet = pxe_offer_fixture();
    let info = pxe_discover(&packet);

    match info {
        Ok(_) => panic!("PXE offer should not be parsed as a PXE discover packet"),
        Err(Error::Ignore(_)) => (),
        _ => panic!("This should not happen"),
    }
}

#[test]
fn discover_fixture_details() {
    let info = pxe_discover(&pxe_discover_fixture()).unwrap();
    assert_eq!(info.transaction_id, 0x4331af13);
    assert_eq!(info.firmware_type, FirmwareType::IPxe);
    assert_eq!(info.secs, 4);
}

#[test]
fn short_packet_is_malformed() {
    match pxe_discover(&vec![1u8, 1, 6, 0]) {
        Err(Error::Malformed(_)) => (),
        r => panic!("expected malformed, got {:?}", r),
    }
}

fn minimal_request(options: Vec<u8>) -> Vec<u8> {
    let mut p = vec![0u8; 240];
    p[0] = 1; // BOOTREQUEST
    p[1] = 1;
    p[2] = 6;
    p[4] = 0xde;
    p[5] = 0xad;
    p[6] = 0xbe;
    p[7] = 0xef;
    p[28] = 0xaa;
    p[29] = 0xbb;
    p[30] = 0xcc;
    p[31] = 0xdd;
    p[32] = 0xee;
    p[33] = 0xff;
    p[236] = 99;
    p[237] = 130;
    p[238] = 83;
    p[239] = 99;
    p.extend(options);
    p
}

#[test]
fn missing_client_arch_is_reported() {
    // Message type, UUID and NIC version present; architecture absent.
    let mut opts = vec![53u8, 1, 1];
    opts.extend(vec![97u8, 17]);
    opts.extend(vec![0u8; 17]);
    opts.extend(vec![94u8, 3, 1, 2, 1]);
    opts.push(255);
    match pxe_discover(&minimal_request(opts)) {
        Err(Error::MissingDhcpOption(name)) => assert_eq!(name, "Client Architecture"),
        r => panic!("expected missing option, got {:?}", r),
    }
}

#[test]
fn synthesized_client_identifier_uses_chaddr() {
    // All required options except the client identifier.
    let mut opts = vec![53u8, 1, 1, 93, 2, 0, 0];
    opts.extend(vec![97u8, 17]);
    opts.extend(vec![0u8; 17]);
    opts.extend(vec![94u8, 3, 1, 2, 1]);
    opts.push(255);
    let info = pxe_discover(&minimal_request(opts)).unwrap();
    assert_eq!(info.client_identifier.hardware_type, HardwareType::Ethernet);
    assert_eq!(
        info.client_identifier.hardware_address,
        vec![0xaa, 0xbb, 0xcc, 0xdd, 0xee, 0xff]
    );
    assert_eq!(info.transaction_id, 0xdeadbeef);
}

#[test]
fn invalid_utf8_vendor_class_is_malformed() {
    let mut opts = vec![53u8, 1, 1, 93, 2, 0, 0];
    opts.extend(vec![60u8, 2, 0xff, 0xfe]);
    opts.push(255);
    match pxe_discover(&minimal_request(opts)) {
        Err(Error::Malformed(_)) => (),
        r => panic!("expected malformed, got {:?}", r),
    }
}

#[test]
fn options_block_round_trip() {
    let pairs: Vec<(Vec<u8>, Vec<u8>)> = vec![
        (b"blksize".to_vec(), b"1024".to_vec()),
        (b"tsize".to_vec(), b"0".to_vec()),
        (b"windowsize".to_vec(), b"4".to_vec()),
    ];
    let mut encoded: Vec<u8> = Vec::new();
    emit_opts(&mut encoded, &pairs);
    assert_eq!(encoded, b"blksize\01024\0tsize\00\0windowsize\04\0".to_vec());
    let decoded = parse_opts(&encoded, 0).expect("options should decode");
    assert_eq!(decoded, pairs);
}

#[test]
fn unterminated_option_value_is_rejected() {
    assert!(parse_opts(&b"blksize\01024".to_vec(), 0).is_none());
}

#[test]
fn parse_decimal_accepts_digits_only() {
    assert_eq!(parse_decimal(&b"1024".to_vec()), Some(1024));
    assert_eq!(parse_decimal(&b"0".to_vec()), Some(0));
    assert_eq!(parse_decimal(&Vec::new()), None);
    assert_eq!(parse_decimal(&b"12a".to_vec()), None);
    assert_eq!(parse_decimal(&b"999999999999999999".to_vec()), Some(999999999999999999));
    assert_eq!(parse_decimal(&b"1999999999999999999".to_vec()), None);
}

#[test]
fn decimal_string_renders() {
    assert_eq!(decimal_string(0), "0");
    assert_eq!(decimal_string(2500), "2500");
    assert_eq!(decimal_string(18446744073709551615), "18446744073709551615");
}

#[test]
fn options_to_str_str_in_order() {
    let mut o = TftpOptions::new();
    assert!(!o.has(TftpOptionEnum::Blksize));
    o.add(TftpOptionEnum::Tsize, 2500);
    o.add(TftpOptionEnum::Blksize, 512);
    assert_eq!(o.get(TftpOptionEnum::Blksize), Some(512));
    assert_eq!(o.get(TftpOptionEnum::Tsize), Some(2500));
    let l = o.to_str_str();
    assert_eq!(
        l,
        vec![
            ("blksize".to_string(), "512".to_string()),
            ("tsize".to_string(), "2500".to_string())
        ]
    );
}

#[test]
fn memory_handle_reads_and_repeats() {
    let mut h = MemoryHandle::new(vec![1u8, 2, 3, 4, 5]);
    assert_eq!(h.read(2).unwrap(), vec![1, 2]);
    assert_eq!(h.repeat_last_read(2).unwrap(), vec![1, 2]);
    // Only a buffer of exactly the last read's length is accepted.
    assert!(h.repeat_last_read(1).is_err());
    assert!(h.repeat_last_read(3).is_err());
    assert_eq!(h.read(2).unwrap(), vec![3, 4]);
    assert_eq!(h.read(2).unwrap(), vec![5]);
    assert_eq!(h.read(2).unwrap(), Vec::<u8>::new());
}

fn test_conn() -> TftpConnection {
    TftpConnection {
        server_ip: 0xc0a80001,
        server_mac: 0x525400aabbcc,
        client_ip: 0xc0a80002,
        client_mac: 0x525400123456,
        server_port: 69,
        client_port: 49152,
    }
}

fn image(n: usize) -> Vec<u8> {
    (0..n).map(|i| (i % 251) as u8).collect()
}

fn engine_with_image(n: usize) -> PxeSocket {
    PxeSocket::new(
        0xc0a80001,
        0x525400aabbcc,
        b"ipxe.efi".to_vec(),
        b"kernel".to_vec(),
        image(n),
        image(64),
    )
}

fn payload_of(frame: &[u8]) -> Vec<u8> {
    frame[42..].to_vec()
}

#[test]
fn rrq_with_options_answers_oack_then_transfers() {
    // A 2500-byte file read with blksize 1024 and tsize 0 proposed.
    let mut s = engine_with_image(2500);
    let conn = test_conn();
    let opts = vec![
        (b"blksize".to_vec(), b"1024".to_vec()),
        (b"tsize".to_vec(), b"0".to_vec()),
    ];
    let oack = s
        .process_tftp_rrq(conn, &b"ipxe.efi".to_vec(), &b"octet".to_vec(), &opts, 0)
        .unwrap();
    assert_eq!(
        payload_of(&oack),
        b"\x00\x06blksize\01024\0tsize\02500\0".to_vec()
    );

    let img = image(2500);
    let d1 = s.process_tftp_ack(conn, 0, 10).unwrap();
    assert_eq!(payload_of(&d1)[..4], [0, 3, 0, 1]);
    assert_eq!(payload_of(&d1)[4..], img[..1024]);
    let d2 = s.process_tftp_ack(conn, 1, 20).unwrap();
    assert_eq!(payload_of(&d2)[..4], [0, 3, 0, 2]);
    assert_eq!(payload_of(&d2)[4..], img[1024..2048]);
    let d3 = s.process_tftp_ack(conn, 2, 30).unwrap();
    assert_eq!(payload_of(&d3)[..4], [0, 3, 0, 3]);
    assert_eq!(payload_of(&d3)[4..], img[2048..2500]);
    assert_eq!(payload_of(&d3).len(), 4 + 452);

    // The ACK of the final short block removes the transfer.
    match s.process_tftp_ack(conn, 3, 40) {
        Err(Error::TftpEndOfFile) => (),
        r => panic!("expected end of transfer, got {:?}", r),
    }
    match s.process_tftp_ack(conn, 3, 50) {
        Err(Error::Ignore(_)) => (),
        r => panic!("expected ignore, got {:?}", r),
    }
}

#[test]
fn rrq_without_options_sends_first_data_block() {
    let mut s = engine_with_image(100);
    let conn = test_conn();
    let d1 = s
        .process_tftp_rrq(conn, &b"ipxe.efi".to_vec(), &b"octet".to_vec(), &Vec::new(), 0)
        .unwrap();
    assert_eq!(payload_of(&d1)[..4], [0, 3, 0, 1]);
    assert_eq!(payload_of(&d1)[4..], image(100)[..]);
}

#[test]
fn duplicate_ack_is_ignored_and_nothing_is_resent() {
    let mut s = engine_with_image(4000);
    let conn = test_conn();
    s.process_tftp_rrq(conn, &b"ipxe.efi".to_vec(), &b"octet".to_vec(), &Vec::new(), 0)
        .unwrap();
    s.process_tftp_ack(conn, 1, 10).unwrap();
    // Block 1 is long acknowledged: ACK 1 again must change nothing.
    match s.process_tftp_ack(conn, 1, 20) {
        Err(Error::Ignore(_)) => (),
        r => panic!("expected ignore, got {:?}", r),
    }
    // The engine still answers the expected ACK 2 with DATA 3.
    let d3 = s.process_tftp_ack(conn, 2, 30).unwrap();
    assert_eq!(payload_of(&d3)[..4], [0, 3, 0, 3]);
}

#[test]
fn kernel_is_not_served_before_ipxe_stage() {
    let mut s = engine_with_image(2500);
    let conn = test_conn();
    let reply = s
        .process_tftp_rrq(conn, &b"kernel".to_vec(), &b"octet".to_vec(), &Vec::new(), 0)
        .unwrap();
    assert_eq!(payload_of(&reply), b"\x00\x05\x00\x01File not found\0".to_vec());
    // No transfer was created.
    match s.process_tftp_ack(conn, 0, 10) {
        Err(Error::Ignore(_)) => (),
        r => panic!("expected ignore, got {:?}", r),
    }
}

#[test]
fn non_octet_mode_is_rejected() {
    let mut s = engine_with_image(100);
    let conn = test_conn();
    let reply = s
        .process_tftp_rrq(conn, &b"ipxe.efi".to_vec(), &b"netascii".to_vec(), &Vec::new(), 0)
        .unwrap();
    assert_eq!(payload_of(&reply)[..4], [0, 5, 0, 0]);
}

#[test]
fn retransmissions_follow_the_deadline_and_are_bounded() {
    let mut s = engine_with_image(8000);
    let conn = test_conn();
    s.process_tftp_rrq(conn, &b"ipxe.efi".to_vec(), &b"octet".to_vec(), &Vec::new(), 0)
        .unwrap();
    let d1 = s.process_tftp_ack(conn, 1, 0).unwrap();

    // Nothing is due before the deadline.
    match s.process_timeout(100) {
        Err(Error::IgnoreNoLog(_)) => (),
        r => panic!("expected quiet no-op, got {:?}", r),
    }
    // Three missed deadlines re-emit the same DATA packet three times.
    let mut now = 0i64;
    for _ in 0..3 {
        now += 200;
        let re = s.process_timeout(now).unwrap();
        assert_eq!(re, d1);
    }
    // A then-arriving expected ACK resets retries and the next block
    // goes out immediately.
    let d3 = s.process_tftp_ack(conn, 2, now).unwrap();
    assert_eq!(payload_of(&d3)[..4], [0, 3, 0, 3]);

    // Ten more missed deadlines exhaust the retry budget...
    for _ in 0..10 {
        now += 200;
        s.process_timeout(now).unwrap();
    }
    // ...and the eleventh terminates the transfer with a TFTP error.
    now += 200;
    match s.process_timeout(now) {
        Err(Error::StopTftpConnection(p)) => {
            assert_eq!(payload_of(&p)[..4], [0, 5, 0, 0]);
        }
        r => panic!("expected terminal stop, got {:?}", r),
    }
    match s.process_tftp_ack(conn, 3, now) {
        Err(Error::Ignore(_)) => (),
        r => panic!("expected ignore after termination, got {:?}", r),
    }
}

fn ones_complement_sum(words: &[u8]) -> u32 {
    let mut sum: u32 = 0;
    let mut i = 0;
    while i + 1 < words.len() {
        sum += u32::from(words[i]) << 8 | u32::from(words[i + 1]);
        i += 2;
    }
    if i < words.len() {
        sum += u32::from(words[i]) << 8;
    }
    while sum > 0xffff {
        sum = (sum >> 16) + (sum & 0xffff);
    }
    sum
}

#[test]
fn frames_carry_valid_checksums() {
    let conn = test_conn();
    let frame = tftp_to_ether_unicast(&vec![0u8, 4, 0, 1], &conn);
    // Ethernet header: client MAC, server MAC, IPv4 ethertype.
    assert_eq!(frame[..6], [0x52, 0x54, 0x00, 0x12, 0x34, 0x56]);
    assert_eq!(frame[6..12], [0x52, 0x54, 0x00, 0xaa, 0xbb, 0xcc]);
    assert_eq!(frame[12..14], [8, 0]);
    assert_eq!(frame[22], 128); // TTL
    assert_eq!(frame[23], 17); // UDP
    // A valid IPv4 header sums to 0xffff with its checksum included.
    assert_eq!(ones_complement_sum(&frame[14..34]), 0xffff);
    // The UDP checksum over the pseudo-header also sums to 0xffff.
    let mut ps: Vec<u8> = Vec::new();
    ps.extend(&frame[26..34]); // src ip, dst ip
    ps.push(0);
    ps.push(17);
    let udp_len = (frame.len() - 34) as u16;
    ps.extend(udp_len.to_be_bytes());
    ps.extend(&frame[34..]);
    assert_eq!(ones_complement_sum(&ps), 0xffff);
    // Ports and payload.
    assert_eq!(frame[34..36], [0, 69]);
    assert_eq!(frame[36..38], [0xc0, 0x00]);
    assert_eq!(frame[42..], [0, 4, 0, 1]);
}

#[test]
fn process_routes_a_whole_discover_frame() {
    let mut s = engine_with_image(2500);
    let discover = pxe_discover_fixture();
    let frame = pxe_core::frame::build_udp_frame(
        0x525400123456,
        0xffffffffffff,
        0,
        0xffffffff,
        68,
        67,
        &discover,
    );
    let reply = s.process(&frame, 0).unwrap();
    // Broadcast reply to the client's chaddr, from the server.
    assert_eq!(reply[..6], [0x52, 0x54, 0x00, 0x12, 0x34, 0x56]);
    assert_eq!(reply[6..12], [0x52, 0x54, 0x00, 0xaa, 0xbb, 0xcc]);
    let p = payload_of(&reply);
    assert_eq!(p[0], 2); // BOOTREPLY
    assert_eq!(p[4..8], [0x43, 0x31, 0xaf, 0x13]); // transaction id echoed
    // The iPXE firmware goes to the kernel image, whose name sits in
    // the BOOTP file field.
    assert_eq!(p[108..114], *b"kernel");
    // Offer message type in the options.
    assert_eq!(p[240..243], [53, 1, 2]);
    // The iPXE exchange admitted the client to the kernel stage.
    let conn = test_conn();
    let d1 = s
        .process_tftp_rrq(conn, &b"kernel".to_vec(), &b"octet".to_vec(), &Vec::new(), 0)
        .unwrap();
    assert_eq!(payload_of(&d1)[..4], [0, 3, 0, 1]);
}

#[test]
fn process_answers_wrq_with_illegal_operation() {
    let mut s = engine_with_image(100);
    let mut wrq: Vec<u8> = vec![0, 2];
    wrq.extend(b"ipxe.efi\0octet\0");
    let frame = pxe_core::frame::build_udp_frame(
        0x525400123456,
        0x525400aabbcc,
        0xc0a80002,
        0xc0a80001,
        49152,
        69,
        &wrq,
    );
    let reply = s.process(&frame, 0).unwrap();
    assert_eq!(
        payload_of(&reply),
        b"\x00\x05\x00\x04Illegal operation\0".to_vec()
    );
    // No transfer was allocated.
    match s.process_timeout(1000) {
        Err(Error::IgnoreNoLog(_)) => (),
        r => panic!("expected no live transfer, got {:?}", r),
    }
}

#[test]
fn process_ignores_frames_not_for_the_server() {
    let mut s = engine_with_image(100);
    match s.process(&vec![0u8; 10], 0) {
        Err(Error::Ignore(_)) => (),
        r => panic!("expected ignore, got {:?}", r),
    }
    let frame = pxe_core::frame::build_udp_frame(1, 2, 3, 4, 1000, 2000, &vec![1u8, 2, 3]);
    match s.process(&frame, 0) {
        Err(Error::IgnoreNoLog(_)) => (),
        r => panic!("expected quiet ignore, got {:?}", r),
    }
}

#[test]
fn tftp_packet_parser_reads_requests() {
    let mut rrq: Vec<u8> = vec![0, 1];
    rrq.extend(b"ipxe.efi\0octet\0blksize\01468\0");
    match parse_tftp(&rrq) {
        Some(TftpPacket::ReadRequest { filename, mode, options }) => {
            assert_eq!(filename, b"ipxe.efi".to_vec());
            assert_eq!(mode, b"octet".to_vec());
            assert_eq!(options, vec![(b"blksize".to_vec(), b"1468".to_vec())]);
        }
        r => panic!("expected read request, got {:?}", r),
    }
    assert!(parse_tftp(&vec![0u8, 9, 1, 2]).is_none());
    match parse_tftp(&vec![0u8, 4, 0, 7]) {
        Some(TftpPacket::Ack { block_num }) => assert_eq!(block_num, 7),
        r => panic!("expected ack, got {:?}", r),
    }
}

#[test]
fn transfer_wraps_block_numbers_past_the_16_bit_limit() {
    let conn = test_conn();
    let mut t = Transfer::new(MemoryHandle::new(vec![7u8; 24]), conn, false, 0);
    t.options.add(TftpOptionEnum::Blksize, 8);
    t.block_num = 0xffff;
    t.last_len = 8;
    let p = t.send_data(0xffff, 0).unwrap();
    // 65535 wraps to 1, never to 0.
    assert_eq!(p[42..46], [0, 3, 0, 1]);
    assert_eq!(t.block_num, 1);
}

#[test]
fn connection_display_names_both_endpoints() {
    let conn = test_conn();
    assert_eq!(conn.display_string(), "192.168.0.2:49152 -> 192.168.0.1:69");
}

#[test]
fn offer_is_ignored_with_reason() {
    match pxe_discover(&pxe_offer_fixture()) {
        Err(Error::Ignore(reason)) => assert_eq!(reason, "Not a dhcp request"),
        r => panic!("expected ignore, got {:?}", r),
    }
}

#[test]
fn dhcp_request_is_answered_with_an_ack() {
    let mut s = engine_with_image(2500);
    let mut request = pxe_discover_fixture();
    // The same exchange, as a DHCPREQUEST: option 53 carries 3.
    let pos = request.windows(3).position(|w| w == [53, 1, 1]).unwrap();
    request[pos + 2] = 3;
    let frame = pxe_core::frame::build_udp_frame(
        0x525400123456,
        0xffffffffffff,
        0,
        0xffffffff,
        68,
        67,
        &request,
    );
    let reply = s.process(&frame, 0).unwrap();
    let p = reply[42..].to_vec();
    assert_eq!(p[0], 2); // BOOTREPLY
    assert_eq!(p[240..243], [53, 1, 5]); // DHCPACK
}

#[test]
fn kernel_stage_follows_the_last_dhcp_exchange() {
    let mut s = engine_with_image(2500);
    let conn = test_conn();
    let discover = pxe_discover_fixture();
    let frame = pxe_core::frame::build_udp_frame(
        0x525400123456,
        0xffffffffffff,
        0,
        0xffffffff,
        68,
        67,
        &discover,
    );
    // An iPXE exchange admits the client to the kernel stage...
    s.process(&frame, 0).unwrap();
    let d1 = s
        .process_tftp_rrq(conn, &b"kernel".to_vec(), &b"octet".to_vec(), &Vec::new(), 0)
        .unwrap();
    assert_eq!(d1[42..46], [0, 3, 0, 1]);

    // ...and a later exchange without the iPXE user class revokes it.
    let mut plain = pxe_discover_fixture();
    let pos = plain.windows(6).position(|w| w == *b"iPXE7\x17").unwrap();
    plain[pos] = b'g'; // user class now "gPXE": firmware stays Unknown
    let frame2 = pxe_core::frame::build_udp_frame(
        0x525400123456,
        0xffffffffffff,
        0,
        0xffffffff,
        68,
        67,
        &plain,
    );
    s.process(&frame2, 10).unwrap();
    let conn2 = TftpConnection { client_port: 49153, ..conn };
    let reply = s
        .process_tftp_rrq(conn2, &b"kernel".to_vec(), &b"octet".to_vec(), &Vec::new(), 10)
        .unwrap();
    assert_eq!(reply[42..].to_vec(), b"\x00\x05\x00\x01File not found\0".to_vec());
}
