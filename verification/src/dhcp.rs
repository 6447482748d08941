//! DHCP/PXE request classification: the BOOTP fixed header, the DHCP
//! option walk, and the PXE client descriptor it produces.

use vstd::prelude::*;

use crate::bytes::{be16, be32, subrange_vec};
use crate::error::Error;
use vstd::utf8::{encode_utf8, valid_utf8};

verus! {

/// BOOTP opcode of a client request.
pub const BOOTP_REQUEST: u8 = 1;

/// The firmware a client reports through UserClassInformation.
#[derive(Debug, PartialEq, Eq, Structural, Clone, Copy)]
pub enum FirmwareType {
    Unknown,
    IPxe,
}

/// Client system architecture tags of DHCP option 93.
#[derive(Debug, PartialEq, Eq, Structural, Clone, Copy)]
pub enum ClientArchType {
    X86Bios,
    Pc98,
    EfiItanium,
    DecAlpha,
    ArcX86,
    IntelLeanClient,
    X86Uefi,
    X64Uefi,
    EfiXscale,
    Ebc,
}

/// The architecture of a 16-bit tag, if the tag is known.
pub open spec fn arch_of_tag(tag: u16) -> Option<ClientArchType> {
    if tag == 0 {
        Some(ClientArchType::X86Bios)
    } else if tag == 1 {
        Some(ClientArchType::Pc98)
    } else if tag == 2 {
        Some(ClientArchType::EfiItanium)
    } else if tag == 3 {
        Some(ClientArchType::DecAlpha)
    } else if tag == 4 {
        Some(ClientArchType::ArcX86)
    } else if tag == 5 {
        Some(ClientArchType::IntelLeanClient)
    } else if tag == 6 {
        Some(ClientArchType::X86Uefi)
    } else if tag == 7 {
        Some(ClientArchType::X64Uefi)
    } else if tag == 8 {
        Some(ClientArchType::EfiXscale)
    } else if tag == 9 {
        Some(ClientArchType::Ebc)
    } else {
        None
    }
}

/// Looks an architecture tag up, exactly as `arch_of_tag`.
fn arch_from_tag(tag: u16) -> (r: Option<ClientArchType>)
    ensures
        r == arch_of_tag(tag),
{
    if tag == 0 {
        Some(ClientArchType::X86Bios)
    } else if tag == 1 {
        Some(ClientArchType::Pc98)
    } else if tag == 2 {
        Some(ClientArchType::EfiItanium)
    } else if tag == 3 {
        Some(ClientArchType::DecAlpha)
    } else if tag == 4 {
        Some(ClientArchType::ArcX86)
    } else if tag == 5 {
        Some(ClientArchType::IntelLeanClient)
    } else if tag == 6 {
        Some(ClientArchType::X86Uefi)
    } else if tag == 7 {
        Some(ClientArchType::X64Uefi)
    } else if tag == 8 {
        Some(ClientArchType::EfiXscale)
    } else if tag == 9 {
        Some(ClientArchType::Ebc)
    } else {
        None
    }
}

/// DHCP message types of option 53.
#[derive(Debug, PartialEq, Eq, Structural, Clone, Copy)]
pub enum DhcpMessageType {
    Discover,
    Offer,
    Request,
    Decline,
    Ack,
    Nak,
    Release,
    Inform,
}

/// The message type of an option-53 byte, if valid.
pub open spec fn msg_type_of(b: u8) -> Option<DhcpMessageType> {
    if b == 1 {
        Some(DhcpMessageType::Discover)
    } else if b == 2 {
        Some(DhcpMessageType::Offer)
    } else if b == 3 {
        Some(DhcpMessageType::Request)
    } else if b == 4 {
        Some(DhcpMessageType::Decline)
    } else if b == 5 {
        Some(DhcpMessageType::Ack)
    } else if b == 6 {
        Some(DhcpMessageType::Nak)
    } else if b == 7 {
        Some(DhcpMessageType::Release)
    } else if b == 8 {
        Some(DhcpMessageType::Inform)
    } else {
        None
    }
}

/// Looks an option-53 byte up, exactly as `msg_type_of`.
fn msg_type_from_byte(b: u8) -> (r: Option<DhcpMessageType>)
    ensures
        r == msg_type_of(b),
{
    if b == 1 {
        Some(DhcpMessageType::Discover)
    } else if b == 2 {
        Some(DhcpMessageType::Offer)
    } else if b == 3 {
        Some(DhcpMessageType::Request)
    } else if b == 4 {
        Some(DhcpMessageType::Decline)
    } else if b == 5 {
        Some(DhcpMessageType::Ack)
    } else if b == 6 {
        Some(DhcpMessageType::Nak)
    } else if b == 7 {
        Some(DhcpMessageType::Release)
    } else if b == 8 {
        Some(DhcpMessageType::Inform)
    } else {
        None
    }
}

/// Hardware types of a client identifier (option 61).
#[derive(Debug, PartialEq, Eq, Structural, Clone, Copy)]
pub enum HardwareType {
    Ethernet,
    Other(u8),
}

/// The hardware type of an option-61 type byte.
pub open spec fn hw_of_byte(b: u8) -> HardwareType {
    if b == 1 {
        HardwareType::Ethernet
    } else {
        HardwareType::Other(b)
    }
}

/// The vendor class identifier string of DHCP option 60.
#[derive(Debug, PartialEq, Eq, Clone)]
pub struct VendorClassIdentifier {
    pub data: String,
}

impl View for VendorClassIdentifier {
    type V = Seq<u8>;

    open spec fn view(&self) -> Seq<u8> {
        encode_utf8(self.data@)
    }
}

/// The client UUID of DHCP option 97: a type byte (0 = UUID) and the
/// 16 UUID bytes.
#[derive(Debug, PartialEq, Eq, Clone)]
pub struct PxeUuid {
    pub uuid_type: u8,
    pub bytes: Vec<u8>,
}

impl View for PxeUuid {
    type V = (u8, Seq<u8>);

    open spec fn view(&self) -> (u8, Seq<u8>) {
        (self.uuid_type, self.bytes@)
    }
}

/// The client identifier of DHCP option 61: a hardware type and the
/// hardware address bytes.
#[derive(Debug, PartialEq, Eq, Clone)]
pub struct ClientIdentifier {
    pub hardware_type: HardwareType,
    pub hardware_address: Vec<u8>,
}

impl View for ClientIdentifier {
    type V = (HardwareType, Seq<u8>);

    open spec fn view(&self) -> (HardwareType, Seq<u8>) {
        (self.hardware_type, self.hardware_address@)
    }
}

/// The network interface identifier version of DHCP option 94.
#[derive(Debug, PartialEq, Eq, Structural, Clone, Copy)]
pub struct NetworkInterfaceVersion {
    pub interface_type: u8,
    pub major: u8,
    pub minor: u8,
}

/// The descriptor of a PXE client, distilled from one DHCP request.
#[derive(Debug, PartialEq, Eq, Clone)]
pub struct PxeClientInfo {
    pub client_arch: ClientArchType,
    /// Optionally identifies the vendor type and configuration of a DHCP client.
    pub vendor_id: Option<VendorClassIdentifier>,
    pub client_uuid: PxeUuid,
    pub msg_type: DhcpMessageType,
    pub network_interface_version: NetworkInterfaceVersion,
    pub client_identifier: ClientIdentifier,
    pub transaction_id: u32,
    pub secs: u16,
    pub firmware_type: FirmwareType,
}

/// The specification-level image of a `PxeClientInfo`.
#[verifier::ext_equal]
pub struct PxeInfoView {
    pub client_arch: ClientArchType,
    pub vendor_id: Option<Seq<u8>>,
    pub client_uuid: (u8, Seq<u8>),
    pub msg_type: DhcpMessageType,
    pub network_interface_version: NetworkInterfaceVersion,
    pub client_identifier: (HardwareType, Seq<u8>),
    pub transaction_id: u32,
    pub secs: u16,
    pub firmware_type: FirmwareType,
}

impl View for PxeClientInfo {
    type V = PxeInfoView;

    open spec fn view(&self) -> PxeInfoView {
        PxeInfoView {
            client_arch: self.client_arch,
            vendor_id: match self.vendor_id {
                Some(v) => Some(v@),
                None => None,
            },
            client_uuid: self.client_uuid@,
            msg_type: self.msg_type,
            network_interface_version: self.network_interface_version,
            client_identifier: self.client_identifier@,
            transaction_id: self.transaction_id,
            secs: self.secs,
            firmware_type: self.firmware_type,
        }
    }
}

/// The required PXE options, in the order their absence is reported.
#[derive(Debug, PartialEq, Eq, Structural, Clone, Copy)]
pub enum RequiredOption {
    ClientArch,
    ClientId,
    ClientUuid,
    MessageType,
    NifVersion,
}

/// The name a missing option is reported under.
pub open spec fn missing_name(o: RequiredOption) -> Seq<char> {
    match o {
        RequiredOption::ClientArch => "Client Architecture"@,
        RequiredOption::ClientId => "Client Identifier"@,
        RequiredOption::ClientUuid => "Client UUID"@,
        RequiredOption::MessageType => "Message Type"@,
        RequiredOption::NifVersion => "Network Interface Version"@,
    }
}

/// The running state of the option walk.
pub struct AccView {
    pub client_arch: Option<ClientArchType>,
    pub vendor_id: Option<Seq<u8>>,
    pub msg_type: Option<DhcpMessageType>,
    pub network_interface_version: Option<NetworkInterfaceVersion>,
    pub client_uuid: Option<(u8, Seq<u8>)>,
    pub client_identifier: Option<(HardwareType, Seq<u8>)>,
    pub firmware_type: FirmwareType,
}

impl AccView {
    /// Nothing collected yet.
    pub open spec fn init() -> AccView {
        AccView {
            client_arch: None,
            vendor_id: None,
            msg_type: None,
            network_interface_version: None,
            client_uuid: None,
            client_identifier: None,
            firmware_type: FirmwareType::Unknown,
        }
    }
}

/// The bytes of the string "iPXE" in UserClassInformation.
pub open spec fn ipxe_bytes() -> Seq<u8> {
    seq![105u8, 80u8, 88u8, 69u8]
}

/// What one recognized option does to the walk state; `None` is a
/// malformed option payload.
pub open spec fn step_option(acc: AccView, kind: u8, data: Seq<u8>) -> Option<AccView> {
    if kind == 53 {
        // MessageType
        if data.len() < 1 {
            None
        } else {
            match msg_type_of(data[0]) {
                Some(t) => Some(AccView { msg_type: Some(t), ..acc }),
                None => None,
            }
        }
    } else if kind == 93 {
        // ClientSystemArchitecture
        if data.len() != 2 {
            None
        } else {
            match arch_of_tag(be16(data[0], data[1])) {
                Some(t) => Some(AccView { client_arch: Some(t), ..acc }),
                None => None,
            }
        }
    } else if kind == 94 {
        // ClientNetworkInterfaceIdentifier
        if data.len() != 3 {
            None
        } else {
            Some(
                AccView {
                    network_interface_version: Some(
                        NetworkInterfaceVersion {
                            interface_type: data[0],
                            major: data[1],
                            minor: data[2],
                        },
                    ),
                    ..acc
                },
            )
        }
    } else if kind == 97 {
        // ClientUuid
        if data.len() != 17 {
            None
        } else {
            Some(AccView { client_uuid: Some((data[0], data.skip(1))), ..acc })
        }
    } else if kind == 60 {
        // VendorClassIdentifier
        if valid_utf8(data) {
            Some(AccView { vendor_id: Some(data), ..acc })
        } else {
            None
        }
    } else if kind == 61 {
        // ClientIdentifier
        if data.len() < 2 {
            None
        } else {
            Some(AccView { client_identifier: Some((hw_of_byte(data[0]), data.skip(1))), ..acc })
        }
    } else if kind == 77 {
        // UserClassInformation
        if data == ipxe_bytes() {
            Some(AccView { firmware_type: FirmwareType::IPxe, ..acc })
        } else {
            Some(acc)
        }
    } else {
        // ParameterRequestList, MaximumMessageSize, and anything
        // unrecognized are skipped.
        Some(acc)
    }
}

/// How an options area is malformed: an option running off the end of
/// the area, or a recognized option whose payload is rejected (the
/// failing option kind is carried).
pub enum WalkError {
    Truncated,
    BadPayload(u8),
}

/// The message a malformed options area is reported with.
pub open spec fn malformed_message(w: WalkError) -> Seq<char> {
    match w {
        WalkError::Truncated => "truncated dhcp option"@,
        WalkError::BadPayload(k) => if k == 53 {
            "Invalid message type"@
        } else if k == 93 {
            "Invalid client architecture"@
        } else if k == 94 {
            "Invalid network interface version"@
        } else if k == 97 {
            "Invalid client uuid"@
        } else if k == 60 {
            "Invalid vendor class identifier"@
        } else {
            "Invalid client identifier"@
        },
    }
}

/// Walks the DHCP options area: pad bytes are skipped, the end option
/// stops the walk, every other option carries a length byte and that
/// many payload bytes. `Err` is a malformed area: a truncated option
/// or a recognized option with a bad payload.
pub open spec fn walk_opts(s: Seq<u8>, acc: AccView) -> Result<AccView, WalkError>
    decreases s.len(),
{
    if s.len() == 0 {
        Ok(acc)
    } else if s[0] == 0 {
        walk_opts(s.drop_first(), acc)
    } else if s[0] == 255 {
        Ok(acc)
    } else if s.len() < 2 || s.len() < 2 + s[1] {
        Err(WalkError::Truncated)
    } else {
        match step_option(acc, s[0], s.subrange(2, 2 + s[1])) {
            None => Err(WalkError::BadPayload(s[0])),
            Some(acc2) => walk_opts(s.skip(2 + s[1]), acc2),
        }
    }
}

/// The classifier's verdict on a packet.
pub enum ClassifyView {
    /// Not a DHCP packet: too short or missing the magic cookie.
    NotDhcp,
    /// A DHCP packet whose opcode is not BOOTREQUEST.
    NotRequest,
    /// A malformed options area.
    BadOption(WalkError),
    /// A well-formed request lacking a required PXE option.
    MissingOption(RequiredOption),
    /// A well-formed PXE request.
    Accepted(PxeInfoView),
}

/// The DHCP magic cookie.
pub open spec fn magic_cookie() -> Seq<u8> {
    seq![99u8, 130u8, 83u8, 99u8]
}

/// The client hardware address field of a BOOTP packet (six bytes).
pub open spec fn chaddr_of(p: Seq<u8>) -> Seq<u8> {
    p.subrange(28, 34)
}

/// What the classifier decides for packet `p`, in full.
pub open spec fn pxe_discover_spec(p: Seq<u8>) -> ClassifyView {
    if p.len() < 240 || p.subrange(236, 240) != magic_cookie() {
        ClassifyView::NotDhcp
    } else if p[0] != BOOTP_REQUEST {
        ClassifyView::NotRequest
    } else {
        match walk_opts(p.skip(240), AccView::init()) {
            Err(w) => ClassifyView::BadOption(w),
            Ok(acc) => {
                let cid = if acc.client_identifier is Some {
                    acc.client_identifier
                } else {
                    Some((HardwareType::Ethernet, chaddr_of(p)))
                };
                if acc.client_arch is None {
                    ClassifyView::MissingOption(RequiredOption::ClientArch)
                } else if acc.client_uuid is None {
                    ClassifyView::MissingOption(RequiredOption::ClientUuid)
                } else if acc.msg_type is None {
                    ClassifyView::MissingOption(RequiredOption::MessageType)
                } else if acc.network_interface_version is None {
                    ClassifyView::MissingOption(RequiredOption::NifVersion)
                } else {
                    ClassifyView::Accepted(
                        PxeInfoView {
                            client_arch: acc.client_arch->Some_0,
                            vendor_id: acc.vendor_id,
                            client_uuid: acc.client_uuid->Some_0,
                            msg_type: acc.msg_type->Some_0,
                            network_interface_version: acc.network_interface_version->Some_0,
                            client_identifier: cid->Some_0,
                            transaction_id: be32(p[4], p[5], p[6], p[7]),
                            secs: be16(p[8], p[9]),
                            firmware_type: acc.firmware_type,
                        },
                    )
                }
            },
        }
    }
}

/// Any DHCP packet whose opcode is not BOOTREQUEST is not classified
/// as a request, whatever its options hold: the classifier ignores it.
pub proof fn lemma_non_request_ignored(p: Seq<u8>)
    requires
        p.len() >= 240,
        p.subrange(236, 240) == magic_cookie(),
        p[0] != BOOTP_REQUEST,
    ensures
        pxe_discover_spec(p) is NotRequest,
{
}

/// Every accepted request's descriptor echoes the packet's transaction
/// id and secs, and its client identifier is the explicit option where
/// one was walked, else the packet's chaddr with hardware type
/// Ethernet.
pub proof fn lemma_accepted_descriptor(p: Seq<u8>)
    requires
        pxe_discover_spec(p) is Accepted,
    ensures
        pxe_discover_spec(p)->Accepted_0.transaction_id == be32(p[4], p[5], p[6], p[7]),
        pxe_discover_spec(p)->Accepted_0.secs == be16(p[8], p[9]),
        walk_opts(p.skip(240), AccView::init()) matches Ok(acc) && (match acc.client_identifier {
            Some(cid) => pxe_discover_spec(p)->Accepted_0.client_identifier == cid,
            None => pxe_discover_spec(p)->Accepted_0.client_identifier == (
                HardwareType::Ethernet,
                chaddr_of(p),
            ),
        }),
{
}

/// The option walk never stores a client UUID of any length but 16.
pub proof fn lemma_walk_uuid_len(s: Seq<u8>, acc: AccView)
    requires
        acc.client_uuid matches Some(u) ==> u.1.len() == 16,
    ensures
        walk_opts(s, acc) matches Ok(a2) ==> (a2.client_uuid matches Some(u2) ==> u2.1.len()
            == 16),
    decreases s.len(),
{
    if s.len() == 0 {
    } else if s[0] == 0 {
        lemma_walk_uuid_len(s.drop_first(), acc);
    } else if s[0] == 255 {
    } else if s.len() < 2 || s.len() < 2 + s[1] {
    } else {
        match step_option(acc, s[0], s.subrange(2, 2 + s[1])) {
            None => {},
            Some(acc2) => {
                lemma_walk_uuid_len(s.skip(2 + s[1]), acc2);
            },
        }
    }
}

/// An accepted packet always carries a 16-byte client UUID.
pub proof fn lemma_accepted_uuid_len(p: Seq<u8>)
    ensures
        pxe_discover_spec(p) matches ClassifyView::Accepted(v) ==> v.client_uuid.1.len() == 16,
{
    if pxe_discover_spec(p) is Accepted {
        lemma_walk_uuid_len(p.skip(240), AccView::init());
    }
}

/// The walk state named by the executable classifier's locals.
pub open spec fn mk_acc(
    client_arch: Option<ClientArchType>,
    vendor_id: Option<VendorClassIdentifier>,
    msg_type: Option<DhcpMessageType>,
    network_interface_version: Option<NetworkInterfaceVersion>,
    client_uuid: Option<PxeUuid>,
    client_identifier: Option<ClientIdentifier>,
    firmware_type: FirmwareType,
) -> AccView {
    AccView {
        client_arch,
        vendor_id: match vendor_id {
            Some(v) => Some(v@),
            None => None,
        },
        msg_type,
        network_interface_version,
        client_uuid: match client_uuid {
            Some(u) => Some(u@),
            None => None,
        },
        client_identifier: match client_identifier {
            Some(c) => Some(c@),
            None => None,
        },
        firmware_type,
    }
}

/// Relies on `String::from_utf8`: it succeeds exactly on valid UTF-8,
/// and the returned string's UTF-8 encoding is the input bytes.
#[verifier::external_body]
fn string_from_utf8(v: Vec<u8>) -> (r: Option<String>)
    ensures
        r is Some <==> valid_utf8(v@),
        r matches Some(s) ==> encode_utf8(s@) == v@,
{
    String::from_utf8(v).ok()
}

/// Classifies one inbound DHCP packet, exactly as `pxe_discover_spec`
/// describes: a non-request is ignored, wire-format violations are
/// malformed, an absent required option is reported by name, and a
/// well-formed PXE request yields the client descriptor.
pub fn pxe_discover(packet: &Vec<u8>) -> (r: Result<PxeClientInfo, Error>)
    ensures
        match r {
            Ok(info) => pxe_discover_spec(packet@) matches ClassifyView::Accepted(v) && info@ == v,
            Err(e) => match pxe_discover_spec(packet@) {
                ClassifyView::NotDhcp => e matches Error::Malformed(m) && m@ == (if packet@.len()
                    < 240 {
                    "dhcp packet too short"@
                } else {
                    "dhcp magic cookie missing"@
                }),
                ClassifyView::NotRequest => e matches Error::Ignore(m) && m@
                    == "Not a dhcp request"@,
                ClassifyView::BadOption(w) => e matches Error::Malformed(m) && m@
                    == malformed_message(w),
                ClassifyView::MissingOption(o) => e matches Error::MissingDhcpOption(nm) && nm@
                    == missing_name(o),
                ClassifyView::Accepted(_) => false,
            },
        },
{
    let n: usize = packet.len();
    if n < 240 {
        return Err(Error::Malformed("dhcp packet too short".to_owned()));
    }
    if !(packet[236] == 99 && packet[237] == 130 && packet[238] == 83 && packet[239] == 99) {
        proof {
            assert(packet@.subrange(236, 240) != magic_cookie());
        }
        return Err(Error::Malformed("dhcp magic cookie missing".to_owned()));
    }
    proof {
        assert(packet@.subrange(236, 240) =~= magic_cookie());
    }
    if packet[0] != BOOTP_REQUEST {
        return Err(Error::Ignore("Not a dhcp request".to_owned()));
    }

    let mut client_arch: Option<ClientArchType> = None;
    let mut vendor_id: Option<VendorClassIdentifier> = None;
    let mut msg_type: Option<DhcpMessageType> = None;
    let mut network_interface_version: Option<NetworkInterfaceVersion> = None;
    let mut client_uuid: Option<PxeUuid> = None;
    let mut client_identifier: Option<ClientIdentifier> = None;
    let mut firmware_type: FirmwareType = FirmwareType::Unknown;

    let mut pos: usize = 240;
    let mut done: bool = false;
    proof {
        assert(packet@.skip(240) =~= packet@.skip(240));
    }
    while !done && pos < n
        invariant
            240 <= pos <= n == packet@.len(),
            packet@.subrange(236, 240) == magic_cookie(),
            packet@[0] == BOOTP_REQUEST,
            !done ==> walk_opts(packet@.skip(240), AccView::init()) == walk_opts(
                packet@.skip(pos as int),
                mk_acc(
                    client_arch,
                    vendor_id,
                    msg_type,
                    network_interface_version,
                    client_uuid,
                    client_identifier,
                    firmware_type,
                ),
            ),
            done ==> walk_opts(packet@.skip(240), AccView::init()) == Ok::<AccView, WalkError>(
                mk_acc(
                    client_arch,
                    vendor_id,
                    msg_type,
                    network_interface_version,
                    client_uuid,
                    client_identifier,
                    firmware_type,
                ),
            ),
        decreases n - pos + (if done { 0int } else { 1int }),
    {
        let ghost s = packet@.skip(pos as int);
        let ghost acc0 = mk_acc(
            client_arch,
            vendor_id,
            msg_type,
            network_interface_version,
            client_uuid,
            client_identifier,
            firmware_type,
        );
        proof {
            assert(s.len() == n - pos);
            assert(s[0] == packet@[pos as int]);
        }
        let kind = packet[pos];
        if kind == 0 {
            pos = pos + 1;
            proof {
                assert(s.drop_first() =~= packet@.skip(pos as int));
            }
        } else if kind == 255 {
            done = true;
        } else {
            if pos + 1 >= n {
                assert(s.len() < 2);
                return Err(Error::Malformed("truncated dhcp option".to_owned()));
            }
            proof {
                assert(s[1] == packet@[pos + 1]);
            }
            let optlen: usize = packet[pos + 1] as usize;
            if optlen > n - (pos + 2) {
                assert(s.len() < 2 + s[1]);
                return Err(Error::Malformed("truncated dhcp option".to_owned()));
            }
            let data = subrange_vec(packet, pos + 2, pos + 2 + optlen);
            proof {
                assert(data@ =~= s.subrange(2, 2 + s[1]));
            }
            if kind == 53 {
                if data.len() < 1 {
                    assert(step_option(acc0, kind, data@) is None);
                    return Err(Error::Malformed("Invalid message type".to_owned()));
                }
                match msg_type_from_byte(data[0]) {
                    Some(t) => {
                        msg_type = Some(t);
                    },
                    None => {
                        return Err(Error::Malformed("Invalid message type".to_owned()));
                    },
                }
            } else if kind == 93 {
                if data.len() != 2 {
                    return Err(Error::Malformed("Invalid client architecture".to_owned()));
                }
                match arch_from_tag(crate::bytes::read_be16(&data, 0)) {
                    Some(t) => {
                        client_arch = Some(t);
                    },
                    None => {
                        return Err(Error::Malformed("Invalid client architecture".to_owned()));
                    },
                }
            } else if kind == 94 {
                if data.len() != 3 {
                    return Err(Error::Malformed("Invalid network interface version".to_owned()));
                }
                network_interface_version = Some(
                    NetworkInterfaceVersion {
                        interface_type: data[0],
                        major: data[1],
                        minor: data[2],
                    },
                );
            } else if kind == 97 {
                if data.len() != 17 {
                    return Err(Error::Malformed("Invalid client uuid".to_owned()));
                }
                let uuid_bytes = subrange_vec(&data, 1, 17);
                proof {
                    assert(uuid_bytes@ =~= data@.skip(1));
                }
                client_uuid = Some(PxeUuid { uuid_type: data[0], bytes: uuid_bytes });
            } else if kind == 60 {
                match string_from_utf8(data) {
                    Some(sdata) => {
                        vendor_id = Some(VendorClassIdentifier { data: sdata });
                    },
                    None => {
                        return Err(Error::Malformed("Invalid vendor class identifier".to_owned()));
                    },
                }
            } else if kind == 61 {
                if data.len() < 2 {
                    return Err(Error::Malformed("Invalid client identifier".to_owned()));
                }
                let addr = subrange_vec(&data, 1, data.len());
                proof {
                    assert(addr@ =~= data@.skip(1));
                }
                let hw = if data[0] == 1 {
                    HardwareType::Ethernet
                } else {
                    HardwareType::Other(data[0])
                };
                client_identifier = Some(
                    ClientIdentifier { hardware_type: hw, hardware_address: addr },
                );
            } else if kind == 77 {
                let mut ipxe: Vec<u8> = Vec::new();
                ipxe.push(105);
                ipxe.push(80);
                ipxe.push(88);
                ipxe.push(69);
                assert(ipxe@ =~= ipxe_bytes());
                if crate::bytes::bytes_eq(&data, &ipxe) {
                    firmware_type = FirmwareType::IPxe;
                }
            } else {
                // Unhandled option: skipped.
            }
            proof {
                let acc1 = mk_acc(
                    client_arch,
                    vendor_id,
                    msg_type,
                    network_interface_version,
                    client_uuid,
                    client_identifier,
                    firmware_type,
                );
                assert(step_option(acc0, kind, data@) == Some(acc1));
            }
            pos = pos + 2 + optlen;
            proof {
                assert(s.skip(2 + s[1]) =~= packet@.skip(pos as int));
            }
        }
    }
    proof {
        if !done {
            assert(packet@.skip(pos as int).len() == 0);
        }
    }

    if client_identifier.is_none() {
        let addr = subrange_vec(packet, 28, 34);
        proof {
            assert(addr@ =~= chaddr_of(packet@));
        }
        client_identifier = Some(
            ClientIdentifier { hardware_type: HardwareType::Ethernet, hardware_address: addr },
        );
    }

    let client_arch = match client_arch {
        Some(a) => a,
        None => {
            return Err(Error::MissingDhcpOption("Client Architecture"));
        },
    };
    let client_identifier = match client_identifier {
        Some(c) => c,
        None => {
            return Err(Error::MissingDhcpOption("Client Identifier"));
        },
    };
    let client_uuid = match client_uuid {
        Some(u) => u,
        None => {
            return Err(Error::MissingDhcpOption("Client UUID"));
        },
    };
    let msg_type = match msg_type {
        Some(m) => m,
        None => {
            return Err(Error::MissingDhcpOption("Message Type"));
        },
    };
    let network_interface_version = match network_interface_version {
        Some(v) => v,
        None => {
            return Err(Error::MissingDhcpOption("Network Interface Version"));
        },
    };

    let info = PxeClientInfo {
        firmware_type,
        client_arch,
        vendor_id,
        client_identifier,
        client_uuid,
        msg_type,
        network_interface_version,
        transaction_id: crate::bytes::read_be32(packet, 4),
        secs: crate::bytes::read_be16(packet, 8),
    };
    proof {
        let v = match pxe_discover_spec(packet@) {
            ClassifyView::Accepted(v) => v,
            _ => arbitrary(),
        };
        assert(info@ =~~= v);
    }
    Ok(info)
}

} // verus!
