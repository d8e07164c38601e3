//! USB side of device discovery: which interfaces speak MTP, which endpoints
//! to use, transfer sizes, and a stable id for the port a device is on.
use vstd::prelude::*;

verus! {

/// Smallest non-zero multiple of `packet` that is at least `size`
/// (`max(size, 1)` when `packet` is zero).
pub open spec fn aligned_size(size: nat, packet: nat) -> nat {
    if packet == 0 {
        if size == 0 { 1 } else { size }
    } else if size == 0 {
        packet
    } else if size % packet == 0 {
        size
    } else {
        ((size / packet) + 1) * packet
    }
}

/// Round `size` up to the nearest multiple of `packet_size`; a zero size
/// becomes one packet, and a zero packet size leaves the size (at least 1).
pub fn align_to_packet_size(size: usize, packet_size: usize) -> (r: usize)
    requires
        aligned_size(size as nat, packet_size as nat) <= usize::MAX,
    ensures
        r == aligned_size(size as nat, packet_size as nat),
{
    if packet_size == 0 {
        return if size == 0 { 1 } else { size };
    }
    if size == 0 {
        return packet_size;
    }
    if size % packet_size == 0 {
        size
    } else {
        let q = size / packet_size;
        assert(aligned_size(size as nat, packet_size as nat) == (q + 1) * packet_size);
        assert(q + 1 <= (q + 1) * packet_size) by (nonlinear_arith)
            requires packet_size > 0;
        (q + 1) * packet_size
    }
}

} // verus!

verus! {

/// Interface class: still image.
pub const CLASS_IMAGE: u8 = 0x06;
/// Interface class: vendor specific.
pub const CLASS_VENDOR: u8 = 0xFF;
/// MTP interface subclass.
pub const MTP_SUBCLASS: u8 = 0x01;
/// MTP interface protocol (PTP).
pub const MTP_PROTOCOL: u8 = 0x01;

/// Direction of a USB endpoint.
#[derive(Debug, Clone, Copy, PartialEq, Eq, Structural)]
pub enum EndpointDirection {
    In,
    Out,
}

/// Transfer type of a USB endpoint.
#[derive(Debug, Clone, Copy, PartialEq, Eq, Structural)]
pub enum TransferType {
    Control,
    Isochronous,
    Bulk,
    Interrupt,
}

/// One endpoint of an interface's first alternate setting.
#[derive(Debug, Clone, Copy, PartialEq, Eq, Structural)]
pub struct EndpointInfo {
    pub address: u8,
    pub direction: EndpointDirection,
    pub transfer_type: TransferType,
}

/// An interface: its number, and the class codes and endpoints of its first
/// alternate setting (`None` when it has no alternate setting).
#[derive(Debug, PartialEq, Eq)]
pub struct InterfaceInfo {
    pub number: u8,
    pub alt: Option<AltSettingInfo>,
}

/// Class codes and endpoints of an alternate setting.
#[derive(Debug, PartialEq, Eq)]
pub struct AltSettingInfo {
    pub class: u8,
    pub subclass: u8,
    pub protocol: u8,
    pub endpoints: Vec<EndpointInfo>,
}

/// Standard MTP class codes: image or vendor class, MTP subclass and protocol.
pub open spec fn mtp_class(class: u8, subclass: u8, protocol: u8) -> bool {
    (class == CLASS_IMAGE || class == CLASS_VENDOR) && subclass == MTP_SUBCLASS && protocol
        == MTP_PROTOCOL
}

/// Whether class/subclass/protocol match standard MTP identifiers.
pub fn is_mtp_class(class: u8, subclass: u8, protocol: u8) -> (r: bool)
    ensures
        r == mtp_class(class, subclass, protocol),
{
    (class == CLASS_IMAGE || class == CLASS_VENDOR) && subclass == MTP_SUBCLASS && protocol
        == MTP_PROTOCOL
}

/// Some endpoint has this direction and transfer type.
pub open spec fn has_endpoint(eps: Seq<EndpointInfo>, d: EndpointDirection, t: TransferType) -> bool {
    exists|i: int| 0 <= i < eps.len() && eps[i].direction == d && eps[i].transfer_type == t
}

/// The MTP endpoint layout: bulk IN, bulk OUT and interrupt IN.
pub open spec fn mtp_layout(eps: Seq<EndpointInfo>) -> bool {
    &&& has_endpoint(eps, EndpointDirection::In, TransferType::Bulk)
    &&& has_endpoint(eps, EndpointDirection::Out, TransferType::Bulk)
    &&& has_endpoint(eps, EndpointDirection::In, TransferType::Interrupt)
}

/// Whether the endpoints have the MTP layout.
pub fn has_mtp_endpoint_layout(eps: &Vec<EndpointInfo>) -> (r: bool)
    ensures
        r == mtp_layout(eps@),
{
    let mut bulk_in = false;
    let mut bulk_out = false;
    let mut interrupt_in = false;
    let mut i: usize = 0;
    while i < eps.len()
        invariant
            i <= eps@.len(),
            bulk_in == has_endpoint(eps@.subrange(0, i as int), EndpointDirection::In, TransferType::Bulk),
            bulk_out == has_endpoint(eps@.subrange(0, i as int), EndpointDirection::Out, TransferType::Bulk),
            interrupt_in == has_endpoint(eps@.subrange(0, i as int), EndpointDirection::In, TransferType::Interrupt),
        decreases eps@.len() - i,
    {
        let ghost pre = eps@.subrange(0, i as int);
        let ghost post = eps@.subrange(0, i + 1);
        assert(post =~= pre.push(eps@[i as int]));
        let e = eps[i];
        match (e.direction, e.transfer_type) {
            (EndpointDirection::In, TransferType::Bulk) => bulk_in = true,
            (EndpointDirection::Out, TransferType::Bulk) => bulk_out = true,
            (EndpointDirection::In, TransferType::Interrupt) => interrupt_in = true,
            _ => {},
        }
        assert forall|d: EndpointDirection, t: TransferType|
            has_endpoint(post, d, t) == (has_endpoint(pre, d, t) || (e.direction == d && e.transfer_type == t)) by {
            if has_endpoint(post, d, t) && !(e.direction == d && e.transfer_type == t) {
                let k = choose|k: int| 0 <= k < post.len() && post[k].direction == d && post[k].transfer_type == t;
                assert(pre[k] == post[k]);
            }
            if has_endpoint(pre, d, t) {
                let k = choose|k: int| 0 <= k < pre.len() && pre[k].direction == d && pre[k].transfer_type == t;
                assert(post[k] == pre[k]);
            }
            if e.direction == d && e.transfer_type == t {
                assert(post[i as int] == e);
            }
        };
        i = i + 1;
    }
    assert(eps@.subrange(0, eps@.len() as int) =~= eps@);
    bulk_in && bulk_out && interrupt_in
}

/// An MTP interface: standard MTP class codes, or the vendor class with the
/// MTP endpoint layout.
pub open spec fn mtp_interface(alt: AltSettingInfo) -> bool {
    mtp_class(alt.class, alt.subclass, alt.protocol) || (alt.class == CLASS_VENDOR && mtp_layout(
        alt.endpoints@,
    ))
}

/// Whether an alternate setting looks like an MTP interface.
pub fn is_mtp_interface(alt: &AltSettingInfo) -> (r: bool)
    ensures
        r == mtp_interface(*alt),
{
    if is_mtp_class(alt.class, alt.subclass, alt.protocol) {
        return true;
    }
    alt.class == CLASS_VENDOR && has_mtp_endpoint_layout(&alt.endpoints)
}

/// A device whose device-level class is neither composite (0) nor vendor
/// specific cannot carry an MTP interface unless its own class says MTP.
pub fn may_carry_mtp_interface(class: u8) -> (r: bool)
    ensures
        r == (class == 0 || class == CLASS_VENDOR),
{
    class == 0 || class == CLASS_VENDOR
}

/// Class, subclass and protocol codes of a device or an interface.
#[derive(Debug, Clone, Copy, PartialEq, Eq, Structural)]
pub struct ClassCodes {
    pub class: u8,
    pub subclass: u8,
    pub protocol: u8,
}

/// What can be said of a device from its descriptors without opening it.
#[derive(Debug, Clone, Copy, PartialEq, Eq, Structural)]
pub enum MtpVerdict {
    /// It is an MTP device.
    Mtp,
    /// It is not an MTP device.
    NotMtp,
    /// Open it and look at its interfaces' endpoints.
    Inspect,
}

/// The verdict on a device with class codes `device` and interface codes
/// `interfaces`: MTP by its own codes or by an interface's; not MTP when its
/// class can carry no MTP interface; otherwise to be inspected opened.
pub open spec fn verdict(device: ClassCodes, interfaces: Seq<ClassCodes>) -> MtpVerdict {
    if mtp_class(device.class, device.subclass, device.protocol) {
        MtpVerdict::Mtp
    } else if !(device.class == 0 || device.class == CLASS_VENDOR) {
        MtpVerdict::NotMtp
    } else if exists|i: int| 0 <= i < interfaces.len() && #[trigger] mtp_class(
        interfaces[i].class,
        interfaces[i].subclass,
        interfaces[i].protocol,
    ) {
        MtpVerdict::Mtp
    } else {
        MtpVerdict::Inspect
    }
}

/// Decides [`verdict`] for a device found on the bus.
pub fn device_verdict(device: ClassCodes, interfaces: &Vec<ClassCodes>) -> (v: MtpVerdict)
    ensures
        v == verdict(device, interfaces@),
{
    if is_mtp_class(device.class, device.subclass, device.protocol) {
        return MtpVerdict::Mtp;
    }
    if !may_carry_mtp_interface(device.class) {
        return MtpVerdict::NotMtp;
    }
    let mut i: usize = 0;
    while i < interfaces.len()
        invariant
            i <= interfaces@.len(),
            !mtp_class(device.class, device.subclass, device.protocol),
            device.class == 0 || device.class == CLASS_VENDOR,
            forall|k: int| 0 <= k < i ==> !#[trigger] mtp_class(
                interfaces@[k].class,
                interfaces@[k].subclass,
                interfaces@[k].protocol,
            ),
        decreases interfaces@.len() - i,
    {
        let c = interfaces[i];
        if is_mtp_class(c.class, c.subclass, c.protocol) {
            assert(mtp_class(
                interfaces@[i as int].class,
                interfaces@[i as int].subclass,
                interfaces@[i as int].protocol,
            ));
            return MtpVerdict::Mtp;
        }
        i = i + 1;
    }
    MtpVerdict::Inspect
}

/// Whether some interface (by its first alternate setting) of an opened
/// device looks like MTP.
pub fn any_mtp_interface(alts: &Vec<AltSettingInfo>) -> (r: bool)
    ensures
        r == exists|i: int| 0 <= i < alts@.len() && #[trigger] mtp_interface(alts@[i]),
{
    let mut i: usize = 0;
    while i < alts.len()
        invariant
            i <= alts@.len(),
            forall|k: int| 0 <= k < i ==> !#[trigger] mtp_interface(alts@[k]),
        decreases alts@.len() - i,
    {
        if is_mtp_interface(&alts[i]) {
            return true;
        }
        i = i + 1;
    }
    false
}

/// The interface and endpoint addresses used to talk MTP.
#[derive(Debug, Clone, Copy, PartialEq, Eq, Structural)]
pub struct MtpEndpoints {
    pub interface: u8,
    pub bulk_in: u8,
    pub bulk_out: u8,
    pub interrupt_in: u8,
}

/// Why no MTP endpoints could be chosen.
#[derive(Debug, Clone, Copy, PartialEq, Eq, Structural)]
pub enum EndpointFault {
    NoMtpInterface,
    NoBulkIn,
    NoBulkOut,
    NoInterruptIn,
}

/// Index of the first interface whose first alternate setting is an MTP interface.
pub open spec fn first_mtp_interface(ifs: Seq<InterfaceInfo>, i: int) -> bool {
    &&& 0 <= i < ifs.len()
    &&& ifs[i].alt matches Some(a) && mtp_interface(a)
    &&& forall|k: int| 0 <= k < i ==> !(#[trigger] ifs[k].alt matches Some(a) && mtp_interface(a))
}

/// Address of the last endpoint with this direction and type, if any.
pub open spec fn last_endpoint(eps: Seq<EndpointInfo>, d: EndpointDirection, t: TransferType) -> Option<u8>
    decreases eps.len(),
{
    if eps.len() == 0 {
        None
    } else if eps.last().direction == d && eps.last().transfer_type == t {
        Some(eps.last().address)
    } else {
        last_endpoint(eps.drop_last(), d, t)
    }
}

/// Picks the endpoints of `ifs[i]`.
pub open spec fn endpoints_of(ifs: Seq<InterfaceInfo>, i: int) -> Result<MtpEndpoints, EndpointFault> {
    let eps = ifs[i].alt->Some_0.endpoints@;
    match (
        last_endpoint(eps, EndpointDirection::In, TransferType::Bulk),
        last_endpoint(eps, EndpointDirection::Out, TransferType::Bulk),
        last_endpoint(eps, EndpointDirection::In, TransferType::Interrupt),
    ) {
        (None, _, _) => Err(EndpointFault::NoBulkIn),
        (Some(_), None, _) => Err(EndpointFault::NoBulkOut),
        (Some(_), Some(_), None) => Err(EndpointFault::NoInterruptIn),
        (Some(a), Some(b), Some(c)) => Ok(MtpEndpoints { interface: ifs[i].number, bulk_in: a, bulk_out: b, interrupt_in: c }),
    }
}

/// Chooses the MTP interface (the first one that looks like MTP) and its bulk
/// IN, bulk OUT and interrupt IN endpoints (the last of each in the descriptor).
pub fn find_mtp_endpoints(ifs: &Vec<InterfaceInfo>) -> (r: Result<MtpEndpoints, EndpointFault>)
    ensures
        (forall|i: int| 0 <= i < ifs@.len() ==> !(#[trigger] ifs@[i].alt matches Some(a) && mtp_interface(a)))
            ==> r == Err::<MtpEndpoints, EndpointFault>(EndpointFault::NoMtpInterface),
        forall|i: int| first_mtp_interface(ifs@, i) ==> r == endpoints_of(ifs@, i),
{
    let mut i: usize = 0;
    while i < ifs.len()
        invariant
            i <= ifs@.len(),
            forall|k: int| 0 <= k < i ==> !(#[trigger] ifs@[k].alt matches Some(a) && mtp_interface(a)),
        decreases ifs@.len() - i,
    {
        match &ifs[i].alt {
            None => {},
            Some(alt) => {
                if is_mtp_interface(alt) {
                    let mut bulk_in: Option<u8> = None;
                    let mut bulk_out: Option<u8> = None;
                    let mut interrupt_in: Option<u8> = None;
                    let mut j: usize = 0;
                    while j < alt.endpoints.len()
                        invariant
                            j <= alt.endpoints@.len(),
                            bulk_in == last_endpoint(alt.endpoints@.subrange(0, j as int), EndpointDirection::In, TransferType::Bulk),
                            bulk_out == last_endpoint(alt.endpoints@.subrange(0, j as int), EndpointDirection::Out, TransferType::Bulk),
                            interrupt_in == last_endpoint(alt.endpoints@.subrange(0, j as int), EndpointDirection::In, TransferType::Interrupt),
                        decreases alt.endpoints@.len() - j,
                    {
                        let ghost post = alt.endpoints@.subrange(0, j + 1);
                        assert(post.drop_last() =~= alt.endpoints@.subrange(0, j as int));
                        let e = alt.endpoints[j];
                        match (e.direction, e.transfer_type) {
                            (EndpointDirection::Out, TransferType::Bulk) => bulk_out = Some(e.address),
                            (EndpointDirection::In, TransferType::Bulk) => bulk_in = Some(e.address),
                            (EndpointDirection::In, TransferType::Interrupt) => interrupt_in = Some(e.address),
                            _ => {},
                        }
                        j = j + 1;
                    }
                    assert(alt.endpoints@.subrange(0, alt.endpoints@.len() as int) =~= alt.endpoints@);
                    assert(first_mtp_interface(ifs@, i as int));
                    assert forall|k: int| first_mtp_interface(ifs@, k) implies k == i by {
                        if k < i {
                        } else if k > i {
                            assert(!(ifs@[i as int].alt matches Some(a) && mtp_interface(a)));
                        }
                    };
                    let a = match bulk_in {
                        Some(a) => a,
                        None => return Err(EndpointFault::NoBulkIn),
                    };
                    let b = match bulk_out {
                        Some(b) => b,
                        None => return Err(EndpointFault::NoBulkOut),
                    };
                    let c = match interrupt_in {
                        Some(c) => c,
                        None => return Err(EndpointFault::NoInterruptIn),
                    };
                    return Ok(MtpEndpoints { interface: ifs[i].number, bulk_in: a, bulk_out: b, interrupt_in: c });
                }
            },
        }
        i = i + 1;
    }
    Err(EndpointFault::NoMtpInterface)
}

/// FNV-1a 64-bit offset basis.
pub const FNV_OFFSET: u64 = 0xcbf2_9ce4_8422_2325;
/// FNV-1a 64-bit prime.
pub const FNV_PRIME: u64 = 0x0100_0000_01b3;

/// One FNV-1a round: xor in the byte, multiply by the prime modulo 2^64.
pub open spec fn fnv_round(h: u64, b: u8) -> u64 {
    (((h ^ (b as u64)) as nat * FNV_PRIME as nat) % 0x1_0000_0000_0000_0000) as u64
}

/// FNV-1a of `bytes` starting from `h`.
pub open spec fn fnv(h: u64, bytes: Seq<u8>) -> u64
    decreases bytes.len(),
{
    if bytes.len() == 0 {
        h
    } else {
        fnv_round(fnv(h, bytes.drop_last()), bytes.last())
    }
}

/// The location id of a USB port: FNV-1a over the bus id, a 0xFF separator,
/// then the port chain.
pub open spec fn location_id(bus_id: Seq<u8>, port_chain: Seq<u8>) -> u64 {
    fnv(fnv_round(fnv(FNV_OFFSET, bus_id), 0xFF), port_chain)
}

fn fnv_extend(h: u64, bytes: &Vec<u8>) -> (r: u64)
    ensures
        r == fnv(h, bytes@),
{
    let mut hash = h;
    let mut i: usize = 0;
    while i < bytes.len()
        invariant
            i <= bytes@.len(),
            hash == fnv(h, bytes@.subrange(0, i as int)),
        decreases bytes@.len() - i,
    {
        assert(bytes@.subrange(0, i + 1).drop_last() =~= bytes@.subrange(0, i as int));
        hash = (hash ^ (bytes[i] as u64)).wrapping_mul(FNV_PRIME);
        i = i + 1;
    }
    assert(bytes@.subrange(0, bytes@.len() as int) =~= bytes@);
    hash
}

/// Stable location identifier derived from the USB topology (bus id text
/// bytes and port chain).
pub fn location_id_from_topology(bus_id: &Vec<u8>, port_chain: &Vec<u8>) -> (r: u64)
    ensures
        r == location_id(bus_id@, port_chain@),
{
    let h = fnv_extend(FNV_OFFSET, bus_id);
    let h = (h ^ 0xFF).wrapping_mul(FNV_PRIME);
    fnv_extend(h, port_chain)
}

} // verus!
