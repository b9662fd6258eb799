use vstd::prelude::*;

verus! {

pub const DESC_DEVICE: u8 = 1;
pub const DESC_CONFIGURATION: u8 = 2;
pub const DESC_INTERFACE: u8 = 4;
pub const DESC_ENDPOINT: u8 = 5;
pub const DESC_HID: u8 = 0x21;

/// Size of a Device descriptor.
pub const DEVICE_DESCRIPTOR_LEN: u16 = 18;
/// Size of the buffer a Configuration descriptor is read into.
pub const CONFIG_BUFFER_LEN: u16 = 1023;

pub open spec fn le16_at(b: Seq<u8>, i: int) -> u16 {
    (b[i] as u16 + 256 * (b[i + 1] as u16)) as u16
}

fn read_le16(b: &Vec<u8>, i: usize) -> (r: u16)
    requires
        i <= 0x20000,
        i + 2 <= b@.len(),
    ensures
        r == le16_at(b@, i as int),
{
    b[i] as u16 + 256 * (b[i + 1] as u16)
}

/// The fields of a Device descriptor that the enumeration reads.
#[derive(Clone, Copy, Debug, PartialEq, Eq, Structural)]
pub struct DeviceDescriptor {
    pub usb_version: u16,
    pub class: u8,
    pub max_packet_size: u8,
    pub vendor: u16,
    pub product: u16,
    pub configurations: u8,
}

impl DeviceDescriptor {
    /// Reads the 18-byte Device descriptor; `None` when fewer bytes came.
    pub fn parse(b: &Vec<u8>) -> (r: Option<DeviceDescriptor>)
        ensures
            b@.len() < 18 <==> r is None,
            r matches Some(d) ==> {
                &&& d.usb_version == le16_at(b@, 2)
                &&& d.class == b@[4]
                &&& d.max_packet_size == b@[7]
                &&& d.vendor == le16_at(b@, 8)
                &&& d.product == le16_at(b@, 10)
                &&& d.configurations == b@[17]
            },
    {
        if b.len() < 18 {
            return None;
        }
        Some(
            DeviceDescriptor {
                usb_version: read_le16(b, 2),
                class: b[4],
                max_packet_size: b[7],
                vendor: read_le16(b, 8),
                product: read_le16(b, 10),
                configurations: b[17],
            },
        )
    }
}

/// An interrupt-IN endpoint of a HID interface, as its descriptor gives it.
#[derive(Clone, Copy, Debug, PartialEq, Eq, Structural)]
pub struct HidEndpoint {
    /// Endpoint address; bit7 set for IN.
    pub address: u8,
    pub attributes: u8,
    pub max_packet_size: u16,
    pub interval: u8,
}

pub open spec fn endpoint_at(b: Seq<u8>, i: int) -> HidEndpoint {
    HidEndpoint {
        address: b[i + 2],
        attributes: b[i + 3],
        max_packet_size: le16_at(b, i + 4),
        interval: b[i + 6],
    }
}

/// An endpoint record at `i` that lies whole in the buffer and describes an
/// IN (address bit7) interrupt (attributes 0b11) endpoint.
pub open spec fn is_interrupt_in_at(b: Seq<u8>, i: int) -> bool {
    &&& i + 7 <= b.len()
    &&& b[i + 2] & 0x80 != 0
    &&& b[i + 3] & 3 == 3
}

/// The HID interrupt-IN endpoints found walking records from offset `i` up
/// to `end`, `hid` telling whether the current interface is a HID one.
/// The walk stops at `end`, at the buffer's end, and at a record of length 0.
pub open spec fn walk(b: Seq<u8>, i: int, end: int, hid: bool) -> Seq<HidEndpoint>
    decreases (if i < end {
        end - i
    } else {
        0
    }),
{
    if i < 0 || i >= end || i + 1 >= b.len() || b[i] == 0 {
        Seq::empty()
    } else {
        let next = i + b[i] as int;
        let kind = b[i + 1];
        if kind == DESC_INTERFACE {
            walk(b, next, end, false)
        } else if kind == DESC_HID {
            walk(b, next, end, true)
        } else if kind == DESC_ENDPOINT && hid && is_interrupt_in_at(b, i) {
            seq![endpoint_at(b, i)] + walk(b, next, end, hid)
        } else {
            walk(b, next, end, hid)
        }
    }
}

/// The HID interrupt-IN endpoints of a configuration blob: the walk starts
/// after the Configuration descriptor's own `length` and is bounded by its
/// `total_length`.
pub open spec fn config_endpoints(b: Seq<u8>) -> Seq<HidEndpoint> {
    if b.len() < 4 {
        Seq::empty()
    } else {
        walk(b, b[0] as int, le16_at(b, 2) as int, false)
    }
}

/// Walks a Configuration descriptor blob and returns its HID interrupt-IN
/// endpoints, in the order they appear.
pub fn hid_endpoints(b: &Vec<u8>) -> (r: Vec<HidEndpoint>)
    ensures
        r@ == config_endpoints(b@),
{
    let mut out: Vec<HidEndpoint> = Vec::new();
    if b.len() < 4 {
        return out;
    }
    let end: usize = read_le16(b, 2) as usize;
    let mut i: usize = b[0] as usize;
    let mut hid = false;
    while i < end && i + 1 < b.len() && b[i] != 0
        invariant
            i <= end + 255,
            end <= 0xffff,
            out@ + walk(b@, i as int, end as int, hid) == config_endpoints(b@),
        decreases end + 256 - i,
    {
        let len = b[i];
        let kind = b[i + 1];
        let next = i + len as usize;
        if kind == DESC_INTERFACE {
            hid = false;
        } else if kind == DESC_HID {
            hid = true;
        } else if kind == DESC_ENDPOINT && hid && i + 7 <= b.len() && b[i + 2] & 0x80 != 0 && b[i
            + 3] & 3 == 3 {
            let ep = HidEndpoint {
                address: b[i + 2],
                attributes: b[i + 3],
                max_packet_size: read_le16(b, i + 4),
                interval: b[i + 6],
            };
            proof {
                assert(seq![ep] + walk(b@, next as int, end as int, hid) == walk(
                    b@,
                    i as int,
                    end as int,
                    hid,
                ));
            }
            out.push(ep);
            proof {
                assert(out@ + walk(b@, next as int, end as int, hid) =~= config_endpoints(b@));
            }
        }
        i = next;
    }
    out
}

/// A record of length 0 ends the walk: nothing at or after it is reported.
pub proof fn lemma_zero_length_stops(b: Seq<u8>, k: int, end: int, hid: bool)
    requires
        0 <= k < b.len(),
        b[k] == 0,
    ensures
        walk(b, k, end, hid) == Seq::<HidEndpoint>::empty(),
{
}

} // verus!
