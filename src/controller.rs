use vstd::prelude::*;
use crate::config::{
    config_endpoints, hid_endpoints, DeviceDescriptor, HidEndpoint, CONFIG_BUFFER_LEN,
    DESC_CONFIGURATION, DESC_DEVICE, DEVICE_DESCRIPTOR_LEN,
};
use crate::desc::{Setup, Td};
use crate::mouse::{mouse_event_for, mouse_event_spec, MouseEvent};
use crate::transfer::{
    actual_length_spec, get_descriptor_request, interrupt_in_td, max_len_spec, set_address_request,
    token_is, MAX_PACKET, PID_IN, REQ_GET_DESCRIPTOR, REQ_SET_ADDRESS, TD_ACTIVE, TD_IOC,
};

verus! {

pub const USBCMD: u16 = 0x0;
pub const USBSTS: u16 = 0x2;
pub const USBINTR: u16 = 0x4;
pub const FRNUM: u16 = 0x6;
pub const FLBASEADD: u16 = 0x8;
pub const SOFMOD: u16 = 0xC;
pub const PORTSC1: u16 = 0x10;
pub const PORTSC2: u16 = 0x12;

/// USBCMD bits.
pub const CMD_RUN: u32 = 1;
pub const CMD_HCRESET: u32 = 2;
pub const CMD_GRESET: u32 = 4;

/// PORTSC bits.
pub const PORT_CONNECTED: u16 = 1;
pub const PORT_ENABLE: u32 = 4;
pub const PORT_RESET: u32 = 0x200;

/// Interval between two interrupt-IN polls of a HID endpoint.
pub const POLL_INTERVAL_MS: u64 = 10;

/// Width of a port write.
#[derive(Clone, Copy, Debug, PartialEq, Eq, Structural)]
pub enum Width {
    W8,
    W16,
    W32,
}

/// One write to the controller's I/O space.
#[derive(Clone, Copy, Debug, PartialEq, Eq, Structural)]
pub struct IoWrite {
    pub port: u16,
    pub width: Width,
    pub value: u32,
}

pub open spec fn io(port: int, width: Width, value: u32) -> IoWrite {
    IoWrite { port: port as u16, width, value }
}

/// A UHCI controller: its I/O base and IRQ line, fixed at construction.
#[derive(Clone, Copy, Debug, PartialEq, Eq, Structural)]
pub struct Uhci {
    pub base: usize,
    pub irq: u8,
}

impl Uhci {
    /// The controller whose PCI function reads `bar4` at offset 0x20 and
    /// `irq_reg` at offset 0x3C: the I/O base is BAR4 with its low four bits
    /// masked, the IRQ the low four bits of the interrupt-line byte.
    pub fn new(bar4: u32, irq_reg: u32) -> (r: Uhci)
        ensures
            r.base == (bar4 & 0xFFFF_FFF0) as usize,
            r.irq == (irq_reg as u8) & 0xF,
    {
        Uhci { base: (bar4 & 0xFFFF_FFF0) as usize, irq: (irq_reg as u8) & 0xF }
    }

    /// The I/O space fits below the top of the 16-bit port range.
    pub open spec fn ports_ok(&self) -> bool {
        self.base + PORTSC2 + 2 <= 0x10000
    }

    /// The port of the register at `offset`.
    pub fn port(&self, offset: u16) -> (r: u16)
        requires
            self.ports_ok(),
            offset <= PORTSC2,
        ensures
            r == self.base + offset,
    {
        self.base as u16 + offset
    }

    /// The writes that bring the controller up, in order: global and host
    /// reset, reset released, frame number cleared, frame list installed at
    /// `frame_list_phys`, schedule started.
    pub fn init(&self, frame_list_phys: u32) -> (r: Vec<IoWrite>)
        requires
            self.ports_ok(),
        ensures
            r@ == seq![
                io(self.base + USBCMD, Width::W16, CMD_GRESET | CMD_HCRESET),
                io(self.base + USBCMD, Width::W16, 0),
                io(self.base + FRNUM, Width::W16, 0),
                io(self.base + FLBASEADD, Width::W32, frame_list_phys),
                io(self.base + USBCMD, Width::W16, CMD_RUN),
            ],
    {
        let cmd = self.port(USBCMD);
        let mut r: Vec<IoWrite> = Vec::new();
        r.push(IoWrite { port: cmd, width: Width::W16, value: CMD_GRESET | CMD_HCRESET });
        r.push(IoWrite { port: cmd, width: Width::W16, value: 0 });
        r.push(IoWrite { port: self.port(FRNUM), width: Width::W16, value: 0 });
        r.push(IoWrite { port: self.port(FLBASEADD), width: Width::W32, value: frame_list_phys });
        r.push(IoWrite { port: cmd, width: Width::W16, value: CMD_RUN });
        assert(r@ =~= seq![
            io(self.base + USBCMD, Width::W16, CMD_GRESET | CMD_HCRESET),
            io(self.base + USBCMD, Width::W16, 0),
            io(self.base + FRNUM, Width::W16, 0),
            io(self.base + FLBASEADD, Width::W32, frame_list_phys),
            io(self.base + USBCMD, Width::W16, CMD_RUN),
        ]);
        r
    }

    /// The PORTSC register of root port `index` (0 or 1).
    pub open spec fn portsc_spec(&self, index: u8) -> int {
        self.base + if index == 0 {
            PORTSC1
        } else {
            PORTSC2
        }
    }

    /// The writes that reset root port `index`: reset bit set, then cleared.
    pub fn port_reset(&self, index: u8) -> (r: Vec<IoWrite>)
        requires
            self.ports_ok(),
            index < 2,
        ensures
            r@ == seq![
                io(self.portsc_spec(index), Width::W16, PORT_RESET),
                io(self.portsc_spec(index), Width::W16, 0),
            ],
    {
        let p = self.port(if index == 0 { PORTSC1 } else { PORTSC2 });
        let mut r: Vec<IoWrite> = Vec::new();
        r.push(IoWrite { port: p, width: Width::W16, value: PORT_RESET });
        r.push(IoWrite { port: p, width: Width::W16, value: 0 });
        assert(r@ =~= seq![
            io(self.portsc_spec(index), Width::W16, PORT_RESET),
            io(self.portsc_spec(index), Width::W16, 0),
        ]);
        r
    }

    /// What to do with root port `index` once reset, its PORTSC reading
    /// `portsc`: when a device is connected, the write that enables the port
    /// (the device is then enumerated); otherwise nothing.
    pub fn probe_port(&self, index: u8, portsc: u16) -> (r: Option<IoWrite>)
        requires
            self.ports_ok(),
            index < 2,
        ensures
            portsc & 1 == 0 ==> r is None,
            portsc & 1 == 1 ==> r == Some(io(self.portsc_spec(index), Width::W16, PORT_ENABLE)),
    {
        if portsc & PORT_CONNECTED == PORT_CONNECTED {
            let p = self.port(if index == 0 { PORTSC1 } else { PORTSC2 });
            Some(IoWrite { port: p, width: Width::W16, value: PORT_ENABLE })
        } else {
            assert(portsc & 1 == 0) by (bit_vector)
                requires
                    portsc & 1 != 1,
            ;
            None
        }
    }
}

/// The addresses given to the devices of the root ports, in port order:
/// 1, 2, ... to the ports with a device connected, none to the others.
pub open spec fn addresses_spec(present: Seq<bool>, i: int, next: int) -> Seq<Option<u8>>
    decreases present.len() - i,
{
    if i < 0 || i >= present.len() {
        Seq::empty()
    } else if present[i] {
        seq![Some(next as u8)] + addresses_spec(present, i + 1, next + 1)
    } else {
        seq![None] + addresses_spec(present, i + 1, next)
    }
}

/// Gives each root port with a device the next free address, from 1.
pub fn assign_addresses(present: &Vec<bool>) -> (r: Vec<Option<u8>>)
    requires
        present@.len() <= 127,
    ensures
        r@ == addresses_spec(present@, 0, 1),
{
    let mut r: Vec<Option<u8>> = Vec::new();
    let mut next: u8 = 1;
    let mut i: usize = 0;
    while i < present.len()
        invariant
            i <= present@.len() <= 127,
            1 <= next <= i + 1,
            r@ + addresses_spec(present@, i as int, next as int) == addresses_spec(
                present@,
                0,
                1,
            ),
        decreases present@.len() - i,
    {
        if present[i] {
            r.push(Some(next));
            proof {
                assert(r@ + addresses_spec(present@, i + 1, next + 1) =~= addresses_spec(
                    present@,
                    0,
                    1,
                ));
            }
            next = next + 1;
        } else {
            r.push(None);
            proof {
                assert(r@ + addresses_spec(present@, i + 1, next as int) =~= addresses_spec(
                    present@,
                    0,
                    1,
                ));
            }
        }
        i += 1;
    }
    r
}

/// A control request of the enumeration: sent to `device_address`, reading
/// `data_len` bytes (0 for none).
#[derive(Clone, Copy, Debug, PartialEq, Eq, Structural)]
pub struct Request {
    pub device_address: u8,
    pub setup: Setup,
    pub data_len: u16,
}

/// Where the enumeration of one device stands.
#[derive(Clone, Copy, Debug, PartialEq, Eq, Structural)]
pub enum EnumState {
    /// SET_ADDRESS is next.
    SetAddress,
    /// GET_DESCRIPTOR(Device) is next.
    Device,
    /// GET_DESCRIPTOR(Configuration, index) is next, of `count`.
    Config { index: u8, count: u8 },
    /// Every configuration was walked.
    Done,
    /// A transfer failed; the port is given up.
    Failed,
}

/// The enumeration of the device on one port.
#[derive(Clone, Copy, Debug, PartialEq, Eq, Structural)]
pub struct Enumeration {
    pub address: u8,
    pub state: EnumState,
}

/// The request due in state `s` for the device given `address`.
pub open spec fn request_spec(address: u8, s: EnumState) -> Option<Request> {
    match s {
        EnumState::SetAddress => Some(
            Request {
                device_address: 0,
                setup: Setup {
                    request_type: 0,
                    request: REQ_SET_ADDRESS,
                    value: address as u16,
                    index: 0,
                    len: 0,
                },
                data_len: 0,
            },
        ),
        EnumState::Device => Some(
            Request {
                device_address: address,
                setup: Setup {
                    request_type: 0x80,
                    request: REQ_GET_DESCRIPTOR,
                    value: (DESC_DEVICE as u16 * 256) as u16,
                    index: 0,
                    len: DEVICE_DESCRIPTOR_LEN,
                },
                data_len: DEVICE_DESCRIPTOR_LEN,
            },
        ),
        EnumState::Config { index, count } => Some(
            Request {
                device_address: address,
                setup: Setup {
                    request_type: 0x80,
                    request: REQ_GET_DESCRIPTOR,
                    value: (DESC_CONFIGURATION as u16 * 256 + index as u16) as u16,
                    index: 0,
                    len: CONFIG_BUFFER_LEN,
                },
                data_len: CONFIG_BUFFER_LEN,
            },
        ),
        _ => None,
    }
}

/// The state after the request of state `s` completed (`ok`) with `data`.
pub open spec fn next_state_spec(s: EnumState, ok: bool, data: Seq<u8>) -> EnumState {
    match s {
        EnumState::Done => EnumState::Done,
        EnumState::Failed => EnumState::Failed,
        _ => if !ok {
            EnumState::Failed
        } else {
            match s {
                EnumState::SetAddress => EnumState::Device,
                EnumState::Device => if data.len() < 18 {
                    EnumState::Failed
                } else if data[17] == 0 {
                    EnumState::Done
                } else {
                    EnumState::Config { index: 0, count: data[17] }
                },
                EnumState::Config { index, count } => if index + 1 < count {
                    EnumState::Config { index: (index + 1) as u8, count }
                } else {
                    EnumState::Done
                },
                _ => s,
            }
        },
    }
}

/// The HID pollers to start after the request of state `s` completed.
pub open spec fn pollers_spec(s: EnumState, ok: bool, data: Seq<u8>) -> Seq<HidEndpoint> {
    if ok && s is Config {
        config_endpoints(data)
    } else {
        Seq::empty()
    }
}

impl Enumeration {
    /// The enumeration of a freshly enabled device that will get `address`.
    pub fn new(address: u8) -> (r: Enumeration)
        ensures
            r.address == address,
            r.state == EnumState::SetAddress,
    {
        Enumeration { address, state: EnumState::SetAddress }
    }

    /// The request to send next, if any.
    pub fn next_request(&self) -> (r: Option<Request>)
        ensures
            r == request_spec(self.address, self.state),
    {
        match self.state {
            EnumState::SetAddress => Some(
                Request { device_address: 0, setup: set_address_request(self.address), data_len: 0 },
            ),
            EnumState::Device => Some(
                Request {
                    device_address: self.address,
                    setup: get_descriptor_request(DESC_DEVICE, 0, DEVICE_DESCRIPTOR_LEN),
                    data_len: DEVICE_DESCRIPTOR_LEN,
                },
            ),
            EnumState::Config { index, count } => Some(
                Request {
                    device_address: self.address,
                    setup: get_descriptor_request(DESC_CONFIGURATION, index, CONFIG_BUFFER_LEN),
                    data_len: CONFIG_BUFFER_LEN,
                },
            ),
            _ => None,
        }
    }

    /// Takes the outcome of the last request (`ok`, and the bytes read) and
    /// returns the HID interrupt-IN endpoints to poll.
    pub fn on_complete(&mut self, ok: bool, data: &Vec<u8>) -> (r: Vec<HidEndpoint>)
        ensures
            final(self).address == old(self).address,
            final(self).state == next_state_spec(old(self).state, ok, data@),
            r@ == pollers_spec(old(self).state, ok, data@),
    {
        let mut found: Vec<HidEndpoint> = Vec::new();
        match self.state {
            EnumState::Done | EnumState::Failed => {},
            EnumState::SetAddress => {
                self.state = if ok {
                    EnumState::Device
                } else {
                    EnumState::Failed
                };
            },
            EnumState::Device => {
                self.state = if !ok {
                    EnumState::Failed
                } else {
                    match DeviceDescriptor::parse(data) {
                        None => EnumState::Failed,
                        Some(d) => if d.configurations == 0 {
                            EnumState::Done
                        } else {
                            EnumState::Config { index: 0, count: d.configurations }
                        },
                    }
                };
            },
            EnumState::Config { index, count } => {
                if ok {
                    found = hid_endpoints(data);
                    self.state = if (index as u16) + 1 < count as u16 {
                        EnumState::Config { index: index + 1, count }
                    } else {
                        EnumState::Done
                    };
                } else {
                    self.state = EnumState::Failed;
                }
            },
        }
        found
    }
}

/// The poller of one HID interrupt-IN endpoint.
#[derive(Clone, Copy, Debug, PartialEq, Eq, Structural)]
pub struct HidPoller {
    pub address: u8,
    pub endpoint: u8,
    pub len: u16,
}

impl HidPoller {
    /// The poller of endpoint `ep` of the device at `address`; `None` when the
    /// endpoint's packet size is 0 or above what a TD can carry.
    pub fn new(address: u8, ep: HidEndpoint) -> (r: Option<HidPoller>)
        requires
            address <= 127,
        ensures
            (ep.max_packet_size == 0 || ep.max_packet_size > MAX_PACKET) <==> r is None,
            r matches Some(p) ==> p == (HidPoller {
                address,
                endpoint: ep.address & 0xF,
                len: ep.max_packet_size,
            }),
    {
        if ep.max_packet_size == 0 || ep.max_packet_size > MAX_PACKET {
            None
        } else {
            Some(HidPoller { address, endpoint: ep.address & 0xF, len: ep.max_packet_size })
        }
    }

    pub open spec fn wf(&self) -> bool {
        &&& self.address <= 127
        &&& self.endpoint <= 15
        &&& 1 <= self.len <= MAX_PACKET
    }

    /// The TD of one poll, reading into the zeroed buffer at `buffer_phys`.
    pub fn td(&self, buffer_phys: u32) -> (r: Td)
        requires
            self.wf(),
        ensures
            r.link_ptr == 1,
            r.ctrl_sts == TD_ACTIVE | TD_IOC,
            token_is(r.token, max_len_spec(self.len), self.endpoint, self.address, PID_IN),
            r.buffer == buffer_phys,
    {
        interrupt_in_td(self.address, self.endpoint, self.len, buffer_phys)
    }

    /// The mouse event of a completed poll whose TD reads `ctrl_sts` and
    /// whose buffer holds `report`, on an `xres` by `yres` screen.
    pub fn on_complete(&self, ctrl_sts: u32, report: &Vec<u8>, xres: u16, yres: u16) -> (r: Option<
        MouseEvent,
    >)
        ensures
            actual_length_spec(ctrl_sts) == 0 ==> r is None,
            actual_length_spec(ctrl_sts) != 0 ==> r == Some(mouse_event_spec(report@, xres, yres)),
    {
        mouse_event_for(ctrl_sts, report, xres, yres)
    }
}

} // verus!
