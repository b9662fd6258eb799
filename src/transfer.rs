use vstd::prelude::*;
use crate::desc::{Qh, Setup, Td};

verus! {

pub const PID_SETUP: u8 = 0x2D;
pub const PID_IN: u8 = 0x69;
pub const PID_OUT: u8 = 0xE1;

/// ctrl_sts bit23: the controller has not completed the TD yet.
pub const TD_ACTIVE: u32 = 0x80_0000;
/// ctrl_sts bit25: interrupt on complete.
pub const TD_IOC: u32 = 0x200_0000;
/// ctrl_sts bits 22..17: Stalled, DataBufferError, Babble, NAK, CRC/Timeout, Bitstuff.
pub const TD_ERROR_MASK: u32 = 0x7E_0000;
/// Link bit2: depth-first traversal.
pub const LINK_DEPTH_FIRST: u32 = 4;
/// Link and frame-pointer bit1: the target is a QH.
pub const LINK_QH: u32 = 2;
/// MaxLength field value for a zero-byte packet.
pub const NO_DATA: u32 = 0x7FF;
/// Largest packet a TD may carry.
pub const MAX_PACKET: u16 = 1280;

pub const REQ_SET_ADDRESS: u8 = 5;
pub const REQ_GET_DESCRIPTOR: u8 = 6;

/// The MaxLength field for a packet of `len` bytes: `len - 1`, 0x7FF for none.
pub open spec fn max_len_spec(len: u16) -> u32 {
    if len == 0 {
        0x7FF
    } else {
        (len - 1) as u32
    }
}

pub open spec fn token_max_len(t: u32) -> u32 {
    t >> 21u32
}

pub open spec fn token_endpoint(t: u32) -> u32 {
    (t >> 15u32) & 0xf
}

pub open spec fn token_address(t: u32) -> u32 {
    (t >> 8u32) & 0x7f
}

pub open spec fn token_pid(t: u32) -> u32 {
    t & 0xff
}

/// The token of a TD, read field by field.
pub open spec fn token_is(t: u32, max_len: u32, endpoint: u8, address: u8, pid: u8) -> bool {
    &&& token_max_len(t) == max_len
    &&& token_endpoint(t) == endpoint as u32
    &&& token_address(t) == address as u32
    &&& token_pid(t) == pid as u32
    &&& (t >> 19u32) & 3 == 0
}

/// Packs a TD token.
pub fn make_token(max_len: u32, endpoint: u8, address: u8, pid: u8) -> (r: u32)
    requires
        max_len <= 0x7FF,
        endpoint <= 15,
        address <= 127,
    ensures
        token_is(r, max_len, endpoint, address, pid),
{
    let e = endpoint as u32;
    let a = address as u32;
    let p = pid as u32;
    let r = (max_len << 21) | (e << 15) | (a << 8) | p;
    assert(token_is(r, max_len, endpoint, address, pid)) by {
        assert(p <= 0xff && e <= 15 && a <= 127 && max_len <= 0x7ff);
        assert(((max_len << 21u32) | (e << 15u32) | (a << 8u32) | p) >> 21u32 == max_len
            && (((max_len << 21u32) | (e << 15u32) | (a << 8u32) | p) >> 15u32) & 0xf == e
            && (((max_len << 21u32) | (e << 15u32) | (a << 8u32) | p) >> 8u32) & 0x7f == a
            && ((max_len << 21u32) | (e << 15u32) | (a << 8u32) | p) & 0xff == p
            && (((max_len << 21u32) | (e << 15u32) | (a << 8u32) | p) >> 19u32) & 3 == 0)
            by (bit_vector)
            requires
                p <= 0xff,
                e <= 15,
                a <= 127,
                max_len <= 0x7ff,
        ;
    }
    r
}

/// The MaxLength field for a packet of `len` bytes.
pub fn max_len_field(len: u16) -> (r: u32)
    requires
        len <= MAX_PACKET,
    ensures
        r == max_len_spec(len),
        r <= 0x7FF,
{
    if len == 0 {
        NO_DATA
    } else {
        (len - 1) as u32
    }
}

/// Direction of a control transfer's data stage.
#[derive(Clone, Copy, Debug, PartialEq, Eq, Structural)]
pub enum Direction {
    In,
    Out,
}

/// The data stage of a control transfer: a buffer and its direction.
#[derive(Clone, Copy, Debug, PartialEq, Eq, Structural)]
pub struct DataStage {
    pub phys: u32,
    pub len: u16,
    pub direction: Direction,
}

/// Physical addresses of the DMA records of one control transfer.
#[derive(Clone, Copy, Debug, PartialEq, Eq, Structural)]
pub struct ChainMemory {
    /// The 8-byte setup packet.
    pub setup_phys: u32,
    /// The setup-stage TD.
    pub setup_td: u32,
    /// The data-stage TD; unused when there is no data stage.
    pub data_td: u32,
    /// The status-stage TD.
    pub status_td: u32,
    /// The queue head.
    pub qh_phys: u32,
}

/// A control transfer ready to be written to memory and scheduled.
#[derive(Clone, Debug)]
pub struct ControlChain {
    /// The TDs in link order, with the physical address each is written to.
    pub tds: Vec<(u32, Td)>,
    pub qh: Qh,
    /// The frame-list entry that schedules the queue head.
    pub frame_entry: u32,
}

/// PID of the data stage.
pub open spec fn data_pid(d: DataStage) -> u8 {
    if d.direction == Direction::In {
        PID_IN
    } else {
        PID_OUT
    }
}

/// PID of the status stage: OUT after an IN data stage, IN otherwise.
pub open spec fn status_pid(data: Option<DataStage>) -> u8 {
    match data {
        Some(d) => if d.direction == Direction::In {
            PID_OUT
        } else {
            PID_IN
        },
        None => PID_IN,
    }
}

/// A TD that is Active, with the given link, token fields and buffer.
pub open spec fn td_is(
    td: Td,
    link: u32,
    max_len: u32,
    address: u8,
    pid: u8,
    buffer: u32,
) -> bool {
    &&& td.link_ptr == link
    &&& td.ctrl_sts == TD_ACTIVE
    &&& token_is(td.token, max_len, 0, address, pid)
    &&& td.buffer == buffer
}

/// The shape of a control chain: Setup, then the data stage if any, then the
/// zero-length status stage; each stage links depth-first to the next, the
/// last terminates; the QH points at the Setup TD and is scheduled with the
/// QH bit set.
pub open spec fn control_chain_is(
    c: ControlChain,
    address: u8,
    m: ChainMemory,
    data: Option<DataStage>,
) -> bool {
    let status_at = m.status_td;
    let n = if data is Some {
        3int
    } else {
        2int
    };
    &&& c.tds@.len() == n
    &&& c.tds@[0].0 == m.setup_td
    &&& td_is(
        c.tds@[0].1,
        if data is Some {
            m.data_td
        } else {
            status_at
        } | LINK_DEPTH_FIRST,
        7,
        address,
        PID_SETUP,
        m.setup_phys,
    )
    &&& match data {
        Some(d) => {
            &&& c.tds@[1].0 == m.data_td
            &&& td_is(
                c.tds@[1].1,
                status_at | LINK_DEPTH_FIRST,
                max_len_spec(d.len),
                address,
                data_pid(d),
                d.phys,
            )
        },
        None => true,
    }
    &&& c.tds@[n - 1].0 == status_at
    &&& td_is(c.tds@[n - 1].1, 1, NO_DATA, address, status_pid(data), 0)
    &&& c.qh == Qh { head_ptr: 1, element_ptr: m.setup_td }
    &&& c.frame_entry == m.qh_phys | LINK_QH
}

/// Builds the TD chain and queue head of a control transfer.
pub fn control_chain(address: u8, m: ChainMemory, data: Option<DataStage>) -> (r: ControlChain)
    requires
        address <= 127,
        match data {
            Some(d) => 1 <= d.len <= MAX_PACKET,
            None => true,
        },
    ensures
        control_chain_is(r, address, m, data),
{
    let mut tds: Vec<(u32, Td)> = Vec::new();
    let status_at = m.status_td;
    let after_setup = match data {
        Some(_) => m.data_td,
        None => status_at,
    };
    tds.push(
        (
            m.setup_td,
            Td {
                link_ptr: after_setup | LINK_DEPTH_FIRST,
                ctrl_sts: TD_ACTIVE,
                token: make_token(7, 0, address, PID_SETUP),
                buffer: m.setup_phys,
            },
        ),
    );
    let status_pid = match data {
        Some(d) => {
            let pid = match d.direction {
                Direction::In => PID_IN,
                Direction::Out => PID_OUT,
            };
            tds.push(
                (
                    m.data_td,
                    Td {
                        link_ptr: status_at | LINK_DEPTH_FIRST,
                        ctrl_sts: TD_ACTIVE,
                        token: make_token(max_len_field(d.len), 0, address, pid),
                        buffer: d.phys,
                    },
                ),
            );
            match d.direction {
                Direction::In => PID_OUT,
                Direction::Out => PID_IN,
            }
        },
        None => PID_IN,
    };
    tds.push(
        (
            status_at,
            Td {
                link_ptr: 1,
                ctrl_sts: TD_ACTIVE,
                token: make_token(NO_DATA, 0, address, status_pid),
                buffer: 0,
            },
        ),
    );
    ControlChain {
        tds,
        qh: Qh { head_ptr: 1, element_ptr: m.setup_td },
        frame_entry: m.qh_phys | LINK_QH,
    }
}

/// The SET_ADDRESS request.
pub fn set_address_request(address: u8) -> (r: Setup)
    ensures
        r == (Setup {
            request_type: 0,
            request: REQ_SET_ADDRESS,
            value: address as u16,
            index: 0,
            len: 0,
        }),
{
    Setup { request_type: 0, request: REQ_SET_ADDRESS, value: address as u16, index: 0, len: 0 }
}

/// The GET_DESCRIPTOR request for descriptor `kind`, number `index`, `len` bytes.
pub fn get_descriptor_request(kind: u8, index: u8, len: u16) -> (r: Setup)
    ensures
        r == (Setup {
            request_type: 0x80,
            request: REQ_GET_DESCRIPTOR,
            value: ((kind as u16) * 256 + index as u16) as u16,
            index: 0,
            len: len,
        }),
{
    let k = kind as u16;
    let v = (k << 8) | (index as u16);
    let i = index as u16;
    assert(v == k * 256 + i) by (bit_vector)
        requires
            v == (k << 8u16) | i,
            k <= 0xff,
            i <= 0xff,
    ;
    Setup { request_type: 0x80, request: REQ_GET_DESCRIPTOR, value: v, index: 0, len: len }
}

/// The chain of a SET_ADDRESS sent to the default address 0: Setup, then
/// the IN status stage.
pub fn set_address_chain(m: ChainMemory) -> (r: ControlChain)
    ensures
        control_chain_is(r, 0, m, None),
{
    control_chain(0, m, None)
}

/// The chain of a GET_DESCRIPTOR to `address` that reads `len` bytes into
/// the buffer at `buffer_phys`: Setup, IN data, OUT status.
pub fn get_descriptor_chain(address: u8, m: ChainMemory, buffer_phys: u32, len: u16) -> (r:
    ControlChain)
    requires
        address <= 127,
        1 <= len <= MAX_PACKET,
    ensures
        control_chain_is(
            r,
            address,
            m,
            Some(DataStage { phys: buffer_phys, len, direction: Direction::In }),
        ),
{
    control_chain(address, m, Some(DataStage { phys: buffer_phys, len, direction: Direction::In }))
}

/// The single TD of an interrupt-IN transfer of up to `len` bytes.
pub fn interrupt_in_td(address: u8, endpoint: u8, len: u16, buffer_phys: u32) -> (r: Td)
    requires
        address <= 127,
        endpoint <= 15,
        len <= MAX_PACKET,
    ensures
        r.link_ptr == 1,
        r.ctrl_sts == TD_ACTIVE | TD_IOC,
        token_is(r.token, max_len_spec(len), endpoint, address, PID_IN),
        r.buffer == buffer_phys,
{
    Td {
        link_ptr: 1,
        ctrl_sts: TD_ACTIVE | TD_IOC,
        token: make_token(max_len_field(len), endpoint, address, PID_IN),
        buffer: buffer_phys,
    }
}

pub open spec fn is_active(ctrl_sts: u32) -> bool {
    ctrl_sts & TD_ACTIVE != 0
}

pub open spec fn has_error(ctrl_sts: u32) -> bool {
    ctrl_sts & TD_ERROR_MASK != 0
}

/// Bytes moved by a completed TD: the low 11 bits plus one, 0x7FF meaning none.
pub open spec fn actual_length_spec(ctrl_sts: u32) -> u16 {
    if ctrl_sts & 0x7ff == 0x7ff {
        0
    } else {
        ((ctrl_sts & 0x7ff) + 1) as u16
    }
}

/// Bytes moved by a completed TD.
pub fn actual_length(ctrl_sts: u32) -> (r: u16)
    ensures
        r == actual_length_spec(ctrl_sts),
{
    let f = ctrl_sts & 0x7ff;
    assert(f <= 0x7ff) by (bit_vector)
        requires
            f == ctrl_sts & 0x7ff,
    ;
    if f == 0x7ff {
        0
    } else {
        (f + 1) as u16
    }
}

/// Where a scheduled chain stands, judged from its TDs' ctrl_sts words.
#[derive(Clone, Copy, Debug, PartialEq, Eq, Structural)]
pub enum ChainState {
    /// TD `0` is still active: keep waiting (and yield).
    Waiting(usize),
    /// TD `0` completed with an error bit set.
    Failed(usize),
    /// Every TD completed without error.
    Done,
}

/// No TD before `k` is active or in error.
pub open spec fn clean_prefix(sts: Seq<u32>, k: int) -> bool {
    forall|j: int| 0 <= j < k ==> !is_active(#[trigger] sts[j]) && !has_error(sts[j])
}

/// Judges a chain in submission order: the first TD that is active or in
/// error decides; when there is none the chain is done.
pub fn chain_state(sts: &Vec<u32>) -> (r: ChainState)
    ensures
        match r {
            ChainState::Waiting(k) => k < sts@.len() && clean_prefix(sts@, k as int) && is_active(
                sts@[k as int],
            ),
            ChainState::Failed(k) => k < sts@.len() && clean_prefix(sts@, k as int) && !is_active(
                sts@[k as int],
            ) && has_error(sts@[k as int]),
            ChainState::Done => clean_prefix(sts@, sts@.len() as int),
        },
{
    let mut i: usize = 0;
    while i < sts.len()
        invariant
            i <= sts@.len(),
            clean_prefix(sts@, i as int),
        decreases sts@.len() - i,
    {
        let s = sts[i];
        if s & TD_ACTIVE != 0 {
            return ChainState::Waiting(i);
        }
        if s & TD_ERROR_MASK != 0 {
            return ChainState::Failed(i);
        }
        i += 1;
    }
    ChainState::Done
}

} // verus!
