//! Core of a UHCI (USB 1.1) host-controller driver: the hardware record
//! layouts, the frame-list schedule, the control and interrupt transfer
//! chains, the configuration-descriptor walker, the boot-protocol mouse
//! decoder and the decisions of the controller's lifecycle.
//!
//! Everything here is pure logic over plain values; port I/O, DMA memory,
//! task spawning and sleeping are performed by the caller.

pub mod config;
pub mod controller;
pub mod desc;
pub mod frame_list;
pub mod mouse;
pub mod transfer;

pub use desc::{Qh, Setup, Td};
pub use frame_list::{slot_for, FrameList};
pub use transfer::{
    actual_length, chain_state, control_chain, get_descriptor_chain, get_descriptor_request,
    interrupt_in_td, make_token, max_len_field, set_address_chain, set_address_request,
    ChainMemory, ChainState, ControlChain, DataStage, Direction,
};
pub use config::{hid_endpoints, DeviceDescriptor, HidEndpoint};
pub use mouse::{decode_mouse, mouse_event_for, scale, MouseEvent};
pub use controller::{
    assign_addresses, EnumState, Enumeration, HidPoller, IoWrite, Request, Uhci, Width,
    POLL_INTERVAL_MS,
};
