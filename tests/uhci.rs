use uhci::{
    actual_length, assign_addresses, chain_state, control_chain, decode_mouse,
    get_descriptor_chain, get_descriptor_request, hid_endpoints, interrupt_in_td, make_token,
    max_len_field, mouse_event_for, scale, set_address_chain, set_address_request, slot_for,
    ChainMemory, ChainState, DataStage, DeviceDescriptor, Direction, EnumState, Enumeration,
    FrameList, HidEndpoint, HidPoller, IoWrite, MouseEvent, Qh, Setup, Td, Uhci, Width,
    POLL_INTERVAL_MS,
};

fn memory() -> ChainMemory {
    ChainMemory { setup_phys: 0x1000, setup_td: 0x2000, data_td: 0x2020, status_td: 0x2040, qh_phys: 0x3000 }
}

fn sample_config() -> Vec<u8> {
    vec![
        0x09, 0x02, 0x22, 0x00, 0x01, 0x01, 0x00, 0x80, 0x32, //
        0x09, 0x04, 0x00, 0x00, 0x01, 0x03, 0x01, 0x02, 0x00, //
        0x09, 0x21, 0x11, 0x01, 0x00, 0x01, 0x22, 0x34, 0x00, //
        0x07, 0x05, 0x81, 0x03, 0x04, 0x00, 0x0A,
    ]
}

#[test]
fn slot_is_two_frames_ahead() {
    assert_eq!(slot_for(0), 2);
    assert_eq!(slot_for(1021), 1023);
    assert_eq!(slot_for(1022), 0);
    assert_eq!(slot_for(1023), 1);
    assert_eq!(slot_for(0xFFFF), 1);
    for f in 0u16..4096 {
        assert_eq!(slot_for(f) as u32, (f as u32 + 2) % 1024);
    }
}

#[test]
fn frame_list_starts_empty() {
    let fl = FrameList::new();
    for i in 0u16..1024 {
        assert_eq!(fl.get(i), 1);
    }
}

#[test]
fn reserve_and_release_slots() {
    let mut fl = FrameList::new();
    let a = fl.reserve_slot(10, 0x3000 | 2);
    let b = fl.reserve_slot(11, 0x4000);
    assert_eq!(a, 12);
    assert_eq!(b, 13);
    assert_ne!(a, b);
    assert_eq!(fl.get(a), 0x3002);
    assert_eq!(fl.get(b), 0x4000);
    fl.release_slot(a);
    assert_eq!(fl.get(a), 1);
    assert_eq!(fl.get(b), 0x4000);
    fl.release_slot(b);
    fl.release_slot(b);
    for i in 0u16..1024 {
        assert_eq!(fl.get(i), 1);
    }
}

#[test]
fn set_address_chain_shape() {
    let m = memory();
    let setup = set_address_request(7);
    assert_eq!(setup, Setup { request_type: 0, request: 5, value: 7, index: 0, len: 0 });
    assert_eq!(setup.to_bytes(), vec![0, 5, 7, 0, 0, 0, 0, 0]);
    let c = set_address_chain(m);
    assert_eq!(c.tds.len(), 2);
    let (setup_at, setup_td) = c.tds[0];
    let (status_at, status_td) = c.tds[1];
    assert_eq!(setup_at, 0x2000);
    assert_eq!(setup_td.token & 0xFF, 0x2D);
    assert_eq!(setup_td.token >> 21, 7);
    assert_eq!(setup_td.buffer, 0x1000);
    assert_eq!(setup_td.link_ptr, status_at | 4);
    assert_eq!(setup_td.ctrl_sts, 1 << 23);
    assert_eq!(status_td.token & 0xFF, 0x69);
    assert_eq!(status_td.token >> 21, 0x7FF);
    assert_eq!(status_td.link_ptr, 1);
    assert_eq!(status_td.buffer, 0);
    assert_eq!(c.qh, Qh { head_ptr: 1, element_ptr: 0x2000 });
    assert_eq!(c.frame_entry, 0x3000 | 2);
}

#[test]
fn get_descriptor_chain_shape() {
    let m = memory();
    let setup = get_descriptor_request(1, 0, 18);
    assert_eq!(setup.to_bytes(), vec![0x80, 6, 0, 1, 0, 0, 18, 0]);
    let c = get_descriptor_chain(3, m, 0x5000, 18);
    assert_eq!(c.tds.len(), 3);
    let (_, s) = c.tds[0];
    let (data_at, d) = c.tds[1];
    let (status_at, st) = c.tds[2];
    assert_eq!(s.link_ptr, data_at | 4);
    assert_eq!(s.token, (7 << 21) | (3 << 8) | 0x2D);
    assert_eq!(d.link_ptr, status_at | 4);
    assert_eq!(d.token, (17 << 21) | (3 << 8) | 0x69);
    assert_eq!(d.buffer, 0x5000);
    assert_eq!(st.token, (0x7FF << 21) | (3 << 8) | 0xE1);
    assert_eq!(st.link_ptr, 1);
}

#[test]
fn out_data_stage_is_followed_by_in_status() {
    let data = DataStage { phys: 0x6000, len: 8, direction: Direction::Out };
    let c = control_chain(2, memory(), Some(data));
    assert_eq!(c.tds[1].1.token & 0xFF, 0xE1);
    assert_eq!(c.tds[2].1.token & 0xFF, 0x69);
}

#[test]
fn config_request_carries_index() {
    let s = get_descriptor_request(2, 1, 1023);
    assert_eq!(s.value, 0x0201);
    assert_eq!(s.len, 1023);
}

#[test]
fn token_fields() {
    assert_eq!(make_token(0x7FF, 0, 7, 0x69), (0x7FF << 21) | (7 << 8) | 0x69);
    assert_eq!(make_token(3, 1, 2, 0x69), (3 << 21) | (1 << 15) | (2 << 8) | 0x69);
    assert_eq!(max_len_field(0), 0x7FF);
    assert_eq!(max_len_field(8), 7);
}

#[test]
fn interrupt_td() {
    let td = interrupt_in_td(2, 1, 4, 0x7000);
    assert_eq!(td.link_ptr, 1);
    assert_eq!(td.ctrl_sts, (1 << 25) | (1 << 23));
    assert_eq!(td.token, (3 << 21) | (1 << 15) | (2 << 8) | 0x69);
    assert_eq!(td.buffer, 0x7000);
}

#[test]
fn td_round_trip() {
    let td = Td {
        link_ptr: 0xDEAD_BEE4,
        ctrl_sts: 0x0080_0000,
        token: (0x7FF << 21) | (7 << 8) | 0x69,
        buffer: 0,
    };
    let b = td.to_bytes();
    assert_eq!(b.len(), 32);
    assert_eq!(
        &b[..16],
        &[0xE4, 0xBE, 0xAD, 0xDE, 0x00, 0x00, 0x80, 0x00, 0x69, 0x07, 0xE0, 0xFF, 0, 0, 0, 0]
    );
    assert!(b[16..].iter().all(|&x| x == 0));
    assert_eq!(Td::from_bytes(&b), td);
}

#[test]
fn qh_bytes() {
    let q = Qh { head_ptr: 1, element_ptr: 0x2000 };
    assert_eq!(q.to_bytes(), vec![1, 0, 0, 0, 0x00, 0x20, 0, 0]);
}

#[test]
fn walker_finds_hid_mouse_endpoint() {
    let eps = hid_endpoints(&sample_config());
    assert_eq!(
        eps,
        vec![HidEndpoint { address: 0x81, attributes: 0x03, max_packet_size: 4, interval: 0x0A }]
    );
}

#[test]
fn walker_stops_at_zero_length() {
    let mut b = sample_config();
    b[18] = 0;
    assert_eq!(hid_endpoints(&b), vec![]);
    let mut b = sample_config();
    b[27] = 0;
    assert_eq!(hid_endpoints(&b), vec![]);
}

#[test]
fn walker_ignores_endpoint_without_hid() {
    let mut b = sample_config();
    b[19] = 0x22;
    assert_eq!(hid_endpoints(&b), vec![]);
}

#[test]
fn walker_ignores_out_or_bulk_endpoint() {
    let mut b = sample_config();
    b[29] = 0x01;
    assert_eq!(hid_endpoints(&b), vec![]);
    let mut b = sample_config();
    b[30] = 0x02;
    assert_eq!(hid_endpoints(&b), vec![]);
}

#[test]
fn walker_truncates_at_buffer_end() {
    let mut b = sample_config();
    b.truncate(30);
    assert_eq!(hid_endpoints(&b), vec![]);
    assert_eq!(hid_endpoints(&vec![9, 2]), vec![]);
    assert_eq!(hid_endpoints(&vec![]), vec![]);
}

#[test]
fn walker_bounded_by_total_length() {
    let mut b = sample_config();
    b[2] = 27;
    assert_eq!(hid_endpoints(&b), vec![]);
}

#[test]
fn mouse_scaling() {
    let report = vec![0x01, 0x00, 0x40, 0x00, 0x20];
    let e = decode_mouse(&report, 1024, 768);
    assert_eq!(
        e,
        MouseEvent { x: 512, y: 192, left_button: true, middle_button: false, right_button: false }
    );
    let report = vec![0x06, 0xFF, 0x7F, 0xFF, 0x7F];
    let e = decode_mouse(&report, 1024, 768);
    assert_eq!(e.x, 1023);
    assert_eq!(e.y, 767);
    assert!(!e.left_button && e.middle_button && e.right_button);
}

#[test]
fn mouse_clamps_and_short_reports() {
    assert_eq!(scale(0xFFFF, 1024), 1023);
    assert_eq!(scale(0, 1024), 0);
    assert_eq!(scale(0x4000, 0), 0);
    let e = decode_mouse(&vec![0x02, 0x00, 0x40], 800, 600);
    assert_eq!(e, MouseEvent { x: 400, y: 0, left_button: false, middle_button: false, right_button: true });
}

#[test]
fn empty_report_gives_no_event() {
    let report = vec![1, 0, 0x40, 0, 0x20];
    assert_eq!(mouse_event_for(0x7FF, &report, 1024, 768), None);
    assert!(mouse_event_for(4, &report, 1024, 768).is_some());
    assert_eq!(actual_length(0x7FF), 0);
    assert_eq!(actual_length(0), 1);
    assert_eq!(actual_length(4), 5);
}

#[test]
fn chain_completion() {
    let active = 1u32 << 23;
    assert_eq!(chain_state(&vec![active, active]), ChainState::Waiting(0));
    assert_eq!(chain_state(&vec![0, active]), ChainState::Waiting(1));
    assert_eq!(chain_state(&vec![0, 1 << 22, active]), ChainState::Failed(1));
    assert_eq!(chain_state(&vec![0, 1 << 17]), ChainState::Failed(1));
    assert_eq!(chain_state(&vec![0x7FF, 0x11]), ChainState::Done);
}

#[test]
fn controller_construction_and_bring_up() {
    let u = Uhci::new(0xC041, 0x0000_010B);
    assert_eq!(u.base, 0xC040);
    assert_eq!(u.irq, 0xB);
    let w = u.init(0x0010_0000);
    assert_eq!(
        w,
        vec![
            IoWrite { port: 0xC040, width: Width::W16, value: 6 },
            IoWrite { port: 0xC040, width: Width::W16, value: 0 },
            IoWrite { port: 0xC046, width: Width::W16, value: 0 },
            IoWrite { port: 0xC048, width: Width::W32, value: 0x0010_0000 },
            IoWrite { port: 0xC040, width: Width::W16, value: 1 },
        ]
    );
    assert_eq!(
        u.port_reset(1),
        vec![
            IoWrite { port: 0xC052, width: Width::W16, value: 0x200 },
            IoWrite { port: 0xC052, width: Width::W16, value: 0 },
        ]
    );
}

#[test]
fn two_ports_one_present() {
    let u = Uhci::new(0xC040, 11);
    let addrs = assign_addresses(&vec![true, false]);
    assert_eq!(addrs, vec![Some(1), None]);
    assert_eq!(
        u.probe_port(0, 0x0095),
        Some(IoWrite { port: 0xC050, width: Width::W16, value: 4 })
    );
    assert_eq!(u.probe_port(1, 0x0080), None);
    let e = Enumeration::new(1);
    let r = e.next_request().unwrap();
    assert_eq!(r.device_address, 0);
    assert_eq!(r.setup, set_address_request(1));
    assert_eq!(r.data_len, 0);
    assert_eq!(assign_addresses(&vec![false, true]), vec![None, Some(1)]);
    assert_eq!(assign_addresses(&vec![true, true]), vec![Some(1), Some(2)]);
}

#[test]
fn enumeration_walks_configurations() {
    let mut e = Enumeration::new(1);
    assert_eq!(e.on_complete(true, &vec![]), vec![]);
    assert_eq!(e.state, EnumState::Device);
    let r = e.next_request().unwrap();
    assert_eq!(r.device_address, 1);
    assert_eq!(r.setup, get_descriptor_request(1, 0, 18));
    let mut dev = vec![0u8; 18];
    dev[0] = 18;
    dev[1] = 1;
    dev[17] = 2;
    assert_eq!(e.on_complete(true, &dev), vec![]);
    assert_eq!(e.state, EnumState::Config { index: 0, count: 2 });
    assert_eq!(e.next_request().unwrap().setup, get_descriptor_request(2, 0, 1023));
    let mut blob = sample_config();
    blob.resize(1023, 0);
    let found = e.on_complete(true, &blob);
    assert_eq!(found.len(), 1);
    assert_eq!(e.state, EnumState::Config { index: 1, count: 2 });
    assert_eq!(e.next_request().unwrap().setup, get_descriptor_request(2, 1, 1023));
    assert_eq!(e.on_complete(true, &vec![0u8; 1023]), vec![]);
    assert_eq!(e.state, EnumState::Done);
    assert_eq!(e.next_request(), None);
}

#[test]
fn enumeration_failures() {
    let mut e = Enumeration::new(2);
    e.on_complete(false, &vec![]);
    assert_eq!(e.state, EnumState::Failed);
    assert_eq!(e.next_request(), None);
    let mut e = Enumeration::new(2);
    e.on_complete(true, &vec![]);
    e.on_complete(true, &vec![18, 1, 0]);
    assert_eq!(e.state, EnumState::Failed);
    let mut e = Enumeration::new(2);
    e.on_complete(true, &vec![]);
    e.on_complete(true, &vec![0u8; 18]);
    assert_eq!(e.state, EnumState::Done);
}

#[test]
fn device_descriptor_parse() {
    let b = vec![18, 1, 0x10, 0x01, 0, 0, 0, 8, 0x6D, 0x04, 0x16, 0xC0, 0, 1, 1, 2, 0, 1];
    let d = DeviceDescriptor::parse(&b).unwrap();
    assert_eq!(d.usb_version, 0x0110);
    assert_eq!(d.max_packet_size, 8);
    assert_eq!(d.vendor, 0x046D);
    assert_eq!(d.product, 0xC016);
    assert_eq!(d.configurations, 1);
    assert_eq!(DeviceDescriptor::parse(&b[..17].to_vec()), None);
}

#[test]
fn poller_from_endpoint() {
    let ep = HidEndpoint { address: 0x81, attributes: 3, max_packet_size: 4, interval: 10 };
    let p = HidPoller::new(1, ep).unwrap();
    assert_eq!(p, HidPoller { address: 1, endpoint: 1, len: 4 });
    let td = p.td(0x8000);
    assert_eq!(td, interrupt_in_td(1, 1, 4, 0x8000));
    let zero = HidEndpoint { max_packet_size: 0, ..ep };
    assert_eq!(HidPoller::new(1, zero), None);
    let big = HidEndpoint { max_packet_size: 2000, ..ep };
    assert_eq!(HidPoller::new(1, big), None);
    let ev = p.on_complete(4, &vec![1, 0, 0x40, 0, 0x20], 1024, 768);
    assert_eq!(ev, Some(decode_mouse(&vec![1, 0, 0x40, 0, 0x20], 1024, 768)));
}

#[test]
fn poller_cadence_with_stubbed_clock() {
    let ep = HidEndpoint { address: 0x81, attributes: 3, max_packet_size: 4, interval: 10 };
    let p = HidPoller::new(1, ep).unwrap();
    let mut fl = FrameList::new();
    let mut now_ms: u64 = 0;
    let mut submissions = 0u32;
    while now_ms < 1000 {
        let td = p.td(0x8000);
        let slot = fl.reserve_slot((now_ms % 1024) as u16, 0x9000);
        submissions += 1;
        let done = td.ctrl_sts & !(1 << 23) | 3;
        assert_eq!(chain_state(&vec![done]), ChainState::Done);
        fl.release_slot(slot);
        now_ms += POLL_INTERVAL_MS;
    }
    assert!((99..=101).contains(&submissions));
}
