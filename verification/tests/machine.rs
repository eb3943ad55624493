use instar::abi::{
    DEBUG_PORT, DEFAULT_MMIO_BASE, GUEST_CODE_BASE, GUEST_MEM_SIZE, MMIO_SIZE, PAGE_TABLE_BASE,
    SERIAL_PORT, SERIAL_STATUS_PORT, STACK_TOP,
};
use instar::boot::{gdt_image, make_segment, setup_page_tables, setup_regs, setup_sregs};
use instar::device::{
    device_mmio_base, device_vq_base, mmio_base_for_mem_size, read_mmio_data, write_mmio_data,
    DeviceRole, DeviceSet,
};
use instar::serial::{DebugBuffer, SerialDecoder, SerialTransmitter};
use instar::vm::{
    answer_register, fault_report, process_queue_now, registrations_to_undo, Action, FaultDetail,
    FaultRegisters, QueueTotals, Session, VmExit,
};

fn three_devices() -> DeviceSet<char> {
    let mut set = DeviceSet::new(DEFAULT_MMIO_BASE);
    set.add_device('a', true);
    set.add_device('b', true);
    set.add_device('c', false);
    set
}

#[test]
fn register_windows_lie_above_guest_memory() {
    assert_eq!(mmio_base_for_mem_size(GUEST_MEM_SIZE), 0x1000_0000);
    assert_eq!(mmio_base_for_mem_size(0x1000_0000), 0x1000_0000);
    assert_eq!(mmio_base_for_mem_size(0x1000_0001), 1 << 30);
    assert_eq!(mmio_base_for_mem_size(1 << 30), 1 << 30);
    assert_eq!(mmio_base_for_mem_size((1 << 30) + 1), 2 << 30);
    assert_eq!(device_mmio_base(DEFAULT_MMIO_BASE, 3), 0x1000_3000);
    assert_eq!(device_vq_base(2), 0x12_0000);
}

#[test]
fn addresses_find_their_device() {
    let set = three_devices();
    assert_eq!(set.len(), 3);
    assert!(!set.is_empty());
    assert_eq!(set.get(1), Some(&'b'));
    assert_eq!(set.get(3), None);
    assert_eq!(set.find_device_for_mmio(DEFAULT_MMIO_BASE), Some((0, 0)));
    assert_eq!(set.find_device_for_mmio(DEFAULT_MMIO_BASE + MMIO_SIZE - 1), Some((0, 0xfff)));
    assert_eq!(set.find_device_for_mmio(DEFAULT_MMIO_BASE + 2 * MMIO_SIZE + 0x50), Some((2, 0x50)));
    assert_eq!(set.find_device_for_mmio(DEFAULT_MMIO_BASE + 3 * MMIO_SIZE), None);
    assert_eq!(set.find_device_for_mmio(DEFAULT_MMIO_BASE - 1), None);
}

#[test]
fn devices_get_their_roles() {
    let io = three_devices().create_io_devices(vec![10, 20, 30]);
    assert_eq!(io.len(), 3);
    assert_eq!((io[0].role, io[0].event), (DeviceRole::Input, 10));
    assert_eq!((io[1].role, io[1].event), (DeviceRole::Backing(0), 20));
    assert_eq!((io[2].role, io[2].event, io[2].index), (DeviceRole::Output, 30, 2));
}

#[test]
fn register_values_are_little_endian() {
    assert_eq!(read_mmio_data(&[0x12]), 0x12);
    assert_eq!(read_mmio_data(&[0x34, 0x12]), 0x1234);
    assert_eq!(read_mmio_data(&[0x78, 0x56, 0x34, 0x12]), 0x1234_5678);
    assert_eq!(read_mmio_data(&[1, 2, 3]), 0);
    let mut two = [0xffu8; 2];
    write_mmio_data(&mut two, 0x1234_5678);
    assert_eq!(two, [0x78, 0x56]);
    let mut eight = [0xffu8; 8];
    write_mmio_data(&mut eight, 0x1234_5678);
    assert_eq!(eight, [0x78, 0x56, 0x34, 0x12, 0, 0, 0, 0]);
    let mut three = [0xffu8; 3];
    write_mmio_data(&mut three, 5);
    assert_eq!(three, [0xff; 3]);
    let value = 0x1234_5678;
    let mut one = [0u8; 1];
    write_mmio_data(&mut one, value);
    assert_eq!(read_mmio_data(&one), value % 0x100);
    assert_eq!(read_mmio_data(&two), value % 0x1_0000);
    let mut four = [0u8; 4];
    write_mmio_data(&mut four, value);
    assert_eq!(read_mmio_data(&four), value);
}

#[test]
fn messages_are_framed_by_their_length() {
    let mut decoder = SerialDecoder::new(2, 100);
    assert!(!decoder.add_byte(3));
    assert!(!decoder.add_byte(0));
    assert!(!decoder.add_byte(b'x'));
    assert!(!decoder.add_byte(b'y'));
    assert!(decoder.add_byte(b'z'));
    decoder.settle(Some(5));
    assert_eq!(decoder.buffer.len(), 0);
}

#[test]
fn a_length_that_cannot_be_is_skipped_byte_by_byte() {
    let mut decoder = SerialDecoder::new(2, 100);
    assert!(!decoder.add_byte(0xff));
    assert!(!decoder.add_byte(0xff));
    assert_eq!(decoder.buffer.len(), 1);
    let mut decoder = SerialDecoder::new(2, 100);
    for b in [1, 0] {
        assert!(!decoder.add_byte(b));
    }
    assert!(decoder.add_byte(9));
    decoder.settle(None);
    assert_eq!(decoder.buffer.len(), 2);
}

#[test]
fn the_transmitter_hands_out_its_bytes_once() {
    let mut tx = SerialTransmitter::new();
    assert!(!tx.has_data());
    assert_eq!(tx.next_byte(), None);
    tx.queue_config(Some(vec![7, 8]));
    tx.queue_config(None);
    assert!(tx.has_data());
    assert_eq!(tx.next_byte(), Some(7));
    assert_eq!(tx.next_byte(), Some(8));
    assert_eq!(tx.next_byte(), None);
    assert!(!tx.has_data());
}

#[test]
fn debug_lines_end_at_a_newline_or_when_full() {
    let mut debug = DebugBuffer::new();
    assert_eq!(debug.add_byte(b'h'), None);
    assert_eq!(debug.add_byte(0xe4), None);
    assert_eq!(debug.add_byte(b'\n'), Some("h\u{e4}".to_string()));
    assert_eq!(debug.add_byte(b'\n'), Some(String::new()));
    for _ in 0..4096 {
        assert_eq!(debug.add_byte(b'a'), None);
    }
    let line = debug.add_byte(b'b').unwrap();
    assert_eq!(line.len(), 4097);
    assert!(line.ends_with('b'));
}

#[test]
fn exits_become_actions() {
    let set = three_devices();
    let mut session = Session::new(Some(vec![0x41]), false);
    match session.handle_exit(&set, VmExit::PortIn { port: SERIAL_STATUS_PORT, data: vec![0] }) {
        Action::Answer(data) => assert_eq!(data, [0x61]),
        other => panic!("{other:?}"),
    }
    match session.handle_exit(&set, VmExit::PortIn { port: SERIAL_PORT, data: vec![9, 9] }) {
        Action::Answer(data) => assert_eq!(data, [0x41, 0]),
        other => panic!("{other:?}"),
    }
    match session.handle_exit(&set, VmExit::PortIn { port: SERIAL_STATUS_PORT, data: vec![0] }) {
        Action::Answer(data) => assert_eq!(data, [0x60]),
        other => panic!("{other:?}"),
    }
    match session.handle_exit(&set, VmExit::PortIn { port: 0x60, data: vec![9, 9] }) {
        Action::Answer(data) => assert_eq!(data, [0, 0]),
        other => panic!("{other:?}"),
    }
    match session.handle_exit(&set, VmExit::PortOut { port: SERIAL_PORT, data: vec![1, 2] }) {
        Action::Decode(data) => assert_eq!(data, [1, 2]),
        other => panic!("{other:?}"),
    }
    match session.handle_exit(&set, VmExit::PortOut { port: DEBUG_PORT, data: b"hi\nyo\n".to_vec() }) {
        Action::Log(lines) => assert_eq!(lines, ["hi", "yo"]),
        other => panic!("{other:?}"),
    }
    let addr = DEFAULT_MMIO_BASE + MMIO_SIZE + 0x70;
    match session.handle_exit(&set, VmExit::RegisterWrite { addr, data: vec![5, 0, 0, 0] }) {
        Action::WriteRegister { index, offset, value } => {
            assert_eq!((index, offset, value), (1, 0x70, 5))
        }
        other => panic!("{other:?}"),
    }
    match session.handle_exit(&set, VmExit::RegisterRead { addr, data: vec![0; 4] }) {
        Action::ReadRegister { index, offset, data } => {
            assert_eq!((index, offset), (1, 0x70));
            assert_eq!(answer_register(data, 0x0102_0304), [4, 3, 2, 1]);
        }
        other => panic!("{other:?}"),
    }
    assert!(matches!(session.handle_exit(&set, VmExit::Halt), Action::Stop(None)));
    assert_eq!(session.stats.total_exits, 9);
    assert_eq!(session.stats.io_in_exits, 4);
    assert_eq!(session.stats.io_out_exits, 2);
}

#[test]
fn bad_exits_end_the_session_with_an_error() {
    let set = three_devices();
    let mut session = Session::new(None, false);
    match session.handle_exit(&set, VmExit::Shutdown) {
        Action::Stop(Some(e)) => assert_eq!(e, "VM shutdown (triple fault)"),
        other => panic!("{other:?}"),
    }
    match session.handle_exit(&set, VmExit::FailEntry { reason: 0x21, cpu: 0 }) {
        Action::Stop(Some(e)) => assert_eq!(e, "VM entry failed: reason=0x21, cpu=0"),
        other => panic!("{other:?}"),
    }
    match session.handle_exit(&set, VmExit::Other { text: "Debug".to_string() }) {
        Action::Stop(Some(e)) => assert_eq!(e, "unexpected VM exit: Debug"),
        other => panic!("{other:?}"),
    }
    let mut probe = Session::new(None, true);
    match probe.handle_exit(&set, VmExit::Shutdown) {
        Action::Stop(Some(e)) => assert_eq!(e, "VM shutdown (possible triple fault)"),
        other => panic!("{other:?}"),
    }
}

#[test]
fn queues_are_counted_by_their_direction() {
    let mut session = Session::new(None, false);
    let moved = QueueTotals { bytes_read: 1, sectors_read: 2, bytes_written: 3, sectors_written: 4 };
    session.record_queue(true, moved);
    assert_eq!((session.stats.bytes_read, session.stats.sectors_read), (1, 2));
    assert_eq!(session.stats.bytes_written, 0);
    let moved = QueueTotals { bytes_read: 1, sectors_read: 2, bytes_written: 3, sectors_written: 4 };
    session.record_queue(false, moved);
    assert_eq!((session.stats.bytes_written, session.stats.sectors_written), (3, 4));
    assert_eq!(session.stats.bytes_read, 1);
    assert!(process_queue_now(false, true));
    assert!(!process_queue_now(true, true));
    assert!(!process_queue_now(false, false));
    assert_eq!(registrations_to_undo(&vec![true, true, false]), 2);
    assert_eq!(registrations_to_undo(&vec![true, true]), 0);
}

#[test]
fn a_session_counts_from_its_start() {
    let mut session = Session::new(None, false);
    let start = session.stats.start_time;
    let stats = &session.stats;
    assert_eq!((stats.total_exits, stats.bytes_read, stats.bytes_written), (0, 0, 0));
    assert_eq!((stats.sectors_read, stats.sectors_written), (0, 0));
    session.handle_exit(&three_devices(), VmExit::Halt);
    let moved = QueueTotals { bytes_read: 1, sectors_read: 2, bytes_written: 3, sectors_written: 4 };
    session.record_queue(true, moved);
    assert_eq!(session.stats.start_time, start);
    assert_eq!((session.stats.total_exits, session.stats.hlt_exits), (1, 1));
}

#[test]
fn the_first_table_maps_the_first_gigabyte() {
    let writes = setup_page_tables(GUEST_MEM_SIZE, DEFAULT_MMIO_BASE).unwrap();
    assert_eq!((writes[0].addr, writes[0].entry), (PAGE_TABLE_BASE, 0x3003));
    assert_eq!((writes[1].addr, writes[1].entry), (0x3000, 0x4003));
    let first = writes.iter().find(|w| w.addr == 0x4000).unwrap();
    assert_eq!(first.entry, 0x83);
    let last = writes.iter().find(|w| w.addr == 0x4000 + 511 * 8).unwrap();
    assert_eq!(last.entry, 511 * 0x20_0000 + 0x83);
}

#[test]
fn large_guests_get_more_tables() {
    let memory = 3u64 << 30;
    let base = mmio_base_for_mem_size(memory);
    let writes = setup_page_tables(memory, base).unwrap();
    assert_eq!(writes.len(), 1 + 4 + 4 * 512);
    let third = writes.iter().find(|w| w.addr == 0x3000 + 2 * 8).unwrap();
    assert_eq!(third.entry, 0x6003);
    let page = writes.iter().find(|w| w.addr == 0x6000 + 8).unwrap();
    assert_eq!(page.entry, (2u64 << 30) + 0x20_0000 + 0x83);
    let refused = setup_page_tables(13u64 << 30, 13u64 << 30).unwrap_err();
    assert_eq!(refused, "guest memory 14GB requires 14 PD pages, max 12 (12GB)");
}

#[test]
fn registers_start_the_guest_in_long_mode() {
    let s = setup_sregs();
    assert_eq!(s.cr0 & 0x8000_0001, 0x8000_0001);
    assert_eq!(s.cr4, 0x20);
    assert_eq!(s.efer, 0x500);
    assert_eq!(s.cr3, PAGE_TABLE_BASE);
    assert_eq!((s.code.selector, s.code.l, s.code.db), (0x08, 1, 0));
    assert_eq!((s.data.selector, s.data.l), (0x10, 0));
    let r = setup_regs();
    assert_eq!((r.rip, r.rsp, r.rflags), (GUEST_CODE_BASE, STACK_TOP, 2));
    let seg = make_segment(0x18, 7, 9, 3, false);
    assert_eq!((seg.selector, seg.base, seg.limit, seg.seg_type), (0x18, 7, 9, 3));
    assert_eq!((seg.present, seg.s, seg.l, seg.db, seg.g), (1, 1, 0, 0, 1));
    assert_eq!((s.gdt_base, s.gdt_limit, s.idt_base, s.idt_limit), (0x1000, 23, 0, 0));
    let mut gdt = Vec::new();
    for entry in [0u64, 0x00AF_9A00_0000_FFFF, 0x00CF_9200_0000_FFFF] {
        gdt.extend_from_slice(&entry.to_le_bytes());
    }
    assert_eq!(gdt_image(), gdt);
}

#[test]
fn faults_are_reported_with_as_much_as_asked() {
    let f = FaultRegisters { rip: 0x10, rsp: 0x20, rbp: 0x30, cr0: 1, cr3: 2, cr4: 3 };
    let headline = fault_report(&f, FaultDetail::Headline);
    let registers = fault_report(&f, FaultDetail::Registers);
    let stack = fault_report(&f, FaultDetail::Stack);
    assert!(registers.len() > headline.len());
    assert!(stack.len() > registers.len());
    assert!(registers.contains("0x10"));
}
