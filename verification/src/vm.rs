//! What the host does when a guest stops: it counts the exit, serves the
//! ports, and says which device register the guest wants.
use vstd::prelude::*;
use crate::abi::{
    DEBUG_PORT, GUEST_CODE_BASE, GUEST_MEM_SIZE, SERIAL_PORT, SERIAL_STATUS_PORT, STACK_BASE,
    STACK_SIZE, STACK_TOP,
};
use crate::bytes::{le_value, zeros};
use crate::device::{
    law_register_address_reaches_its_device, law_register_value_round_trip, read_mmio_data,
    register_bytes, register_value, write_mmio_data, DeviceSet,
};
use crate::serial::{DebugBuffer, SerialTransmitter};
use crate::stats::{no_counts, Counts, VmmStats};
use crate::text::{
    dec, hex, holds_part, lemma_first_part, lemma_last_part, lemma_part_stays, opt, push_dec,
    push_hex, push_if,
};

verus! {

/// Why a guest stopped. The data of a read is what the buffer held before.
#[derive(Debug)]
pub enum VmExit {
    Halt,
    PortOut { port: u16, data: Vec<u8> },
    PortIn { port: u16, data: Vec<u8> },
    RegisterRead { addr: u64, data: Vec<u8> },
    RegisterWrite { addr: u64, data: Vec<u8> },
    Shutdown,
    FailEntry { reason: u64, cpu: u32 },
    /// Any other reason, in words.
    Other { text: String },
}

/// What the host does next.
#[derive(Debug)]
pub enum Action {
    /// The run is over; with an error, it has failed.
    Stop(Option<String>),
    /// Feed these bytes to the decoder of the serial line.
    Decode(Vec<u8>),
    /// Log these lines of the debug port.
    Log(Vec<String>),
    /// Nothing, but for a note in the log.
    Ignore,
    /// Hand the guest these bytes.
    Answer(Vec<u8>),
    /// Hand the guest the register at that offset of that device, in a buffer
    /// of that many bytes.
    ReadRegister { index: usize, offset: u32, data: Vec<u8> },
    /// Write the register at that offset of that device.
    WriteRegister { index: usize, offset: u32, value: u32 },
}

/// The state of a run that exits change.
#[derive(Debug)]
pub struct Session {
    /// Whether the run only asks what an image is.
    pub probing: bool,
    pub stats: VmmStats,
    pub transmitter: SerialTransmitter,
    pub debug: DebugBuffer,
}

/// The error of a guest that could not be entered.
pub open spec fn entry_failure(reason: u64, cpu: u32) -> Seq<char> {
    "VM entry failed: reason=0x"@ + hex(reason as int) + ", cpu="@ + dec(cpu as int)
}

/// The error of a guest that shut down.
pub open spec fn shutdown_failure(probing: bool) -> Seq<char> {
    if probing {
        "VM shutdown (possible triple fault)"@
    } else {
        "VM shutdown (triple fault)"@
    }
}

/// The line status: the transmitter is empty, and whether a byte waits.
pub open spec fn line_status(waiting: bool) -> u8 {
    if waiting {
        0x61
    } else {
        0x60
    }
}

/// The next `n` bytes of a queue, with zeros once it is empty.
pub open spec fn served(queue: Seq<u8>, n: nat) -> Seq<u8> {
    if n <= queue.len() {
        queue.take(n as int)
    } else {
        queue + zeros((n - queue.len()) as nat)
    }
}

/// What is left of a queue after `n` bytes were asked for.
pub open spec fn left(queue: Seq<u8>, n: nat) -> Seq<u8> {
    if n <= queue.len() {
        queue.skip(n as int)
    } else {
        Seq::empty()
    }
}

/// What the guest reads from a port.
pub open spec fn port_data(port: u16, before: Seq<u8>, queue: Seq<u8>) -> Seq<u8> {
    if port == SERIAL_PORT {
        served(queue, before.len())
    } else if port == SERIAL_STATUS_PORT {
        before.update(0, line_status(queue.len() > 0))
    } else {
        zeros(before.len())
    }
}

/// The state of the debug port after some bytes: the lines they ended, and
/// the line begun. It goes byte by byte.
pub open spec fn debug_lines(line: Seq<char>, data: Seq<u8>) -> (Seq<Seq<char>>, Seq<char>)
    decreases data.len(),
{
    if data.len() == 0 {
        (Seq::empty(), line)
    } else {
        let (lines, cur) = debug_lines(line, data.drop_last());
        let byte = data.last();
        if byte == 10 {
            (lines.push(cur), Seq::empty())
        } else if crate::text::byte_len(cur) >= crate::serial::MAX_DEBUG_LINE {
            (lines.push(cur.push(byte as char)), Seq::empty())
        } else {
            (lines, cur.push(byte as char))
        }
    }
}

/// How an exit counts.
pub open spec fn counted(c: Counts, exit: VmExit) -> Counts {
    let t = (c.total_exits + 1) as u64;
    match exit {
        VmExit::Halt => Counts { total_exits: t, hlt_exits: (c.hlt_exits + 1) as u64, ..c },
        VmExit::PortOut { port, data } => Counts {
            total_exits: t,
            io_out_exits: (c.io_out_exits + 1) as u64,
            ..c
        },
        VmExit::PortIn { port, data } => Counts {
            total_exits: t,
            io_in_exits: (c.io_in_exits + 1) as u64,
            ..c
        },
        VmExit::RegisterRead { addr, data } => Counts {
            total_exits: t,
            mmio_read_exits: (c.mmio_read_exits + 1) as u64,
            ..c
        },
        VmExit::RegisterWrite { addr, data } => Counts {
            total_exits: t,
            mmio_write_exits: (c.mmio_write_exits + 1) as u64,
            ..c
        },
        VmExit::Shutdown => Counts {
            total_exits: t,
            shutdown_exits: (c.shutdown_exits + 1) as u64,
            ..c
        },
        VmExit::FailEntry { reason, cpu } => Counts {
            total_exits: t,
            fail_entry_exits: (c.fail_entry_exits + 1) as u64,
            ..c
        },
        VmExit::Other { text } => Counts {
            total_exits: t,
            unknown_exits: (c.unknown_exits + 1) as u64,
            ..c
        },
    }
}

/// Whether an action is the answer to an exit, given the kind of run, the
/// devices, the bytes that wait for the guest and the debug line begun.
pub open spec fn answers<D>(
    action: Action,
    exit: VmExit,
    probing: bool,
    devices: DeviceSet<D>,
    queue: Seq<u8>,
    line: Seq<char>,
) -> bool {
    match exit {
        VmExit::Halt => action matches Action::Stop(None),
        VmExit::PortOut { port, data } => if port == SERIAL_PORT {
            action matches Action::Decode(d) && d@ == data@
        } else if port == DEBUG_PORT {
            action matches Action::Log(l) && crate::options::texts(l@) == debug_lines(line, data@).0
        } else {
            action is Ignore
        },
        VmExit::PortIn { port, data } => action matches Action::Answer(d) && d@ == port_data(
            port,
            data@,
            queue,
        ),
        VmExit::RegisterRead { addr, data } => match devices.reached(addr) {
            Some((i, o)) => action matches Action::ReadRegister { index, offset, data: d } && index
                == i && offset == o && d@ == data@,
            None => action matches Action::Answer(d) && d@ == register_bytes(data@, 0),
        },
        VmExit::RegisterWrite { addr, data } => match devices.reached(addr) {
            Some((i, o)) => action matches Action::WriteRegister { index, offset, value } && index
                == i && offset == o && value == register_value(data@),
            None => action is Ignore,
        },
        VmExit::Shutdown => action matches Action::Stop(Some(e)) && e@
            == shutdown_failure(probing),
        VmExit::FailEntry { reason, cpu } => action matches Action::Stop(Some(e)) && e@
            == entry_failure(reason, cpu),
        VmExit::Other { text } => action matches Action::Stop(Some(e)) && e@
            == "unexpected VM exit: "@ + text@,
    }
}

impl Session {
    /// The counters balance and the buffers are sound.
    pub open spec fn wf(self) -> bool {
        self.stats.balanced() && self.transmitter.wf() && self.debug.wf()
    }

    /// A run that is about to start, with the given configuration queued.
    pub fn new(config: Option<Vec<u8>>, probing: bool) -> (r: Self)
        ensures
            r.wf(),
            r.probing == probing,
            r.stats.counts() == no_counts(),
            r.transmitter.remaining() == match config {
                Some(b) => b@,
                None => Seq::empty(),
            },
            r.debug.line@ == Seq::<char>::empty(),
    {
        let mut transmitter = SerialTransmitter::new();
        transmitter.queue_config(config);
        Session { probing, stats: VmmStats::new(), transmitter, debug: DebugBuffer::new() }
    }

    /// Serves a read from a port.
    fn port_input(&mut self, port: u16, data: Vec<u8>) -> (r: Vec<u8>)
        requires
            old(self).transmitter.wf(),
            port == SERIAL_STATUS_PORT ==> data@.len() > 0,
        ensures
            final(self).stats == old(self).stats,
            final(self).debug == old(self).debug,
            final(self).probing == old(self).probing,
            final(self).transmitter.wf(),
            r@ == port_data(port, data@, old(self).transmitter.remaining()),
            final(self).transmitter.remaining() == if port == SERIAL_PORT {
                left(old(self).transmitter.remaining(), data@.len())
            } else {
                old(self).transmitter.remaining()
            },
    {
        let n: usize = data.len();
        let ghost queue = self.transmitter.remaining();
        if port == SERIAL_PORT {
            let mut r: Vec<u8> = Vec::new();
            let mut i: usize = 0;
            assert(r@ =~= served(queue, 0));
            assert(queue.skip(0) =~= queue);
            while i < n
                invariant
                    i <= n,
                    self.transmitter.wf(),
                    self.stats == old(self).stats,
                    self.debug == old(self).debug,
                    self.probing == old(self).probing,
                    r@ == served(queue, i as nat),
                    self.transmitter.remaining() == left(queue, i as nat),
                decreases n - i,
            {
                let b: u8 = match self.transmitter.next_byte() {
                    Some(b) => b,
                    None => 0,
                };
                r.push(b);
                i = i + 1;
                assert(r@ =~= served(queue, i as nat));
                assert(self.transmitter.remaining() =~= left(queue, i as nat));
            }
            r
        } else if port == SERIAL_STATUS_PORT {
            let status: u8 = if self.transmitter.has_data() {
                0x61
            } else {
                0x60
            };
            let mut r = data;
            r[0] = status;
            r
        } else {
            let mut r: Vec<u8> = Vec::new();
            crate::bytes::push_zeros(&mut r, n);
            assert(r@ =~= zeros(n as nat));
            r
        }
    }

    /// Takes bytes of the debug port; gives the lines that they end.
    fn debug_output(&mut self, data: &Vec<u8>) -> (r: Vec<String>)
        requires
            old(self).debug.wf(),
        ensures
            final(self).stats == old(self).stats,
            final(self).transmitter == old(self).transmitter,
            final(self).probing == old(self).probing,
            final(self).debug.wf(),
            crate::options::texts(r@) == debug_lines(old(self).debug.line@, data@).0,
            final(self).debug.line@ == debug_lines(old(self).debug.line@, data@).1,
    {
        let ghost line = self.debug.line@;
        let mut r: Vec<String> = Vec::new();
        let mut i: usize = 0;
        assert(data@.take(0) =~= Seq::<u8>::empty());
        assert(crate::options::texts(r@) =~= Seq::<Seq<char>>::empty());
        while i < data.len()
            invariant
                i <= data@.len(),
                self.debug.wf(),
                self.stats == old(self).stats,
                self.transmitter == old(self).transmitter,
                self.probing == old(self).probing,
                crate::options::texts(r@) == debug_lines(line, data@.take(i as int)).0,
                self.debug.line@ == debug_lines(line, data@.take(i as int)).1,
            decreases data.len() - i,
        {
            proof {
                assert(data@.take(i + 1).drop_last() =~= data@.take(i as int));
                assert(data@.take(i + 1).last() == data@[i as int]);
            }
            let ghost before = crate::options::texts(r@);
            match self.debug.add_byte(data[i]) {
                Some(t) => {
                    r.push(t);
                    assert(crate::options::texts(r@) =~= before.push(t@));
                },
                None => {},
            }
            i = i + 1;
        }
        assert(data@.take(i as int) =~= data@);
        r
    }

    /// Counts an exit and decides what the host does next.
    pub fn handle_exit<D>(&mut self, devices: &DeviceSet<D>, exit: VmExit) -> (r: Action)
        requires
            old(self).wf(),
            old(self).stats.total_exits < u64::MAX,
            devices.wf(),
            exit matches VmExit::PortIn { port, data } ==> port == SERIAL_STATUS_PORT
                ==> data@.len() > 0,
        ensures
            final(self).wf(),
            final(self).probing == old(self).probing,
            final(self).stats.counts() == counted(old(self).stats.counts(), exit),
            final(self).stats.start_time == old(self).stats.start_time,
            answers(
                r,
                exit,
                old(self).probing,
                *devices,
                old(self).transmitter.remaining(),
                old(self).debug.line@,
            ),
            final(self).transmitter.remaining() == match exit {
                VmExit::PortIn { port, data } => if port == SERIAL_PORT {
                    left(old(self).transmitter.remaining(), data@.len())
                } else {
                    old(self).transmitter.remaining()
                },
                _ => old(self).transmitter.remaining(),
            },
            final(self).debug.line@ == match exit {
                VmExit::PortOut { port, data } => if port == DEBUG_PORT && port != SERIAL_PORT {
                    debug_lines(old(self).debug.line@, data@).1
                } else {
                    old(self).debug.line@
                },
                _ => old(self).debug.line@,
            },
    {
        match exit {
            VmExit::Halt => {
                self.stats.record_hlt();
                Action::Stop(None)
            },
            VmExit::PortOut { port, data } => {
                self.stats.record_io_out();
                if port == SERIAL_PORT {
                    Action::Decode(data)
                } else if port == DEBUG_PORT {
                    Action::Log(self.debug_output(&data))
                } else {
                    Action::Ignore
                }
            },
            VmExit::PortIn { port, data } => {
                self.stats.record_io_in();
                Action::Answer(self.port_input(port, data))
            },
            VmExit::RegisterRead { addr, data } => {
                self.stats.record_mmio_read();
                match devices.find_device_for_mmio(addr) {
                    Some((index, offset)) => Action::ReadRegister { index, offset, data },
                    None => Action::Answer(answer_register(data, 0)),
                }
            },
            VmExit::RegisterWrite { addr, data } => {
                self.stats.record_mmio_write();
                match devices.find_device_for_mmio(addr) {
                    Some((index, offset)) => Action::WriteRegister {
                        index,
                        offset,
                        value: read_mmio_data(data.as_slice()),
                    },
                    None => Action::Ignore,
                }
            },
            VmExit::Shutdown => {
                self.stats.record_shutdown();
                if self.probing {
                    Action::Stop(Some("VM shutdown (possible triple fault)".to_owned()))
                } else {
                    Action::Stop(Some("VM shutdown (triple fault)".to_owned()))
                }
            },
            VmExit::FailEntry { reason, cpu } => {
                self.stats.record_fail_entry();
                let mut e = "VM entry failed: reason=0x".to_owned();
                push_hex(&mut e, reason);
                e.append(", cpu=");
                push_dec(&mut e, cpu as u64);
                Action::Stop(Some(e))
            },
            VmExit::Other { text } => {
                self.stats.record_unknown();
                let mut e = "unexpected VM exit: ".to_owned();
                e.append(text.as_str());
                Action::Stop(Some(e))
            },
        }
    }

    /// Counts what processing a device's queue moved.
    pub fn record_queue(&mut self, is_input: bool, moved: QueueTotals)
        requires
            old(self).wf(),
            is_input ==> old(self).stats.bytes_read + moved.bytes_read <= u64::MAX && old(
                self,
            ).stats.sectors_read + moved.sectors_read <= u64::MAX,
            !is_input ==> old(self).stats.bytes_written + moved.bytes_written <= u64::MAX && old(
                self,
            ).stats.sectors_written + moved.sectors_written <= u64::MAX,
        ensures
            final(self).wf(),
            final(self).probing == old(self).probing,
            final(self).transmitter == old(self).transmitter,
            final(self).debug == old(self).debug,
            final(self).stats.start_time == old(self).stats.start_time,
            final(self).stats.counts() == if is_input {
                Counts {
                    bytes_read: (old(self).stats.bytes_read + moved.bytes_read) as u64,
                    sectors_read: (old(self).stats.sectors_read + moved.sectors_read) as u64,
                    ..old(self).stats.counts()
                }
            } else {
                Counts {
                    bytes_written: (old(self).stats.bytes_written + moved.bytes_written) as u64,
                    sectors_written: (old(self).stats.sectors_written
                        + moved.sectors_written) as u64,
                    ..old(self).stats.counts()
                }
            },
    {
        if is_input {
            self.stats.record_read(moved.bytes_read, moved.sectors_read);
        } else {
            self.stats.record_write(moved.bytes_written, moved.sectors_written);
        }
    }
}

/// What processing a device's queue moved.
#[derive(Debug, Clone, Copy, PartialEq, Eq, Structural)]
pub struct QueueTotals {
    pub bytes_read: u64,
    pub sectors_read: u64,
    pub bytes_written: u64,
    pub sectors_written: u64,
}

/// The bytes that answer a register read.
pub fn answer_register(data: Vec<u8>, value: u32) -> (r: Vec<u8>)
    ensures
        r@ == register_bytes(data@, value),
{
    let mut r = data;
    write_mmio_data(r.as_mut_slice(), value);
    r
}

/// Whether the host itself must process a queue after a register write: only
/// where no I/O thread does, and the device asks for it.
pub fn process_queue_now(io_thread_runs: bool, should_process: bool) -> (r: bool)
    ensures
        r == (!io_thread_runs && should_process),
{
    !io_thread_runs && should_process
}

/// How many event registrations to undo. They are tried in order, and none
/// after a failure: where the last one failed, all that came before it.
pub fn registrations_to_undo(results: &Vec<bool>) -> (r: usize)
    ensures
        r == if results@.len() > 0 && !results@.last() {
            results@.len() - 1
        } else {
            0
        },
{
    let n: usize = results.len();
    if n > 0 && !results[n - 1] {
        n - 1
    } else {
        0
    }
}

/// The registers of a guest that shut down.
#[derive(Debug, Clone, Copy, PartialEq, Eq, Structural)]
pub struct FaultRegisters {
    pub rip: u64,
    pub rsp: u64,
    pub rbp: u64,
    pub cr0: u64,
    pub cr3: u64,
    pub cr4: u64,
}

/// How much is said of a guest that shut down.
#[derive(Debug, Clone, Copy, PartialEq, Eq, Structural)]
pub enum FaultDetail {
    /// That it did.
    Headline,
    /// Its registers, and whether its stack overflowed.
    Registers,
    /// Also how much of its stack it used.
    Stack,
}

/// Whether the stack pointer left the stack.
pub open spec fn off_stack(rsp: u64) -> bool {
    rsp < STACK_BASE || rsp > STACK_TOP
}

/// What is said of the registers.
pub open spec fn register_lines(f: FaultRegisters) -> Seq<char> {
    "RIP=0x"@
        + hex(f.rip as int)
        + ", RSP=0x"@
        + hex(f.rsp as int)
        + ", RBP=0x"@
        + hex(f.rbp as int)
        + "\nCR0=0x"@
        + hex(f.cr0 as int)
        + ", CR3=0x"@
        + hex(f.cr3 as int)
        + ", CR4=0x"@
        + hex(f.cr4 as int)
        + "\n"@
}

/// What is said of the registers.
fn format_register_lines(f: &FaultRegisters) -> (r: String)
    ensures
        r@ == register_lines(*f),
{
    let mut s = "RIP=0x".to_owned();
    push_hex(&mut s, f.rip);
    s.append(", RSP=0x");
    push_hex(&mut s, f.rsp);
    s.append(", RBP=0x");
    push_hex(&mut s, f.rbp);
    s.append("\nCR0=0x");
    push_hex(&mut s, f.cr0);
    s.append(", CR3=0x");
    push_hex(&mut s, f.cr3);
    s.append(", CR4=0x");
    push_hex(&mut s, f.cr4);
    s.append("\n");
    s
}

/// What is said of a stack pointer that left the stack.
pub open spec fn overflow_lines(f: FaultRegisters) -> Seq<char> {
    "\n*** LIKELY STACK OVERFLOW ***\n  RSP (0x"@
        + hex(f.rsp as int)
        + ") is outside stack region\n  Stack region: 0x"@
        + hex(STACK_BASE as int)
        + " - 0x"@
        + hex(STACK_TOP as int)
        + " ("@
        + dec(STACK_SIZE as int)
        + " bytes)\n"@
}

/// What is said of a stack pointer that left the stack.
fn format_overflow_lines(f: &FaultRegisters) -> (r: String)
    ensures
        r@ == overflow_lines(*f),
{
    let mut s = "\n*** LIKELY STACK OVERFLOW ***\n  RSP (0x".to_owned();
    push_hex(&mut s, f.rsp);
    s.append(") is outside stack region\n  Stack region: 0x");
    push_hex(&mut s, STACK_BASE);
    s.append(" - 0x");
    push_hex(&mut s, STACK_TOP);
    s.append(" (");
    push_dec(&mut s, STACK_SIZE);
    s.append(" bytes)\n");
    s
}

/// How much of the stack is in use, in percent.
pub open spec fn stack_percent(rsp: u64) -> int {
    (STACK_TOP - rsp) * 100 / (STACK_SIZE as int)
}

/// What is said of the stack.
pub open spec fn stack_lines(rsp: u64) -> Seq<char> {
    if rsp < STACK_BASE {
        "  Stack underflowed by "@ + dec(STACK_BASE - rsp) + " bytes\n"@
    } else if rsp > STACK_TOP {
        ""@
    } else {
        "\nStack usage: "@ + dec(STACK_TOP - rsp) + " / "@ + dec(STACK_SIZE as int) + " bytes ("@
            + dec(stack_percent(rsp)) + "%)\n"@ + opt(
            stack_percent(rsp) > 90,
            "*** WARNING: Stack was nearly exhausted ***\n"@,
        )
    }
}

fn format_stack_lines(rsp: u64) -> (r: String)
    ensures
        r@ == stack_lines(rsp),
{
    if rsp < STACK_BASE {
        let mut s = "  Stack underflowed by ".to_owned();
        push_dec(&mut s, STACK_BASE - rsp);
        s.append(" bytes\n");
        s
    } else if rsp > STACK_TOP {
        "".to_owned()
    } else {
        let used: u64 = STACK_TOP - rsp;
        let percent: u64 = used * 100 / STACK_SIZE;
        let mut s = "\nStack usage: ".to_owned();
        push_dec(&mut s, used);
        s.append(" / ");
        push_dec(&mut s, STACK_SIZE);
        s.append(" bytes (");
        push_dec(&mut s, percent);
        s.append("%)\n");
        push_if(&mut s, percent > 90, "*** WARNING: Stack was nearly exhausted ***\n");
        s
    }
}

/// What is said of a guest that shut down.
pub open spec fn fault_text(f: FaultRegisters, detail: FaultDetail) -> Seq<char> {
    let head = "\n--- VM Shutdown (triple fault?) ---\n"@;
    match detail {
        FaultDetail::Headline => head,
        FaultDetail::Registers => head + register_lines(f) + opt(
            off_stack(f.rsp),
            overflow_lines(f),
        ),
        FaultDetail::Stack => head + register_lines(f) + opt(off_stack(f.rsp), overflow_lines(f))
            + stack_lines(f.rsp) + "\nGuest memory: "@ + dec(GUEST_MEM_SIZE as int) + " bytes (0x"@
            + hex(GUEST_MEM_SIZE as int) + ")\nCode base: 0x"@ + hex(GUEST_CODE_BASE as int)
            + "\n"@,
    }
}

/// Says that a guest shut down.
pub fn fault_report(f: &FaultRegisters, detail: FaultDetail) -> (r: String)
    ensures
        r@ == fault_text(*f, detail),
{
    let mut s = "\n--- VM Shutdown (triple fault?) ---\n".to_owned();
    match detail {
        FaultDetail::Headline => return s,
        _ => {},
    }
    s.append(format_register_lines(f).as_str());
    let over = format_overflow_lines(f);
    push_if(&mut s, f.rsp < STACK_BASE || f.rsp > STACK_TOP, over.as_str());
    match detail {
        FaultDetail::Stack => {
            s.append(format_stack_lines(f.rsp).as_str());
            s.append("\nGuest memory: ");
            push_dec(&mut s, GUEST_MEM_SIZE);
            s.append(" bytes (0x");
            push_hex(&mut s, GUEST_MEM_SIZE);
            s.append(")\nCode base: 0x");
            push_hex(&mut s, GUEST_CODE_BASE);
            s.append("\n");
        },
        _ => {},
    }
    s
}

// ---------------------------------------------------------------------------
// Laws
// ---------------------------------------------------------------------------

/// A guest that reads the serial port byte by byte gets the queued bytes in
/// order, whole: what two reads give together is what one read gives.
pub proof fn law_reads_join(queue: Seq<u8>, m: nat, n: nat)
    ensures
        served(queue, m) + served(left(queue, m), n) == served(queue, m + n),
        left(left(queue, m), n) == left(queue, m + n),
{
    assert(served(queue, m) + served(left(queue, m), n) =~= served(queue, m + n));
    assert(left(left(queue, m), n) =~= left(queue, m + n));
}

/// 1 where something happened, else 0.
pub open spec fn once(happened: bool) -> int {
    if happened {
        1
    } else {
        0
    }
}

/// Every exit is counted once in all and once under its own kind, and under no
/// other; nothing is moved by it.
pub proof fn law_exit_is_counted_under_its_kind<D>(
    session: &mut Session,
    devices: &DeviceSet<D>,
    exit: VmExit,
    r: Action,
)
    requires
        old(session).wf(),
        old(session).stats.total_exits < u64::MAX,
        call_ensures(Session::handle_exit::<D>, (session, devices, exit), r),
    ensures
        ({
            let a = old(session).stats;
            let b = final(session).stats;
            &&& b.total_exits == a.total_exits + 1
            &&& b.hlt_exits == a.hlt_exits + once(exit is Halt)
            &&& b.io_out_exits == a.io_out_exits + once(exit is PortOut)
            &&& b.io_in_exits == a.io_in_exits + once(exit is PortIn)
            &&& b.mmio_read_exits == a.mmio_read_exits + once(exit is RegisterRead)
            &&& b.mmio_write_exits == a.mmio_write_exits + once(exit is RegisterWrite)
            &&& b.shutdown_exits == a.shutdown_exits + once(exit is Shutdown)
            &&& b.fail_entry_exits == a.fail_entry_exits + once(exit is FailEntry)
            &&& b.unknown_exits == a.unknown_exits + once(exit is Other)
            &&& b.bytes_read == a.bytes_read && b.bytes_written == a.bytes_written
            &&& b.sectors_read == a.sectors_read && b.sectors_written == a.sectors_written
            &&& b.start_time == a.start_time
        }),
{
    let c = old(session).stats.counts();
    assert(final(session).stats.counts().total_exits == final(session).stats.total_exits);
}

/// A run ends exactly where the guest halts or cannot go on, and it fails
/// unless the guest halted.
pub proof fn law_only_a_halt_ends_well<D>(
    session: &mut Session,
    devices: &DeviceSet<D>,
    exit: VmExit,
    r: Action,
)
    requires
        call_ensures(Session::handle_exit::<D>, (session, devices, exit), r),
    ensures
        r is Stop <==> exit is Halt || exit is Shutdown || exit is FailEntry || exit is Other,
        r matches Action::Stop(e) ==> (e is None <==> exit is Halt),
{
}

/// What a guest writes to the serial line is decoded as it is, and what it
/// writes to the debug port is logged; writes to other ports go nowhere, and
/// nothing that it writes takes from what it has yet to read.
pub proof fn law_ports_lead_where_they_should<D>(
    session: &mut Session,
    devices: &DeviceSet<D>,
    port: u16,
    data: Vec<u8>,
    r: Action,
)
    requires
        call_ensures(
            Session::handle_exit::<D>,
            (session, devices, VmExit::PortOut { port, data }),
            r,
        ),
    ensures
        port == 0x3f8 <==> r is Decode,
        r matches Action::Decode(d) ==> d@ == data@,
        port == 0x2f8 <==> r is Log,
        port != 0x3f8 && port != 0x2f8 ==> r is Ignore,
        port != 0x2f8 ==> final(session).debug.line@ == old(session).debug.line@,
        final(session).transmitter.remaining() == old(session).transmitter.remaining(),
{
}

/// A guest that reads the serial line gets the queued bytes in their order,
/// and zeros where there are no more; what it got is gone from the queue. The
/// line's status says whether a byte is waiting, and other ports read as zero.
pub proof fn law_queued_bytes_are_read_in_order<D>(
    session: &mut Session,
    devices: &DeviceSet<D>,
    port: u16,
    data: Vec<u8>,
    r: Action,
)
    requires
        port == 0x3fd ==> data@.len() > 0,
        call_ensures(
            Session::handle_exit::<D>,
            (session, devices, VmExit::PortIn { port, data }),
            r,
        ),
    ensures
        ({
            let queue = old(session).transmitter.remaining();
            let rest = final(session).transmitter.remaining();
            let n = data@.len();
            &&& r is Answer && r->Answer_0@.len() == n
            &&& port == 0x3f8 ==> {
                &&& forall|i: int|
                    0 <= i < n && i < queue.len() ==> (#[trigger] r->Answer_0@[i]) == queue[i]
                &&& forall|i: int| queue.len() <= i < n ==> (#[trigger] r->Answer_0@[i]) == 0
                &&& n <= queue.len() ==> r->Answer_0@ + rest == queue
                &&& n > queue.len() ==> rest.len() == 0
            }
            &&& port != 0x3f8 ==> rest == queue
            &&& port == 0x3fd ==> r->Answer_0@[0] == if queue.len() > 0 {
                0x61u8
            } else {
                0x60u8
            }
            &&& port != 0x3f8 && port != 0x3fd ==> forall|i: int|
                0 <= i < n ==> (#[trigger] r->Answer_0@[i]) == 0
        }),
{
    let queue = old(session).transmitter.remaining();
    let n = data@.len();
    if port == 0x3f8 && n <= queue.len() {
        assert(queue.take(n as int) + queue.skip(n as int) =~= queue);
    }
}

/// An access to a device's registers reaches that device, at the place in its
/// page; elsewhere reads give zeros and writes go nowhere.
pub proof fn law_accesses_reach_their_device<D>(
    session: &mut Session,
    devices: &DeviceSet<D>,
    index: int,
    offset: int,
    data: Vec<u8>,
    addr: u64,
    write: bool,
    r: Action,
)
    requires
        devices.wf(),
        0 <= offset < 0x1000,
        addr == devices.base + index * 0x1000 + offset,
        call_ensures(
            Session::handle_exit::<D>,
            (
                session,
                devices,
                if write {
                    VmExit::RegisterWrite { addr, data }
                } else {
                    VmExit::RegisterRead { addr, data }
                },
            ),
            r,
        ),
    ensures
        0 <= index < devices.devices@.len() && write ==> (
        r matches Action::WriteRegister { index: i, offset: o, value } && i == index && o == offset
            && (data@.len() == 1 ==> value == data@[0])),
        0 <= index < devices.devices@.len() && !write ==> (
        r matches Action::ReadRegister { index: i, offset: o, data: d } && i == index && o == offset
            && d@ == data@),
        !(0 <= index < devices.devices@.len()) && write ==> r is Ignore,
        !(0 <= index < devices.devices@.len()) && !write ==> r is Answer,
{
    reveal_with_fuel(le_value, 2);
    if 0 <= index < devices.devices@.len() {
        law_register_address_reaches_its_device(*devices, index, offset);
    }
}

/// What a queue moved is added to what was read where the device is an input,
/// and else to what was written.
pub proof fn law_moved_data_is_counted_on_its_side(
    session: &mut Session,
    is_input: bool,
    moved: QueueTotals,
    r: (),
)
    requires
        call_ensures(Session::record_queue, (session, is_input, moved), r),
        old(session).stats.bytes_read + moved.bytes_read <= u64::MAX,
        old(session).stats.sectors_read + moved.sectors_read <= u64::MAX,
        old(session).stats.bytes_written + moved.bytes_written <= u64::MAX,
        old(session).stats.sectors_written + moved.sectors_written <= u64::MAX,
    ensures
        ({
            let a = old(session).stats;
            let b = final(session).stats;
            &&& b.bytes_read - a.bytes_read == once(is_input) * moved.bytes_read
            &&& b.sectors_read - a.sectors_read == once(is_input) * moved.sectors_read
            &&& b.bytes_written - a.bytes_written == once(!is_input) * moved.bytes_written
            &&& b.sectors_written - a.sectors_written == once(!is_input) * moved.sectors_written
            &&& b.total_exits == a.total_exits
        }),
{
    assert(final(session).stats.counts().bytes_read == final(session).stats.bytes_read);
}

/// A run starts with nothing counted and with its configuration queued.
pub proof fn law_run_starts_afresh(config: Option<Vec<u8>>, probing: bool, r: Session)
    requires
        call_ensures(Session::new, (config, probing), r),
    ensures
        r.probing == probing,
        r.stats.total_exits == 0,
        r.stats.bytes_read == 0 && r.stats.bytes_written == 0,
        r.stats.sectors_read == 0 && r.stats.sectors_written == 0,
        config is Some ==> r.transmitter.remaining() == config->0@,
        config is None ==> r.transmitter.remaining().len() == 0,
        r.debug.line@.len() == 0,
{
    assert(r.stats.counts().total_exits == 0);
}

/// The host works on a queue itself exactly where no thread does it and there
/// is something to do; of registrations that were tried in a row, those are
/// undone that came before one that failed.
pub proof fn law_failed_registration_is_undone(
    io_thread_runs: bool,
    should_process: bool,
    now: bool,
    results: &Vec<bool>,
    undo: usize,
)
    requires
        call_ensures(process_queue_now, (io_thread_runs, should_process), now),
        call_ensures(registrations_to_undo, (results,), undo),
    ensures
        now ==> should_process && !io_thread_runs,
        should_process && !io_thread_runs ==> now,
        results@.len() > 0 && !results@.last() ==> undo + 1 == results@.len(),
        results@.len() == 0 || results@.last() ==> undo == 0,
{
}

/// A register that is answered reads as its value in four bytes, and as its
/// low byte in one.
pub proof fn law_answer_holds_the_register(data: Vec<u8>, value: u32, r: Vec<u8>)
    requires
        call_ensures(answer_register, (data, value), r),
    ensures
        data@.len() == 1 ==> register_value(r@) == value % 0x100,
        data@.len() == 2 ==> register_value(r@) == value % 0x1_0000,
        data@.len() == 4 ==> register_value(r@) == value,
        data@.len() != 1 && data@.len() != 2 && data@.len() != 4 && data@.len() != 8 ==> r@
            == data@,
{
    if data@.len() == 1 || data@.len() == 2 || data@.len() == 4 {
        law_register_value_round_trip(data@, value);
    }
}

/// A report of a fault holds the registers beside their names, and speaks of a
/// stack overflow exactly where the stack pointer left the stack; the shortest
/// report does neither.
pub proof fn law_fault_report_holds_the_registers(
    f: &FaultRegisters,
    r: String,
    s: String,
    t: String,
)
    requires
        call_ensures(fault_report, (f, FaultDetail::Headline), r),
        call_ensures(fault_report, (f, FaultDetail::Registers), s),
        call_ensures(fault_report, (f, FaultDetail::Stack), t),
    ensures
        r@ == "\n--- VM Shutdown (triple fault?) ---\n"@,
        holds_part(register_lines(*f), "RIP=0x"@ + hex(f.rip as int)),
        holds_part(register_lines(*f), ", RSP=0x"@ + hex(f.rsp as int)),
        holds_part(register_lines(*f), ", RBP=0x"@ + hex(f.rbp as int)),
        holds_part(register_lines(*f), "\nCR0=0x"@ + hex(f.cr0 as int)),
        holds_part(register_lines(*f), ", CR3=0x"@ + hex(f.cr3 as int)),
        holds_part(register_lines(*f), ", CR4=0x"@ + hex(f.cr4 as int)),
        holds_part(s@, r@ + register_lines(*f)),
        holds_part(t@, r@ + register_lines(*f)),
        0x100_0000 <= f.rsp <= 0x13f_fff8 ==> s@ == r@ + register_lines(*f),
        f.rsp < 0x100_0000 || f.rsp > 0x13f_fff8 ==> holds_part(
            s@,
            register_lines(*f) + overflow_lines(*f),
        ),
        0x100_0000 <= f.rsp <= 0x13f_fff8 ==> holds_part(
            stack_lines(f.rsp),
            "\nStack usage: "@ + dec(0x13f_fff8 - f.rsp),
        ),
        f.rsp < 0x100_0000 ==> holds_part(
            stack_lines(f.rsp),
            "  Stack underflowed by "@ + dec(0x100_0000 - f.rsp),
        ),
{
    broadcast use {lemma_part_stays, lemma_last_part, lemma_first_part};

    if !off_stack(f.rsp) {
        assert(s@ =~= r@ + register_lines(*f));
    }
}

/// The share of the stack that was used is told in whole percent, and with a
/// warning exactly where it is more than ninety.
pub proof fn law_stack_use_is_told_in_percent(rsp: u64)
    requires
        0x100_0000 <= rsp <= 0x13f_fff8,
    ensures
        ({
            let used = 0x13f_fff8 - rsp;
            let percent = stack_percent(rsp);
            let warning = "*** WARNING: Stack was nearly exhausted ***\n"@;
            let usage = "\nStack usage: "@ + dec(used) + " / "@ + dec(0x40_0000) + " bytes ("@
                + dec(percent) + "%)\n"@;
            &&& percent * 0x40_0000 <= used * 100 < (percent + 1) * 0x40_0000
            &&& percent > 90 ==> stack_lines(rsp) == usage + warning
            &&& percent <= 90 ==> stack_lines(rsp) == usage
        }),
{
    let usage = "\nStack usage: "@ + dec(0x13f_fff8 - rsp) + " / "@ + dec(0x40_0000) + " bytes ("@
        + dec(stack_percent(rsp)) + "%)\n"@;
    assert(usage + Seq::<char>::empty() =~= usage);
}

/// A newline ends the debug line that came before it, and begins an empty one;
/// any other byte goes on with the line while it is short.
pub proof fn law_debug_lines_end_at_newlines(line: Seq<char>, data: Seq<u8>, byte: u8)
    ensures
        ({
            let (lines, rest) = debug_lines(line, data);
            let (after, left) = debug_lines(line, data.push(byte));
            &&& byte == 10 ==> after == lines.push(rest) && left.len() == 0
            &&& byte != 10 && crate::text::byte_len(rest) < 4096 ==> after == lines && left
                == rest.push(byte as char)
            &&& byte != 10 && crate::text::byte_len(rest) >= 4096 ==> after == lines.push(
                rest.push(byte as char),
            ) && left.len() == 0
        }),
        debug_lines(line, Seq::empty()) == (Seq::<Seq<char>>::empty(), line),
{
    assert(data.push(byte).drop_last() =~= data);
}

/// What a guest writes to the debug port is cut into lines, from the line that
/// was begun, and what is left of it begins the next.
pub proof fn law_debug_port_is_cut_into_lines<D>(
    session: &mut Session,
    devices: &DeviceSet<D>,
    data: Vec<u8>,
    r: Action,
)
    requires
        call_ensures(
            Session::handle_exit::<D>,
            (session, devices, VmExit::PortOut { port: 0x2f8, data }),
            r,
        ),
    ensures
        r is Log,
        crate::options::texts(r->Log_0@) == debug_lines(old(session).debug.line@, data@).0,
        final(session).debug.line@ == debug_lines(old(session).debug.line@, data@).1,
{
}

} // verus!
