//! The block devices of a guest: where their registers and queues lie, and
//! which device an access to a register address reaches.
use vstd::prelude::*;
use crate::abi::{
    DEFAULT_MMIO_BASE, DMA_POOL_BASE, MAX_CHAIN_DEPTH, MMIO_SIZE, VQ_BASE_START,
    VQ_SIZE_PER_DEVICE,
};
use crate::bytes::{law_le_bytes_read_back, le_bytes, le_value};
use crate::size::GIB;

verus! {

/// Where device registers start for a guest with that much memory: at the
/// default place, or at the next whole GiB above the memory.
pub open spec fn register_base(guest_mem_size: u64) -> int {
    if guest_mem_size <= DEFAULT_MMIO_BASE {
        DEFAULT_MMIO_BASE as int
    } else {
        (guest_mem_size + GIB - 1) / GIB as int * GIB
    }
}

/// Decides where device registers start for a guest with that much memory.
pub fn mmio_base_for_mem_size(guest_mem_size: u64) -> (r: u64)
    requires
        guest_mem_size <= u64::MAX - (GIB - 1),
    ensures
        r == register_base(guest_mem_size),
{
    if guest_mem_size <= DEFAULT_MMIO_BASE {
        DEFAULT_MMIO_BASE
    } else {
        (guest_mem_size + (GIB - 1)) / GIB * GIB
    }
}

/// The register address of the device at an index.
pub open spec fn register_address(base: u64, index: int) -> int {
    base + index * MMIO_SIZE
}

/// The register address of the device at an index.
pub fn device_mmio_base(base: u64, device_index: usize) -> (r: u64)
    requires
        register_address(base, device_index as int) <= u64::MAX,
    ensures
        r == register_address(base, device_index as int),
{
    base + device_index as u64 * MMIO_SIZE
}

/// The queue address of the device at an index.
pub open spec fn queue_address(index: int) -> int {
    VQ_BASE_START + index * VQ_SIZE_PER_DEVICE
}

/// The queue address of the device at an index.
pub fn device_vq_base(device_index: usize) -> (r: u64)
    requires
        queue_address(device_index as int) <= u64::MAX,
    ensures
        r == queue_address(device_index as int),
{
    VQ_BASE_START + device_index as u64 * VQ_SIZE_PER_DEVICE
}

/// A device and its place.
#[derive(Debug)]
pub struct ManagedDevice<D> {
    pub device: D,
    pub mmio_base: u64,
    /// Whether the guest reads the device; otherwise it is the output.
    pub is_input: bool,
}

/// What a device is to the I/O thread.
#[derive(Debug, Clone, Copy, PartialEq, Eq, Structural)]
pub enum DeviceRole {
    Input,
    /// The backing image at that depth below the input.
    Backing(u32),
    Output,
}

/// A device as the I/O thread serves it: its index, its role and the event
/// that wakes the thread for it.
#[derive(Debug)]
pub struct IoDevice<E> {
    pub index: usize,
    pub role: DeviceRole,
    pub event: E,
}

/// The devices of one guest, by index.
#[derive(Debug)]
pub struct DeviceSet<D> {
    pub base: u64,
    pub devices: Vec<ManagedDevice<D>>,
}

/// The role of a device.
pub open spec fn role(is_input: bool, index: int) -> DeviceRole {
    if !is_input {
        DeviceRole::Output
    } else if index == 0 {
        DeviceRole::Input
    } else {
        DeviceRole::Backing((index - 1) as u32)
    }
}

impl<D> DeviceSet<D> {
    /// Every device has the place of its index, and all places fit.
    pub open spec fn wf(self) -> bool {
        &&& self.devices@.len() <= MAX_CHAIN_DEPTH
        &&& register_address(self.base, MAX_CHAIN_DEPTH as int) <= u64::MAX
        &&& forall|i: int|
            0 <= i < self.devices@.len() ==> (#[trigger] self.devices@[i]).mmio_base
                == register_address(self.base, i)
    }

    /// The device whose registers an address lies in, and the offset there.
    pub open spec fn reached(self, addr: u64) -> Option<(int, int)> {
        if self.base <= addr < register_address(self.base, self.devices@.len() as int) {
            Some(((addr - self.base) / MMIO_SIZE as int, (addr - self.base) % MMIO_SIZE as int))
        } else {
            None
        }
    }

    /// No devices, with registers to start at `base`.
    pub fn new(base: u64) -> (r: Self)
        requires
            register_address(base, MAX_CHAIN_DEPTH as int) <= u64::MAX,
        ensures
            r.wf(),
            r.base == base,
            r.devices@.len() == 0,
    {
        DeviceSet { base, devices: Vec::new() }
    }

    /// Adds a device at the next index, and gives that index.
    pub fn add_device(&mut self, device: D, is_input: bool) -> (index: usize)
        requires
            old(self).wf(),
            old(self).devices@.len() < MAX_CHAIN_DEPTH,
        ensures
            final(self).wf(),
            final(self).base == old(self).base,
            index == old(self).devices@.len(),
            final(self).devices@ == old(self).devices@.push(
                ManagedDevice {
                    device,
                    mmio_base: register_address(old(self).base, index as int) as u64,
                    is_input,
                },
            ),
    {
        let index: usize = self.devices.len();
        let mmio_base: u64 = device_mmio_base(self.base, index);
        self.devices.push(ManagedDevice { device, mmio_base, is_input });
        index
    }

    /// The number of devices.
    pub fn len(&self) -> (r: usize)
        ensures
            r == self.devices@.len(),
    {
        self.devices.len()
    }

    /// Whether there are no devices.
    pub fn is_empty(&self) -> (r: bool)
        ensures
            r == (self.devices@.len() == 0),
    {
        self.devices.len() == 0
    }

    /// The device at an index.
    pub fn get(&self, index: usize) -> (r: Option<&D>)
        ensures
            match r {
                Some(d) => index < self.devices@.len() && *d == self.devices@[index as int].device,
                None => index >= self.devices@.len(),
            },
    {
        if index < self.devices.len() {
            Some(&self.devices[index].device)
        } else {
            None
        }
    }

    /// Finds the device whose registers an address lies in.
    pub fn find_device_for_mmio(&self, addr: u64) -> (r: Option<(usize, u32)>)
        requires
            self.wf(),
        ensures
            match r {
                Some((index, offset)) => self.reached(addr) == Some((index as int, offset as int))
                    && index < self.devices@.len() && offset < MMIO_SIZE,
                None => self.reached(addr) is None,
            },
    {
        let mut i: usize = 0;
        while i < self.devices.len()
            invariant
                i <= self.devices@.len(),
                self.wf(),
                addr < self.base || addr >= register_address(self.base, i as int),
            decreases self.devices.len() - i,
        {
            let start: u64 = self.devices[i].mmio_base;
            assert(self.devices@[i as int].mmio_base == register_address(self.base, i as int));
            if addr >= start && addr < start + MMIO_SIZE {
                proof {
                    assert((addr - self.base) / MMIO_SIZE as int == i && (addr - self.base)
                        % MMIO_SIZE as int == addr - start) by {
                        assert(addr - self.base == i * MMIO_SIZE + (addr - start));
                    }
                }
                return Some((i, (addr - start) as u32));
            }
            i = i + 1;
        }
        None
    }

    /// Assigns every device its role, and pairs it with its event.
    pub fn create_io_devices<E>(&self, events: Vec<E>) -> (r: Vec<IoDevice<E>>)
        requires
            self.wf(),
            events@.len() == self.devices@.len(),
        ensures
            r@.len() == self.devices@.len(),
            forall|i: int|
                0 <= i < r@.len() ==> (#[trigger] r@[i]).index == i && r@[i].role == role(
                    self.devices@[i].is_input,
                    i,
                ) && r@[i].event == events@[i],
    {
        let mut r: Vec<IoDevice<E>> = Vec::new();
        let mut i: usize = 0;
        for event in it: events
            invariant
                self.wf(),
                it.seq() == events@,
                events@.len() == self.devices@.len(),
                i == it.index(),
                r@.len() == i,
                forall|k: int|
                    0 <= k < r@.len() ==> (#[trigger] r@[k]).index == k && r@[k].role == role(
                        self.devices@[k].is_input,
                        k,
                    ) && r@[k].event == events@[k],
        {
            let d_role = if !self.devices[i].is_input {
                DeviceRole::Output
            } else if i == 0 {
                DeviceRole::Input
            } else {
                DeviceRole::Backing(i as u32 - 1)
            };
            r.push(IoDevice { index: i, role: d_role, event });
            i = i + 1;
        }
        r
    }
}

// ---------------------------------------------------------------------------
// Register data
// ---------------------------------------------------------------------------

/// The value a guest wrote to a register: 1, 2 or 4 bytes; any other width
/// counts as zero.
pub open spec fn register_value(data: Seq<u8>) -> int {
    if data.len() == 1 || data.len() == 2 || data.len() == 4 {
        le_value(data)
    } else {
        0
    }
}

/// Reads the value a guest wrote to a register.
pub fn read_mmio_data(data: &[u8]) -> (r: u32)
    ensures
        r == register_value(data@),
{
    proof {
        reveal_with_fuel(le_value, 5);
    }
    if data.len() == 1 {
        assert(data@.skip(1).len() == 0);
        data[0] as u32
    } else if data.len() == 2 {
        assert(data@.skip(1).skip(1).len() == 0);
        data[0] as u32 + 256 * (data[1] as u32)
    } else if data.len() == 4 {
        assert(data@.skip(1).skip(1).skip(1).skip(1).len() == 0);
        data[0] as u32 + 256 * (data[1] as u32 + 256 * (data[2] as u32 + 256 * (data[3] as u32)))
    } else {
        0
    }
}

/// The bytes a guest gets for a register of that value: 1, 2, 4 or 8; a buffer
/// of any other width keeps what it held.
pub open spec fn register_bytes(before: Seq<u8>, value: u32) -> Seq<u8> {
    if before.len() == 1 || before.len() == 2 || before.len() == 4 || before.len() == 8 {
        le_bytes(value as int, before.len())
    } else {
        before
    }
}

/// Fills in the bytes a guest gets for a register.
pub fn write_mmio_data(data: &mut [u8], value: u32)
    ensures
        final(data)@ == register_bytes(old(data)@, value),
{
    let n: usize = data.len();
    let ghost before = data@;
    if n == 1 || n == 2 || n == 4 || n == 8 {
        let mut rest: u32 = value;
        let mut i: usize = 0;
        while i < n
            invariant
                i <= n,
                n == data@.len(),
                n == before.len(),
                le_bytes(value as int, n as nat) == data@.take(i as int) + le_bytes(
                    rest as int,
                    (n - i) as nat,
                ),
            decreases n - i,
        {
            let ghost old_take = data@.take(i as int);
            data[i] = (rest % 256) as u8;
            proof {
                assert(data@.take(i + 1) =~= old_take.push((rest % 256) as u8));
                assert(old_take + le_bytes(rest as int, (n - i) as nat) =~= data@.take(i + 1)
                    + le_bytes(rest as int / 256, (n - i - 1) as nat));
            }
            rest = rest / 256;
            i = i + 1;
        }
        assert(data@.take(i as int) =~= data@);
        assert(data@ + Seq::<u8>::empty() =~= data@);
    }
}

// ---------------------------------------------------------------------------
// Laws
// ---------------------------------------------------------------------------

/// Device registers lie outside guest memory, so that every access traps.
pub proof fn law_registers_lie_above_memory(guest_mem_size: u64)
    ensures
        register_base(guest_mem_size) >= guest_mem_size,
{
}

/// An address inside a device's registers reaches that device at that offset,
/// and no other.
pub proof fn law_register_address_reaches_its_device<D>(set: DeviceSet<D>, index: int, offset: int)
    requires
        set.wf(),
        0 <= index < set.devices@.len(),
        0 <= offset < MMIO_SIZE,
    ensures
        register_address(set.base, index) + offset <= u64::MAX,
        set.reached((register_address(set.base, index) + offset) as u64) == Some((index, offset)),
{
    let addr = register_address(set.base, index) + offset;
    assert(addr < register_address(set.base, set.devices@.len() as int));
    assert((addr - set.base) / MMIO_SIZE as int == index && (addr - set.base) % MMIO_SIZE as int
        == offset) by {
        assert(addr - set.base == index * MMIO_SIZE + offset);
    }
}

/// The queues of different devices do not overlap, and those of all devices a
/// set can hold end where the guest's buffers start.
pub proof fn law_queues_are_disjoint(i: int, j: int)
    requires
        0 <= i < j < MAX_CHAIN_DEPTH,
    ensures
        queue_address(i) + VQ_SIZE_PER_DEVICE <= queue_address(j),
        queue_address(j) + VQ_SIZE_PER_DEVICE <= DMA_POOL_BASE,
{
}

/// What the host answers for a register, a guest reads as the same value, as
/// far as the width of the access holds it: whatever the value, its low bytes,
/// and all of it in an access of four bytes.
pub proof fn law_register_value_round_trip(before: Seq<u8>, value: u32)
    requires
        before.len() == 1 || before.len() == 2 || before.len() == 4,
    ensures
        before.len() == 1 ==> register_value(register_bytes(before, value)) == value % 0x100,
        before.len() == 2 ==> register_value(register_bytes(before, value)) == value % 0x1_0000,
        before.len() == 4 ==> register_value(register_bytes(before, value)) == value,
{
    crate::bytes::lemma_le_bytes_len(value as int, before.len());
    reveal_with_fuel(crate::bytes::base_power, 5);
    law_le_bytes_read_back(value as int, before.len());
}

/// Device registers start at 256 megabytes where the memory ends before that,
/// and else at the first whole gigabyte that does not lie in it.
pub proof fn law_registers_start_behind_memory(guest_mem_size: u64, r: u64)
    requires
        guest_mem_size <= u64::MAX - 0x3fff_ffff,
        call_ensures(mmio_base_for_mem_size, (guest_mem_size,), r),
    ensures
        r >= guest_mem_size,
        guest_mem_size <= 0x1000_0000 ==> r == 0x1000_0000,
        guest_mem_size > 0x1000_0000 ==> r as int % 0x4000_0000 == 0 && r - guest_mem_size
            < 0x4000_0000,
{
}

/// Each device has a page of registers and 64 kilobytes of queues, one device
/// behind the other.
pub proof fn law_devices_lie_side_by_side(base: u64, index: usize, r: u64, s: u64)
    requires
        call_ensures(device_mmio_base, (base, index), r),
        call_ensures(device_vq_base, (index,), s),
    ensures
        r == base + index * 0x1000,
        s == 0x10_0000 + index * 0x1_0000,
{
}

/// A device that is added gets the next number and the registers that belong
/// to it, and is found by that number and at those registers; the devices that
/// were there stay what they were.
pub proof fn law_added_device_is_found<D>(
    set: &mut DeviceSet<D>,
    device: D,
    is_input: bool,
    index: usize,
    after: &DeviceSet<D>,
    got: Option<&D>,
    offset: u64,
    found: Option<(usize, u32)>,
)
    requires
        call_ensures(DeviceSet::<D>::add_device, (set, device, is_input), index),
        *after == *final(set),
        call_ensures(DeviceSet::<D>::get, (after, index), got),
        offset < 0x1000,
        call_ensures(
            DeviceSet::<D>::find_device_for_mmio,
            (after, (old(set).base + index * 0x1000 + offset) as u64),
            found,
        ),
    ensures
        index == old(set).devices@.len(),
        after.devices@.len() == index + 1,
        after.devices@[index as int].is_input == is_input,
        got == Some(&device),
        found == Some((index, offset as u32)),
        forall|i: int| 0 <= i < index ==> after.devices@[i] == #[trigger] old(set).devices@[i],
{
    law_register_address_reaches_its_device(*after, index as int, offset as int);
}

/// Nothing is found at addresses before the first device or behind the last.
pub proof fn law_other_addresses_reach_nothing<D>(
    set: &DeviceSet<D>,
    addr: u64,
    r: Option<(usize, u32)>,
)
    requires
        call_ensures(DeviceSet::<D>::find_device_for_mmio, (set, addr), r),
    ensures
        r is None <==> addr < set.base || addr >= set.base + set.devices@.len() * 0x1000,
        r matches Some((i, o)) ==> set.base + i * 0x1000 + o == addr && o < 0x1000 && i
            < set.devices@.len(),
{
}

/// The first device is the input, further inputs are the backing images behind
/// it in order, and what is no input is the output. Each keeps its number and
/// its event.
pub proof fn law_roles_follow_the_order<D, E>(
    set: &DeviceSet<D>,
    events: Vec<E>,
    r: Vec<IoDevice<E>>,
    i: int,
)
    requires
        call_ensures(DeviceSet::<D>::create_io_devices::<E>, (set, events), r),
        set.devices@.len() <= 16,
        0 <= i < set.devices@.len(),
    ensures
        r@.len() == set.devices@.len(),
        r@[i].index == i,
        r@[i].event == events@[i],
        r@[i].role == DeviceRole::Output <==> !set.devices@[i].is_input,
        r@[i].role == DeviceRole::Input <==> set.devices@[i].is_input && i == 0,
        set.devices@[i].is_input && i > 0 ==> (r@[i].role matches DeviceRole::Backing(depth)
            && depth == i - 1),
{
}

/// A register is read from one, two or four bytes, the lowest first; an access
/// of another width counts as zero.
pub proof fn law_register_is_read_lowest_byte_first(data: &[u8], r: u32)
    requires
        call_ensures(read_mmio_data, (data,), r),
    ensures
        data@.len() == 1 ==> r == data@[0],
        data@.len() == 2 ==> r == data@[0] + 0x100 * data@[1],
        data@.len() == 4 ==> r == data@[0] + 0x100 * data@[1] + 0x1_0000 * data@[2] + 0x100_0000
            * data@[3],
        data@.len() != 1 && data@.len() != 2 && data@.len() != 4 ==> r == 0,
{
    reveal_with_fuel(le_value, 5);
    if data@.len() == 2 {
        assert(data@.drop_first()[0] == data@[1]);
    }
    if data@.len() == 4 {
        assert(data@.drop_first()[0] == data@[1]);
        assert(data@.drop_first().drop_first()[0] == data@[2]);
        assert(data@.drop_first().drop_first().drop_first()[0] == data@[3]);
    }
}

/// A set has as many devices as were added to it, and none to begin with.
pub proof fn law_set_knows_its_devices<D>(
    base: u64,
    fresh: DeviceSet<D>,
    set: &DeviceSet<D>,
    n: usize,
    empty: bool,
    index: usize,
    got: Option<&D>,
)
    requires
        call_ensures(DeviceSet::<D>::new, (base,), fresh),
        call_ensures(DeviceSet::<D>::len, (set,), n),
        call_ensures(DeviceSet::<D>::is_empty, (set,), empty),
        call_ensures(DeviceSet::<D>::get, (set, index), got),
    ensures
        fresh.devices@.len() == 0 && fresh.base == base,
        n == set.devices@.len(),
        empty <==> n == 0,
        got is Some <==> index < n,
        got matches Some(d) ==> *d == set.devices@[index as int].device,
{
}

} // verus!
