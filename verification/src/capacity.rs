//! How large a device seems to a guest that may make its file grow.
use vstd::prelude::*;

verus! {

/// The least size that such a device seems to have.
pub const LEAST_CAPACITY: u64 = 0x4000_0000;

/// Twice a file's size, and no less than the least.
pub open spec fn doubled(size: u64) -> u64 {
    if size * 2 > u64::MAX {
        u64::MAX
    } else if size * 2 < LEAST_CAPACITY {
        LEAST_CAPACITY
    } else {
        (size * 2) as u64
    }
}

/// Works out the size that a device seems to have.
pub fn doubled_capacity(size: u64) -> (r: u64)
    ensures
        r == doubled(size),
{
    if size > 0x7fff_ffff_ffff_ffff {
        0xffff_ffff_ffff_ffff
    } else if size * 2 < LEAST_CAPACITY {
        LEAST_CAPACITY
    } else {
        size * 2
    }
}

/// The device always has room for the file, and for a gigabyte.
pub proof fn law_capacity_has_room(size: u64)
    ensures
        doubled(size) >= size,
        doubled(size) >= LEAST_CAPACITY,
{
}

/// A file of half a gigabyte or more may double, as far as sizes go; a smaller
/// one may grow to a gigabyte; and no file may grow to less than a smaller one
/// may.
pub proof fn law_a_file_may_double(size: u64, other: u64, r: u64, s: u64)
    requires
        call_ensures(doubled_capacity, (size,), r),
        call_ensures(doubled_capacity, (other,), s),
    ensures
        size < 0x2000_0000 ==> r == 0x4000_0000,
        0x2000_0000 <= size <= u64::MAX / 2 ==> r == 2 * size,
        size > u64::MAX / 2 ==> r == u64::MAX,
        size <= other ==> r <= s,
{
}

} // verus!
