//! Limits on numbers that the user gives.
use vstd::arithmetic::power2::{
    lemma2_to64, lemma_pow2_strictly_increases, lemma_pow2_unfold, pow2,
};
use vstd::prelude::*;
use crate::abi::MAX_SECTOR_SIZE;
use crate::text::{dec, outcome, push_dec};

verus! {

/// Whether a number is a power of two.
pub open spec fn power_of_two(n: int) -> bool {
    exists|k: nat| n == #[trigger] pow2(k)
}

/// Tests whether a number is a power of two.
pub fn is_power_of_two(n: u64) -> (r: bool)
    ensures
        r == power_of_two(n as int),
{
    let mut p: u128 = 1;
    let ghost mut k: nat = 0;
    proof {
        lemma2_to64();
        assert(pow2(0) == 1);
    }
    while p < n as u128
        invariant
            p == pow2(k),
            k > 0 ==> pow2((k - 1) as nat) < n,
            p >= 1,
            p <= 2 * (n as int) || p == 1,
        decreases 2 * n - p,
    {
        proof {
            lemma_pow2_unfold(k + 1);
            k = k + 1;
        }
        p = 2 * p;
    }
    proof {
        if p == n {
            assert(n as int == pow2(k));
        } else if power_of_two(n as int) {
            let j = choose|j: nat| n as int == #[trigger] pow2(j);
            if j >= k {
                if j > k {
                    lemma_pow2_strictly_increases(k, j);
                }
            } else if k > 0 {
                if j < k - 1 {
                    lemma_pow2_strictly_increases(j, (k - 1) as nat);
                }
            }
        }
    }
    p == n as u128
}

/// Finds the exponent of a power of two.
pub fn power_exponent(n: u64) -> (r: u32)
    requires
        power_of_two(n as int),
    ensures
        pow2(r as nat) == n,
        r < 64,
{
    let mut p: u128 = 1;
    let mut k: u32 = 0;
    proof {
        lemma2_to64();
        assert(pow2(0) == 1);
    }
    while p < n as u128
        invariant
            p == pow2(k as nat),
            p >= 1,
            k > 0 ==> pow2((k - 1) as nat) < n,
            k <= 64,
            p <= 2 * (n as int) || p == 1,
        decreases 2 * n - p,
    {
        proof {
            lemma2_to64();
            lemma_pow2_unfold((k + 1) as nat);
            if k == 64 {
                assert(pow2(64) == 0x1_0000_0000_0000_0000);
            }
        }
        p = 2 * p;
        k = k + 1;
    }
    proof {
        let j = choose|j: nat| n as int == #[trigger] pow2(j);
        if j > k {
            lemma_pow2_strictly_increases(k as nat, j);
        } else if j < k {
            if j < k - 1 {
                lemma_pow2_strictly_increases(j, (k - 1) as nat);
            }
        }
        lemma2_to64();
    }
    k
}

/// Whether a device can have sectors of a size.
pub open spec fn valid_sector_size(size: u32) -> bool {
    512 <= size <= MAX_SECTOR_SIZE && power_of_two(size as int)
}

/// The refusal of a sector size. The prefix says which device it is for.
pub open spec fn bad_sector_size(prefix: Seq<char>, size: u32) -> Seq<char> {
    prefix + "sector size must be a power of 2, 512 to 65536 (got "@ + dec(size as int) + ")"@
}

/// What a check of a sector size comes to.
pub open spec fn sector_check(prefix: Seq<char>, size: u32) -> Result<(), Seq<char>> {
    if valid_sector_size(size) {
        Ok(())
    } else {
        Err(bad_sector_size(prefix, size))
    }
}

/// Checks a sector size.
pub fn check_sector_size(prefix: &str, size: u32) -> (r: Result<(), String>)
    ensures
        outcome(r) == sector_check(prefix@, size),
{
    if 512 <= size && size <= MAX_SECTOR_SIZE && is_power_of_two(size as u64) {
        return Ok(());
    }
    let mut e = prefix.to_owned();
    e.append("sector size must be a power of 2, 512 to 65536 (got ");
    push_dec(&mut e, size as u64);
    e.append(")");
    Err(e)
}

// ---------------------------------------------------------------------------
// Laws
// ---------------------------------------------------------------------------

/// Sectors can have eight sizes, whichever device they are for.
pub proof fn law_eight_sector_sizes(prefix: &str, size: u32, r: Result<(), String>)
    requires
        call_ensures(check_sector_size, (prefix, size), r),
    ensures
        r is Ok <==> size == 512 || size == 1024 || size == 2048 || size == 4096 || size == 8192
            || size == 16384 || size == 32768 || size == 65536,
{
    lemma2_to64();
    if r is Ok {
        let k = choose|k: nat| size as int == #[trigger] pow2(k);
        if k < 9 {
            lemma_pow2_strictly_increases(k, 9);
        }
        if k > 16 {
            lemma_pow2_strictly_increases(16, k);
        }
    }
}

} // verus!
