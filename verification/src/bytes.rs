//! Little-endian numbers in byte sequences: the form in which the host hands
//! configurations to a guest and answers its register accesses.
use vstd::prelude::*;

verus! {

/// The `n` lowest bytes of `v`, lowest first.
pub open spec fn le_bytes(v: int, n: nat) -> Seq<u8>
    decreases n,
{
    if n == 0 {
        Seq::empty()
    } else {
        seq![(v % 256) as u8] + le_bytes(v / 256, (n - 1) as nat)
    }
}

/// The number that a byte sequence stands for, lowest byte first.
pub open spec fn le_value(b: Seq<u8>) -> int
    decreases b.len(),
{
    if b.len() == 0 {
        0
    } else {
        b[0] + 256 * le_value(b.skip(1))
    }
}

/// `n` bytes of zero.
pub open spec fn zeros(n: nat) -> Seq<u8> {
    Seq::new(n, |i: int| 0u8)
}

/// `256` to the power `n`.
pub open spec fn base_power(n: nat) -> int
    decreases n,
{
    if n == 0 {
        1
    } else {
        256 * base_power((n - 1) as nat)
    }
}

/// `n` bytes stand for `n` bytes.
pub broadcast proof fn lemma_le_bytes_len(v: int, n: nat)
    ensures
        #[trigger] le_bytes(v, n).len() == n,
    decreases n,
{
    if n > 0 {
        lemma_le_bytes_len(v / 256, (n - 1) as nat);
    }
}

/// A number reads back from `n` bytes as far as they hold it, and whole where
/// it fits.
pub proof fn law_le_bytes_read_back(v: int, n: nat)
    requires
        0 <= v,
    ensures
        base_power(n) > 0,
        le_value(le_bytes(v, n)) == v % base_power(n),
        v < base_power(n) ==> le_value(le_bytes(v, n)) == v,
    decreases n,
{
    if n > 0 {
        let m = (n - 1) as nat;
        law_le_bytes_read_back(v / 256, m);
        assert(le_bytes(v, n).skip(1) =~= le_bytes(v / 256, m));
        assert(le_bytes(v, n)[0] == (v % 256) as u8);
        vstd::arithmetic::div_mod::lemma_mod_breakdown(v, 256, base_power(m));
    }
    if v < base_power(n) {
        vstd::arithmetic::div_mod::lemma_small_mod(v as nat, base_power(n) as nat);
    }
}

/// Appends one byte.
pub fn push_u8(b: &mut Vec<u8>, v: u8)
    ensures
        final(b)@ == old(b)@ + le_bytes(v as int, 1),
{
    let ghost before = b@;
    b.push(v);
    proof {
        reveal_with_fuel(le_bytes, 2);
        assert(b@ =~= before + le_bytes(v as int, 1));
    }
}

/// Appends a 32-bit number.
pub fn push_u32(b: &mut Vec<u8>, v: u32)
    ensures
        final(b)@ == old(b)@ + le_bytes(v as int, 4),
{
    push_le(b, v as u64, 4);
}

/// Appends a 64-bit number.
pub fn push_u64(b: &mut Vec<u8>, v: u64)
    ensures
        final(b)@ == old(b)@ + le_bytes(v as int, 8),
{
    push_le(b, v, 8);
}

/// Appends the lowest bytes of a number.
pub fn push_le(b: &mut Vec<u8>, v: u64, n: usize)
    ensures
        final(b)@ == old(b)@ + le_bytes(v as int, n as nat),
    decreases n,
{
    let ghost before = b@;
    if n > 0 {
        b.push((v % 256) as u8);
        push_le(b, v / 256, n - 1);
    }
    assert(b@ =~= before + le_bytes(v as int, n as nat));
}

/// Appends zeros.
pub fn push_zeros(b: &mut Vec<u8>, n: usize)
    ensures
        final(b)@ == old(b)@ + zeros(n as nat),
{
    let ghost before = b@;
    let mut i: usize = 0;
    assert(b@ =~= before + zeros(0));
    while i < n
        invariant
            i <= n,
            b@ == before + zeros(i as nat),
        decreases n - i,
    {
        b.push(0);
        i = i + 1;
        assert(b@ =~= before + zeros(i as nat));
    }
}

/// Appends bytes.
pub fn push_bytes(b: &mut Vec<u8>, v: &[u8])
    ensures
        final(b)@ == old(b)@ + v@,
{
    let ghost before = b@;
    let mut i: usize = 0;
    assert(b@ =~= before + v@.take(0));
    while i < v.len()
        invariant
            i <= v@.len(),
            b@ == before + v@.take(i as int),
        decreases v.len() - i,
    {
        b.push(v[i]);
        i = i + 1;
        assert(b@ =~= before + v@.take(i as int));
    }
    assert(v@.take(i as int) =~= v@);
}

/// Bytes padded with zeros to a field of a fixed width.
pub open spec fn padded(v: Seq<u8>, width: nat) -> Seq<u8> {
    v + zeros((width - v.len()) as nat)
}

/// Appends bytes padded with zeros to a field of a fixed width.
pub fn push_padded(b: &mut Vec<u8>, v: &[u8], width: usize)
    requires
        v@.len() <= width,
    ensures
        final(b)@ == old(b)@ + padded(v@, width as nat),
{
    let ghost before = b@;
    push_bytes(b, v);
    push_zeros(b, width - v.len());
    assert(b@ =~= before + padded(v@, width as nat));
}

/// The number that a byte sequence stands for is smaller than the power of its
/// length.
pub proof fn lemma_le_value_bound(b: Seq<u8>)
    ensures
        0 <= le_value(b) < base_power(b.len()),
    decreases b.len(),
{
    if b.len() > 0 {
        lemma_le_value_bound(b.skip(1));
    }
}

/// Reads a 64-bit number.
pub fn read_u64(b: &[u8], at: usize) -> (r: u64)
    requires
        at + 8 <= b@.len(),
    ensures
        r == le_value(b@.subrange(at as int, at + 8)),
{
    let ghost field = b@.subrange(at as int, at + 8);
    let len: usize = b.len();
    let mut r: u64 = 0;
    let mut i: usize = 8;
    proof {
        assert(field.skip(8) =~= Seq::<u8>::empty());
    }
    while i > 0
        invariant
            i <= 8,
            len == b@.len(),
            at + 8 <= len,
            field == b@.subrange(at as int, at + 8),
            r == le_value(field.skip(i as int)),
        decreases i,
    {
        proof {
            let tail = field.skip(i - 1);
            assert(tail.skip(1) =~= field.skip(i as int));
            assert(tail[0] == b@[at + i - 1]);
            lemma_le_value_bound(tail);
            reveal_with_fuel(base_power, 9);
            lemma_le_value_bound(field.skip(i as int));
            assert(tail.len() == 9 - i);
        }
        i = i - 1;
        r = b[at + i] as u64 + 256 * r;
    }
    assert(field.skip(0) =~= field);
    r
}

/// A bit that is set under a condition.
pub open spec fn bit(set: bool, mask: u32) -> u32 {
    if set {
        mask
    } else {
        0
    }
}

/// A bit that is set under a condition.
pub fn bit_if(set: bool, mask: u32) -> (r: u32)
    ensures
        r == bit(set, mask),
{
    if set {
        mask
    } else {
        0
    }
}

/// A number is appended lowest byte first, and reads back; what stood before
/// it stays.
pub proof fn law_numbers_are_appended(b: &mut Vec<u8>, v: u32, r: ())
    requires
        call_ensures(push_u32, (b, v), r),
    ensures
        ({
            let n = old(b)@.len() as int;
            let after = final(b)@;
            &&& after.len() == n + 4
            &&& after.take(n) == old(b)@
            &&& after[n] + 0x100 * after[n + 1] + 0x1_0000 * after[n + 2] + 0x100_0000 * after[n
                + 3] == v
        }),
{
    broadcast use lemma_le_bytes_len;

    let n = old(b)@.len() as int;
    let after = final(b)@;
    let own = le_bytes(v as int, 4);
    reveal_with_fuel(le_bytes, 5);
    assert(after.take(n) =~= old(b)@);
    assert(after[n] == own[0] && after[n + 1] == own[1] && after[n + 2] == own[2] && after[n + 3]
        == own[3]);
    assert(own[0] == v as int % 256);
    assert(own[1] == v as int / 256 % 256);
    assert(own[2] == v as int / 256 / 256 % 256);
    assert(own[3] == v as int / 256 / 256 / 256 % 256);
}

/// A long number is appended as its low half and then its high half.
pub proof fn law_long_numbers_are_two_halves(v: u64)
    ensures
        le_bytes(v as int, 8) == le_bytes(v as int % 0x1_0000_0000, 4) + le_bytes(
            v as int / 0x1_0000_0000,
            4,
        ),
{
    broadcast use lemma_le_bytes_len;

    reveal_with_fuel(le_bytes, 9);
    let low = v as int % 0x1_0000_0000;
    assert(low % 256 == v as int % 256);
    assert(low / 256 % 256 == v as int / 256 % 256);
    assert(low / 256 / 256 % 256 == v as int / 256 / 256 % 256);
    assert(low / 256 / 256 / 256 % 256 == v as int / 256 / 256 / 256 % 256);
    assert(v as int / 256 / 256 / 256 / 256 == v as int / 0x1_0000_0000);
    assert(le_bytes(v as int, 8) =~= le_bytes(low, 4) + le_bytes(v as int / 0x1_0000_0000, 4));
}

/// A text in a field stands at its start, and zeros fill the rest.
pub proof fn law_field_is_filled_with_zeros(b: &mut Vec<u8>, v: &[u8], width: usize, r: ())
    requires
        v@.len() <= width,
        call_ensures(push_padded, (b, v, width), r),
    ensures
        ({
            let n = old(b)@.len() as int;
            let after = final(b)@;
            &&& after.len() == n + width
            &&& after.take(n) == old(b)@
            &&& after.subrange(n, n + v@.len()) == v@
            &&& forall|i: int| n + v@.len() <= i < after.len() ==> #[trigger] after[i] == 0
        }),
{
    let n = old(b)@.len() as int;
    assert(final(b)@.take(n) =~= old(b)@);
    assert(final(b)@.subrange(n, n + v@.len()) =~= v@);
}

/// What was written as a number of eight bytes is read as that number.
pub proof fn law_written_number_is_read(v: u64, b: &[u8], at: usize, r: u64)
    requires
        at + 8 <= b@.len(),
        b@.subrange(at as int, at + 8) == le_bytes(v as int, 8),
        call_ensures(read_u64, (b, at), r),
    ensures
        r == v,
{
    law_le_bytes_read_back(v as int, 8);
    reveal_with_fuel(base_power, 9);
}

/// A switch sets its bits or none.
pub proof fn law_switch_sets_its_bits(set: bool, mask: u32, r: u32)
    requires
        call_ensures(bit_if, (set, mask), r),
    ensures
        set ==> r == mask,
        !set ==> r == 0,
{
}

} // verus!
