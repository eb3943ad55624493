//! Byte sizes: reading them from the command line, printing them for people.
use vstd::prelude::*;
use crate::rounding::{
    binary64, half_even, half_up, lemma_binary64_error, lemma_spacing, push_short_hundredths,
    push_short_tenths, round_half_even, round_half_up, short_hundredths, short_tenths, to_binary64,
};
use crate::text::{
    all_digits, dec, digit, digits_value, from_chars, numeral, outcome, parse_number, parsed,
    push_dec, push_numeral, to_chars, trim, trimmed, unsigned_part, is_space,
};

verus! {

pub const KIB: u64 = 0x400;
pub const MIB: u64 = 0x10_0000;
pub const GIB: u64 = 0x4000_0000;
pub const TIB: u64 = 0x100_0000_0000;
pub const PIB: u64 = 0x4_0000_0000_0000;
pub const EIB: u64 = 0x1000_0000_0000_0000;

/// The factor that a memory size's last character stands for, if it is a
/// suffix.
pub open spec fn memory_suffix(c: char) -> Option<u64> {
    if c == 'T' || c == 't' {
        Some(TIB)
    } else if c == 'G' || c == 'g' {
        Some(GIB)
    } else if c == 'M' || c == 'm' {
        Some(MIB)
    } else if c == 'K' || c == 'k' {
        Some(KIB)
    } else {
        None
    }
}

/// The factor that an image size's last character stands for, if it is a
/// suffix.
pub open spec fn image_suffix(c: char) -> Option<u64> {
    if c == 'E' || c == 'e' {
        Some(EIB)
    } else if c == 'P' || c == 'p' {
        Some(PIB)
    } else if c == 'b' {
        Some(512)
    } else {
        memory_suffix(c)
    }
}

/// A number times a factor, or one of two complaints about the text it was
/// read from.
pub open spec fn multiplied(
    number: Option<nat>,
    factor: u64,
    invalid: Seq<char>,
    overflow: Seq<char>,
) -> Result<u64, Seq<char>> {
    match number {
        None => Err(invalid),
        Some(n) => if n * factor <= u64::MAX {
            Ok((n * factor) as u64)
        } else {
            Err(overflow)
        },
    }
}

/// What a memory size such as `256M` or `4096` stands for.
pub open spec fn memory_size(s: Seq<char>) -> Result<u64, Seq<char>> {
    let t = trimmed(s);
    let invalid = "invalid memory size: '"@ + t + "'"@;
    let overflow = "memory size overflow: '"@ + t + "'"@;
    if t.len() == 0 {
        Err("empty memory size string"@)
    } else {
        match memory_suffix(t.last()) {
            Some(factor) => multiplied(parsed(t.drop_last(), u64::MAX as nat), factor, invalid, overflow),
            None => multiplied(parsed(t, u64::MAX as nat), 1, invalid, overflow),
        }
    }
}

/// What an image size with the full suffix set stands for; white space may
/// stand between the number and its suffix.
pub open spec fn image_size(s: Seq<char>) -> Result<u64, Seq<char>> {
    let t = trimmed(s);
    let invalid = "invalid size: '"@ + t + "'"@;
    let overflow = "size overflow: '"@ + t + "'"@;
    if t.len() == 0 {
        Err("empty size string"@)
    } else {
        match image_suffix(t.last()) {
            Some(factor) => multiplied(
                parsed(trimmed(t.drop_last()), u64::MAX as nat),
                factor,
                invalid,
                overflow,
            ),
            None => multiplied(parsed(trimmed(t), u64::MAX as nat), 1, invalid, overflow),
        }
    }
}

fn quoted(prefix: &str, text: &str) -> (r: String)
    ensures
        r@ == prefix@ + text@ + "'"@,
{
    let mut m = prefix.to_owned();
    m.append(text);
    m.append("'");
    m
}

fn suffix_factor(c: char, image: bool) -> (r: Option<u64>)
    ensures
        r == if image {
            image_suffix(c)
        } else {
            memory_suffix(c)
        },
{
    if image && (c == 'E' || c == 'e') {
        Some(EIB)
    } else if image && (c == 'P' || c == 'p') {
        Some(PIB)
    } else if image && c == 'b' {
        Some(512)
    } else if c == 'T' || c == 't' {
        Some(TIB)
    } else if c == 'G' || c == 'g' {
        Some(GIB)
    } else if c == 'M' || c == 'm' {
        Some(MIB)
    } else if c == 'K' || c == 'k' {
        Some(KIB)
    } else {
        None
    }
}

/// The text before the last character.
fn without_last(v: &Vec<char>) -> (r: String)
    requires
        v@.len() > 0,
    ensures
        r@ == v@.drop_last(),
{
    let r = from_chars(v, 0, v.len() - 1);
    assert(r@ =~= v@.drop_last());
    r
}

/// Reads a memory size such as `256M`, `1G` or `4096`, in bytes.
pub fn parse_memory_size(s: &str) -> (r: Result<u64, String>)
    ensures
        outcome(r) == memory_size(s@),
{
    let t = trim(s);
    let v = to_chars(t.as_str());
    if v.len() == 0 {
        return Err("empty memory size string".to_owned());
    }
    let (number, factor): (Option<u64>, u64) = match suffix_factor(v[v.len() - 1], false) {
        Some(f) => (parse_number(without_last(&v).as_str(), u64::MAX), f),
        None => (parse_number(t.as_str(), u64::MAX), 1),
    };
    match number {
        None => Err(quoted("invalid memory size: '", t.as_str())),
        Some(n) => match n.checked_mul(factor) {
            Some(b) => Ok(b),
            None => Err(quoted("memory size overflow: '", t.as_str())),
        },
    }
}

/// Reads an image size with the suffixes `b`, `k`, `M`, `G`, `T`, `P`, `E`.
pub fn parse_qemu_img_size(s: &str) -> (r: Result<u64, String>)
    ensures
        outcome(r) == image_size(s@),
{
    let t = trim(s);
    let v = to_chars(t.as_str());
    if v.len() == 0 {
        return Err("empty size string".to_owned());
    }
    let (number, factor): (Option<u64>, u64) = match suffix_factor(v[v.len() - 1], true) {
        Some(f) => (parse_number(trim(without_last(&v).as_str()).as_str(), u64::MAX), f),
        None => (parse_number(trim(t.as_str()).as_str(), u64::MAX), 1),
    };
    match number {
        None => Err(quoted("invalid size: '", t.as_str())),
        Some(n) => match n.checked_mul(factor) {
            Some(b) => Ok(b),
            None => Err(quoted("size overflow: '", t.as_str())),
        },
    }
}

/// A size argument of `resize`: absolute, or relative to the current size.
#[derive(Debug, Clone, Copy, PartialEq, Eq, Structural)]
pub enum ParsedResizeSize {
    Absolute(u64),
    Add(u64),
    Subtract(u64),
}

/// What a size argument with an optional sign stands for.
pub open spec fn resize_size(s: Seq<char>) -> Result<ParsedResizeSize, Seq<char>> {
    let t = trimmed(s);
    if t.len() == 0 {
        Err("empty size string"@)
    } else if t.first() == '+' {
        match image_size(t.drop_first()) {
            Ok(n) => Ok(ParsedResizeSize::Add(n)),
            Err(e) => Err(e),
        }
    } else if t.first() == '-' {
        match image_size(t.drop_first()) {
            Ok(n) => Ok(ParsedResizeSize::Subtract(n)),
            Err(e) => Err(e),
        }
    } else {
        match image_size(t) {
            Ok(n) => Ok(ParsedResizeSize::Absolute(n)),
            Err(e) => Err(e),
        }
    }
}

/// Reads `[+-]SIZE` with the suffixes of an image size.
pub fn parse_resize_size(s: &str) -> (r: Result<ParsedResizeSize, String>)
    ensures
        outcome(r) == resize_size(s@),
{
    let t = trim(s);
    let v = to_chars(t.as_str());
    if v.len() == 0 {
        return Err("empty size string".to_owned());
    }
    if v[0] == '+' || v[0] == '-' {
        let rest = from_chars(&v, 1, v.len());
        assert(rest@ =~= t@.drop_first());
        match parse_qemu_img_size(rest.as_str()) {
            Ok(n) => if v[0] == '+' {
                Ok(ParsedResizeSize::Add(n))
            } else {
                Ok(ParsedResizeSize::Subtract(n))
            },
            Err(e) => Err(e),
        }
    } else {
        match parse_qemu_img_size(t.as_str()) {
            Ok(n) => Ok(ParsedResizeSize::Absolute(n)),
            Err(e) => Err(e),
        }
    }
}

/// `bytes` in a unit of that many bytes. The quotient and its multiples pass
/// through binary64. With `qemu_compat` it has three significant digits, ties
/// to even; without, one digit after the point, ties upwards.
pub open spec fn size_in_unit(bytes: u64, unit: u64, qemu_compat: bool) -> Seq<char> {
    let x = binary64(bytes as nat);
    let d = unit as nat;
    if !qemu_compat {
        short_tenths(round_half_up(binary64(10 * x), d))
    } else if x >= 100 * d {
        dec(round_half_even(x, d) as int)
    } else if x >= 10 * d {
        short_tenths(round_half_even(binary64(10 * x), d))
    } else {
        short_hundredths(round_half_even(binary64(100 * x), d))
    }
}

/// A byte count for people, in the largest unit that does not exceed it.
pub open spec fn human_size(bytes: u64, qemu_compat: bool) -> Seq<char> {
    if bytes >= TIB {
        size_in_unit(bytes, TIB, qemu_compat) + " TiB"@
    } else if bytes >= GIB {
        size_in_unit(bytes, GIB, qemu_compat) + " GiB"@
    } else if bytes >= MIB {
        size_in_unit(bytes, MIB, qemu_compat) + " MiB"@
    } else if bytes >= KIB {
        size_in_unit(bytes, KIB, qemu_compat) + " KiB"@
    } else if bytes == 0 {
        "0"@
    } else {
        dec(bytes as int) + " B"@
    }
}

/// Appends a byte count in the given unit.
fn push_size_in_unit(s: &mut String, bytes: u64, unit: u64, qemu_compat: bool)
    requires
        1 < unit <= TIB,
    ensures
        final(s)@ == old(s)@ + size_in_unit(bytes, unit, qemu_compat),
{
    proof {
        lemma_binary64_error(bytes as nat);
        lemma_spacing(bytes as nat);
    }
    let x: u128 = to_binary64(bytes as u128);
    let d: u128 = unit as u128;
    if !qemu_compat {
        push_short_tenths(s, half_up(to_binary64(10 * x), d));
    } else if x >= 100 * d {
        push_numeral(s, half_even(x, d), 10);
    } else if x >= 10 * d {
        push_short_tenths(s, half_even(to_binary64(10 * x), d));
    } else {
        push_short_hundredths(s, half_even(to_binary64(100 * x), d));
    }
}

/// Formats a byte count for people. With `qemu_compat` it has three
/// significant digits, otherwise at most one digit after the point.
pub fn format_size_human(bytes: u64, qemu_compat: bool) -> (r: String)
    ensures
        r@ == human_size(bytes, qemu_compat),
{
    let mut s = String::new();
    if bytes >= TIB {
        push_size_in_unit(&mut s, bytes, TIB, qemu_compat);
        s.append(" TiB");
    } else if bytes >= GIB {
        push_size_in_unit(&mut s, bytes, GIB, qemu_compat);
        s.append(" GiB");
    } else if bytes >= MIB {
        push_size_in_unit(&mut s, bytes, MIB, qemu_compat);
        s.append(" MiB");
    } else if bytes >= KIB {
        push_size_in_unit(&mut s, bytes, KIB, qemu_compat);
        s.append(" KiB");
    } else if bytes == 0 {
        s.append("0");
    } else {
        push_dec(&mut s, bytes);
        s.append(" B");
    }
    assert(s@ =~= human_size(bytes, qemu_compat));
    s
}

// ---------------------------------------------------------------------------
// Laws
// ---------------------------------------------------------------------------

proof fn lemma_trimmed_ends(s: Seq<char>)
    requires
        s.len() > 0,
        !is_space(s.first()),
        !is_space(s.last()),
    ensures
        trimmed(s) == s,
{
}

/// The image size reader is a superset of the memory size reader: it gives
/// the same value on every text that the latter accepts.
pub proof fn law_image_size_extends_memory_size(s: Seq<char>)
    ensures
        memory_size(s) is Ok ==> image_size(s) == memory_size(s),
{
    let t = trimmed(s);
    if memory_size(s) is Ok {
        let number = if memory_suffix(t.last()) is Some {
            t.drop_last()
        } else {
            t
        };
        assert(parsed(number, u64::MAX as nat) is Some);
        let body = unsigned_part(number);
        assert(all_digits(body));
        assert('0' <= body[body.len() - 1] <= '9');
        assert('0' <= body[0] <= '9');
        assert(number.last() == body.last());
        assert(number.first() == '+' || number.first() == body.first());
        lemma_trimmed_ends(number);
    }
}

/// The decimal numeral of a number is a run of digits with its value.
pub proof fn lemma_dec_digits(n: nat)
    ensures
        all_digits(dec(n as int)),
        digits_value(dec(n as int)) == n,
    decreases n,
{
    let s = numeral(n, 10);
    if n >= 10 {
        lemma_dec_digits(n / 10);
        let head = numeral(n / 10, 10);
        assert(s =~= head.push(digit(n % 10)));
        assert(s.drop_last() =~= head);
        assert(digits_value(s) == digits_value(head) * 10 + n % 10);
        assert forall|i: int| 0 <= i < s.len() implies '0' <= #[trigger] s[i] <= '9' by {
            if i < head.len() {
                assert(s[i] == head[i]);
            }
        }
    } else {
        assert(s.drop_last() =~= Seq::<char>::empty());
        assert(digits_value(s.drop_last()) == 0);
    }
}

/// A size written in decimal bytes reads back as the same size.
pub proof fn law_decimal_size_reads_back(n: u64)
    ensures
        memory_size(dec(n as int)) == Ok::<u64, Seq<char>>(n),
{
    let s = dec(n as int);
    lemma_dec_digits(n as nat);
    assert('0' <= s[0] <= '9');
    assert('0' <= s[s.len() - 1] <= '9');
    lemma_trimmed_ends(s);
    assert(unsigned_part(s) == s);
    assert(parsed(s, u64::MAX as nat) == Some(n as nat));
}

/// A decimal numeral with a suffix is left as it is by trimming, and its number
/// is read.
proof fn lemma_suffixed(n: u64, c: char)
    requires
        c == 'K' || c == 'k' || c == 'M' || c == 'm' || c == 'G' || c == 'g' || c == 'T' || c
            == 't' || c == 'P' || c == 'p' || c == 'E' || c == 'e' || c == 'b',
    ensures
        ({
            let s = dec(n as int).push(c);
            &&& trimmed(s) == s
            &&& s.last() == c
            &&& s.drop_last() == dec(n as int)
            &&& trimmed(dec(n as int)) == dec(n as int)
            &&& parsed(dec(n as int), u64::MAX as nat) == Some(n as nat)
        }),
{
    let d = dec(n as int);
    let s = d.push(c);
    lemma_dec_digits(n as nat);
    assert('0' <= d[0] <= '9');
    assert('0' <= d[d.len() - 1] <= '9');
    assert(unsigned_part(d) == d);
    assert(s[0] == d[0]);
    lemma_trimmed_ends(d);
    lemma_trimmed_ends(s);
    assert(s.drop_last() =~= d);
}

/// A number with a suffix is that many times the unit that the suffix stands
/// for, in either letter case, and is read wherever that fits.
pub proof fn law_suffix_multiplies(n: u64, s: &str, r: Result<u64, String>, t: Result<u64, String>)
    requires
        s@.len() > 0,
        s@.drop_last() == dec(n as int),
        call_ensures(parse_memory_size, (s,), r),
        call_ensures(parse_qemu_img_size, (s,), t),
    ensures
        ({
            let c = s@.last();
            let unit = if c == 'K' || c == 'k' {
                0x400int
            } else if c == 'M' || c == 'm' {
                0x10_0000int
            } else if c == 'G' || c == 'g' {
                0x4000_0000int
            } else if c == 'T' || c == 't' {
                0x100_0000_0000int
            } else if c == 'P' || c == 'p' {
                0x4_0000_0000_0000int
            } else if c == 'E' || c == 'e' {
                0x1000_0000_0000_0000int
            } else if c == 'b' {
                512int
            } else {
                0int
            };
            let of_memory = c == 'K' || c == 'k' || c == 'M' || c == 'm' || c == 'G' || c == 'g' || c
                == 'T' || c == 't';
            &&& of_memory ==> (r is Ok <==> n * unit <= u64::MAX)
            &&& of_memory && r is Ok ==> r->Ok_0 == n * unit
            &&& unit > 0 ==> (t is Ok <==> n * unit <= u64::MAX)
            &&& unit > 0 && t is Ok ==> t->Ok_0 == n * unit
        }),
{
    let c = s@.last();
    assert(s@ =~= dec(n as int).push(c));
    if c == 'K' || c == 'k' || c == 'M' || c == 'm' || c == 'G' || c == 'g' || c == 'T' || c == 't'
        || c == 'P' || c == 'p' || c == 'E' || c == 'e' || c == 'b' {
        lemma_suffixed(n, c);
    }
}

/// A number without a suffix is a number of bytes.
pub proof fn law_plain_number_is_bytes(n: u64, s: &str, r: Result<u64, String>, t: Result<u64, String>)
    requires
        s@ == dec(n as int),
        call_ensures(parse_memory_size, (s,), r),
        call_ensures(parse_qemu_img_size, (s,), t),
    ensures
        r is Ok && r->Ok_0 == n,
        t is Ok && t->Ok_0 == n,
{
    law_decimal_size_reads_back(n);
    law_image_size_extends_memory_size(s@);
}

/// A size with a plus adds, one with a minus subtracts, and one without a sign
/// is absolute; what follows the sign is read as any size of an image.
pub proof fn law_sign_decides(s: &str, r: Result<ParsedResizeSize, String>)
    requires
        call_ensures(parse_resize_size, (s,), r),
    ensures
        ({
            let t = trimmed(s@);
            &&& t.len() == 0 ==> r is Err
            &&& t.len() > 0 && t[0] == '+' ==> (r is Ok <==> image_size(t.skip(1)) is Ok) && (r is Ok
                ==> r->Ok_0 == ParsedResizeSize::Add(image_size(t.skip(1))->Ok_0))
            &&& t.len() > 0 && t[0] == '-' ==> (r is Ok <==> image_size(t.skip(1)) is Ok) && (r is Ok
                ==> r->Ok_0 == ParsedResizeSize::Subtract(image_size(t.skip(1))->Ok_0))
            &&& t.len() > 0 && t[0] != '+' && t[0] != '-' ==> (r is Ok <==> image_size(t) is Ok) && (
            r is Ok ==> r->Ok_0 == ParsedResizeSize::Absolute(image_size(t)->Ok_0))
        }),
{
    let t = trimmed(s@);
    if t.len() > 0 {
        assert(t.skip(1) =~= t.drop_first());
    }
}

/// A size for people is in the largest unit that it fills, and in bytes below
/// a kilobyte; nothing has no unit.
pub proof fn law_size_is_in_the_largest_unit(bytes: u64, qemu_compat: bool, r: String)
    requires
        call_ensures(format_size_human, (bytes, qemu_compat), r),
    ensures
        bytes == 0 ==> r@ == "0"@,
        0 < bytes < 0x400 ==> r@ == dec(bytes as int) + " B"@,
        0x400 <= bytes < 0x10_0000 ==> r@.skip(r@.len() - 4) == " KiB"@,
        0x10_0000 <= bytes < 0x4000_0000 ==> r@.skip(r@.len() - 4) == " MiB"@,
        0x4000_0000 <= bytes < 0x100_0000_0000 ==> r@.skip(r@.len() - 4) == " GiB"@,
        0x100_0000_0000 <= bytes ==> r@.skip(r@.len() - 4) == " TiB"@,
{
    reveal_strlit(" KiB");
    reveal_strlit(" MiB");
    reveal_strlit(" GiB");
    reveal_strlit(" TiB");
    let k = size_in_unit(bytes, KIB, qemu_compat);
    let m = size_in_unit(bytes, MIB, qemu_compat);
    let g = size_in_unit(bytes, GIB, qemu_compat);
    let t = size_in_unit(bytes, TIB, qemu_compat);
    assert((k + " KiB"@).skip(k.len() as int) =~= " KiB"@);
    assert((m + " MiB"@).skip(m.len() as int) =~= " MiB"@);
    assert((g + " GiB"@).skip(g.len() as int) =~= " GiB"@);
    assert((t + " TiB"@).skip(t.len() as int) =~= " TiB"@);
}

} // verus!
