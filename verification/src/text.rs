//! Characters, numerals and the small string operations the tool's messages
//! and option parsers are made of, each stated over `Seq<char>`.
use vstd::prelude::*;
use crate::size::lemma_dec_digits;

verus! {

/// `String::push`: appends the given character to the end of the string.
pub assume_specification [String::push] (s: &mut String, ch: char)
    ensures
        final(s)@ == old(s)@.push(ch),
;

// ---------------------------------------------------------------------------
// Strings and character sequences
// ---------------------------------------------------------------------------

/// Whether two strings hold the same characters.
pub fn same(a: &str, b: &str) -> (r: bool)
    ensures
        r == (a@ == b@),
{
    a.to_owned() == b.to_owned()
}

/// The characters of a string, in order.
pub fn to_chars(s: &str) -> (v: Vec<char>)
    ensures
        v@ == s@,
{
    let mut v: Vec<char> = Vec::new();
    for c in it: s.chars()
        invariant
            it.seq() == s@,
            v@ == s@.take(it.index() as int),
    {
        proof {
            assert(s@.take(it.index() + 1) =~= s@.take(it.index() as int).push(s@[it.index() as int]));
        }
        v.push(c);
    }
    proof {
        assert(s@.take(s@.len() as int) =~= s@);
    }
    v
}

/// The string of a character range of a vector.
pub fn from_chars(v: &Vec<char>, from: usize, to: usize) -> (s: String)
    requires
        from <= to <= v@.len(),
    ensures
        s@ == v@.subrange(from as int, to as int),
{
    let mut s = String::new();
    let mut i: usize = from;
    while i < to
        invariant
            from <= i <= to <= v@.len(),
            s@ == v@.subrange(from as int, i as int),
        decreases to - i,
    {
        s.push(v[i]);
        i = i + 1;
        proof {
            assert(v@.subrange(from as int, i as int) =~= v@.subrange(from as int, i - 1).push(v@[i - 1]));
        }
    }
    s
}

/// A result whose error is seen as the text it holds.
pub open spec fn outcome<T>(r: Result<T, String>) -> Result<T, Seq<char>> {
    match r {
        Ok(v) => Ok(v),
        Err(e) => Err(e@),
    }
}

/// A part of a text that is there under a condition.
pub open spec fn opt(there: bool, text: Seq<char>) -> Seq<char> {
    if there {
        text
    } else {
        Seq::empty()
    }
}

/// Appends a text under a condition.
pub fn push_if(s: &mut String, there: bool, text: &str)
    ensures
        final(s)@ == old(s)@ + opt(there, text@),
{
    let ghost before = s@;
    if there {
        s.append(text);
    }
    assert(s@ =~= before + opt(there, text@));
}

/// The text of a name that may be missing.
pub open spec fn name_of(name: Option<String>) -> Option<Seq<char>> {
    match name {
        Some(s) => Some(s@),
        None => None,
    }
}

/// A copy of a name that may be missing.
pub(crate) fn copied(name: &Option<String>) -> (r: Option<String>)
    ensures
        name_of(r) == name_of(*name),
        r is Some == (name is Some),
{
    match name {
        Some(s) => Some(s.as_str().to_owned()),
        None => None,
    }
}

/// The number of bytes a text takes in UTF-8.
pub open spec fn byte_len(text: Seq<char>) -> nat {
    vstd::utf8::encode_utf8(text).len()
}

/// Counts the bytes of a text.
pub fn byte_length(text: &str) -> (r: usize)
    ensures
        r == byte_len(text@),
{
    text.as_bytes().len()
}

/// A truth value in words.
pub open spec fn truth(b: bool) -> Seq<char> {
    if b {
        "true"@
    } else {
        "false"@
    }
}

/// A truth value in words.
pub fn truth_word(b: bool) -> (r: &'static str)
    ensures
        r@ == truth(b),
{
    if b {
        "true"
    } else {
        "false"
    }
}

/// A text between two fixed ones.
pub fn between(before: &str, text: &str, after: &str) -> (r: String)
    ensures
        r@ == before@ + text@ + after@,
{
    let mut r = before.to_owned();
    r.append(text);
    r.append(after);
    r
}

/// A decimal numeral between two fixed texts.
pub fn number_between(before: &str, n: u64, after: &str) -> (r: String)
    ensures
        r@ == before@ + dec(n as int) + after@,
{
    let mut r = before.to_owned();
    push_dec(&mut r, n);
    r.append(after);
    r
}

// ---------------------------------------------------------------------------
// Numerals
// ---------------------------------------------------------------------------

/// The character of a decimal or hexadecimal digit.
pub open spec fn digit(d: nat) -> char {
    if d < 10 {
        (48 + d) as char
    } else {
        (87 + d) as char
    }
}

/// The shortest numeral of `n` in the given base, lower case.
pub open spec fn numeral(n: nat, base: nat) -> Seq<char>
    decreases n,
{
    if base < 2 || n < base {
        seq![digit(n)]
    } else {
        proof {
            assert(n / base < n) by (nonlinear_arith)
                requires
                    n >= base,
                    base >= 2,
            ;
        }
        numeral(n / base, base).push(digit(n % base))
    }
}

/// The decimal numeral of `n`.
pub open spec fn dec(n: int) -> Seq<char> {
    numeral(n as nat, 10)
}

/// The lower-case hexadecimal numeral of `n`, without a prefix.
pub open spec fn hex(n: int) -> Seq<char> {
    numeral(n as nat, 16)
}

fn digit_char(d: u8) -> (c: char)
    requires
        d < 16,
    ensures
        c == digit(d as nat),
{
    if d < 10 {
        (48 + d) as char
    } else {
        (87 + d) as char
    }
}

/// Appends the numeral of `n` in the given base.
pub fn push_numeral(s: &mut String, n: u128, base: u128)
    requires
        2 <= base <= 16,
    ensures
        final(s)@ == old(s)@ + numeral(n as nat, base as nat),
    decreases n,
{
    let ghost before = s@;
    if n < base {
        s.push(digit_char(n as u8));
        assert(s@ =~= before + numeral(n as nat, base as nat));
    } else {
        proof {
            assert(n / base < n) by (nonlinear_arith)
                requires
                    n >= base,
                    base >= 2,
            ;
        }
        push_numeral(s, n / base, base);
        s.push(digit_char((n % base) as u8));
        assert(s@ =~= before + numeral(n as nat, base as nat));
    }
}

/// Appends the decimal numeral of `n`.
pub fn push_dec(s: &mut String, n: u64)
    ensures
        final(s)@ == old(s)@ + dec(n as int),
{
    push_numeral(s, n as u128, 10);
}

/// Appends the lower-case hexadecimal numeral of `n`.
pub fn push_hex(s: &mut String, n: u64)
    ensures
        final(s)@ == old(s)@ + hex(n as int),
{
    push_numeral(s, n as u128, 16);
}

// ---------------------------------------------------------------------------
// Padding
// ---------------------------------------------------------------------------

/// `n` copies of one character.
pub open spec fn repeated(c: char, n: nat) -> Seq<char> {
    Seq::new(n, |i: int| c)
}

/// How many characters a text of the given length lacks to fill a column.
pub open spec fn missing(width: nat, len: nat) -> nat {
    if len < width {
        (width - len) as nat
    } else {
        0
    }
}

/// `text` followed by spaces up to a minimum width.
pub open spec fn left_aligned(text: Seq<char>, width: nat) -> Seq<char> {
    text + repeated(' ', missing(width, text.len()))
}

/// `text` preceded by spaces up to a minimum width.
pub open spec fn right_aligned(text: Seq<char>, width: nat) -> Seq<char> {
    repeated(' ', missing(width, text.len())) + text
}

/// The numeral `text` preceded by zeros up to a minimum width.
pub open spec fn zero_padded(text: Seq<char>, width: nat) -> Seq<char> {
    repeated('0', missing(width, text.len())) + text
}

/// Appends `n` copies of a character.
pub fn push_repeated(s: &mut String, c: char, n: usize)
    ensures
        final(s)@ == old(s)@ + repeated(c, n as nat),
{
    let ghost before = s@;
    let mut i: usize = 0;
    assert(s@ =~= before + repeated(c, 0));
    while i < n
        invariant
            i <= n,
            s@ == before + repeated(c, i as nat),
        decreases n - i,
    {
        s.push(c);
        i = i + 1;
        assert(s@ =~= before + repeated(c, i as nat));
    }
}

/// Appends `text`, padded on the right with spaces to a minimum width.
pub fn push_left_aligned(s: &mut String, text: &str, width: usize)
    ensures
        final(s)@ == old(s)@ + left_aligned(text@, width as nat),
{
    let ghost before = s@;
    let len: usize = text.unicode_len();
    s.append(text);
    if len < width {
        push_repeated(s, ' ', width - len);
    }
    assert(s@ =~= before + left_aligned(text@, width as nat));
}

/// Appends `text`, padded on the left with spaces to a minimum width.
pub fn push_right_aligned(s: &mut String, text: &str, width: usize)
    ensures
        final(s)@ == old(s)@ + right_aligned(text@, width as nat),
{
    let ghost before = s@;
    let len: usize = text.unicode_len();
    if len < width {
        push_repeated(s, ' ', width - len);
    }
    s.append(text);
    assert(s@ =~= before + right_aligned(text@, width as nat));
}

/// Appends the numeral of `n`, padded on the left with zeros.
pub fn push_zero_padded(s: &mut String, n: u64, base: u64, width: usize)
    requires
        2 <= base <= 16,
    ensures
        final(s)@ == old(s)@ + zero_padded(numeral(n as nat, base as nat), width as nat),
{
    let ghost before = s@;
    let mut text = String::new();
    push_numeral(&mut text, n as u128, base as u128);
    assert(text@ =~= numeral(n as nat, base as nat));
    let len: usize = text.as_str().unicode_len();
    if len < width {
        push_repeated(s, '0', width - len);
    }
    s.append(text.as_str());
    assert(s@ =~= before + zero_padded(numeral(n as nat, base as nat), width as nat));
}

// ---------------------------------------------------------------------------
// White space, pieces and letter case
// ---------------------------------------------------------------------------

/// The characters with the Unicode property `White_Space`.
pub open spec fn is_space(c: char) -> bool {
    let n = c as int;
    ||| 0x09 <= n <= 0x0d
    ||| n == 0x20
    ||| n == 0x85
    ||| n == 0xa0
    ||| n == 0x1680
    ||| 0x2000 <= n <= 0x200a
    ||| n == 0x2028
    ||| n == 0x2029
    ||| n == 0x202f
    ||| n == 0x205f
    ||| n == 0x3000
}

fn char_is_space(c: char) -> (r: bool)
    ensures
        r == is_space(c),
{
    let n: u32 = c as u32;
    (0x09 <= n && n <= 0x0d) || n == 0x20 || n == 0x85 || n == 0xa0 || n == 0x1680 || (0x2000 <= n
        && n <= 0x200a) || n == 0x2028 || n == 0x2029 || n == 0x202f || n == 0x205f || n == 0x3000
}

/// `s` without the white space it starts with.
pub open spec fn trim_start(s: Seq<char>) -> Seq<char>
    decreases s.len(),
{
    if s.len() > 0 && is_space(s.first()) {
        trim_start(s.drop_first())
    } else {
        s
    }
}

/// `s` without the white space it ends with.
pub open spec fn trim_end(s: Seq<char>) -> Seq<char>
    decreases s.len(),
{
    if s.len() > 0 && is_space(s.last()) {
        trim_end(s.drop_last())
    } else {
        s
    }
}

/// `s` without the white space around it.
pub open spec fn trimmed(s: Seq<char>) -> Seq<char> {
    trim_end(trim_start(s))
}

/// The part of a string that is left when the white space around it is cut.
pub fn trim(s: &str) -> (r: String)
    ensures
        r@ == trimmed(s@),
{
    let v = to_chars(s);
    let mut from: usize = 0;
    let mut to: usize = v.len();
    assert(v@.subrange(0, to as int) =~= s@);
    while from < to && char_is_space(v[from])
        invariant
            from <= to == v@.len(),
            v@ == s@,
            trim_start(v@.subrange(from as int, to as int)) == trim_start(s@),
        decreases to - from,
    {
        assert(v@.subrange(from as int, to as int).drop_first() =~= v@.subrange(from + 1, to as int));
        from = from + 1;
    }
    assert(trim_start(s@) == v@.subrange(from as int, to as int));
    while from < to && char_is_space(v[to - 1])
        invariant
            from <= to <= v@.len(),
            v@ == s@,
            trim_end(v@.subrange(from as int, to as int)) == trimmed(s@),
        decreases to - from,
    {
        assert(v@.subrange(from as int, to as int).drop_last() =~= v@.subrange(from as int, to - 1));
        to = to - 1;
    }
    from_chars(&v, from, to)
}

/// The position of the first `c` in `s`, or its length if there is none.
pub open spec fn find(s: Seq<char>, c: char) -> int
    decreases s.len(),
{
    if s.len() == 0 || s.first() == c {
        0
    } else {
        1 + find(s.drop_first(), c)
    }
}

/// Where `find` points: at the first occurrence, or past the end.
pub proof fn lemma_find(s: Seq<char>, c: char)
    ensures
        0 <= find(s, c) <= s.len(),
        find(s, c) < s.len() ==> s[find(s, c)] == c,
        forall|i: int| 0 <= i < find(s, c) ==> s[i] != c,
    decreases s.len(),
{
    if s.len() > 0 && s.first() != c {
        lemma_find(s.drop_first(), c);
        assert forall|i: int| 0 <= i < find(s, c) implies s[i] != c by {
            if i > 0 {
                assert(s[i] == s.drop_first()[i - 1]);
            }
        }
    }
}

/// The pieces of `s` between the occurrences of `sep`, empty ones included.
pub open spec fn pieces(s: Seq<char>, sep: char) -> Seq<Seq<char>>
    decreases s.len(),
{
    let at = find(s, sep);
    if 0 <= at < s.len() {
        seq![s.take(at)] + pieces(s.skip(at + 1), sep)
    } else {
        seq![s]
    }
}

/// Joining two texts with the separator joins their pieces.
pub proof fn law_pieces_join(a: Seq<char>, b: Seq<char>, sep: char)
    ensures
        pieces(a + seq![sep] + b, sep) == pieces(a, sep) + pieces(b, sep),
    decreases a.len(),
{
    let whole = a + seq![sep] + b;
    let at = find(a, sep);
    lemma_find(a, sep);
    lemma_find(whole, sep);
    assert(whole[a.len() as int] == sep);
    assert forall|i: int| 0 <= i < a.len() implies whole[i] == a[i] by {}
    if at < a.len() {
        assert(whole[at] == sep);
        assert(find(whole, sep) == at);
        let rest = a.skip(at + 1);
        assert(whole.skip(at + 1) =~= rest + seq![sep] + b);
        assert(whole.take(at) =~= a.take(at));
        law_pieces_join(rest, b, sep);
        assert(pieces(whole, sep) =~= pieces(a, sep) + pieces(b, sep));
    } else {
        assert(find(whole, sep) == a.len());
        assert(whole.take(a.len() as int) =~= a);
        assert(whole.skip(a.len() as int + 1) =~= b);
    }
}

fn find_char(v: &Vec<char>, from: usize, c: char) -> (at: usize)
    requires
        from <= v@.len(),
    ensures
        at == from + find(v@.skip(from as int), c),
        from <= at <= v@.len(),
{
    let mut i: usize = from;
    while i < v.len() && v[i] != c
        invariant
            from <= i <= v@.len(),
            from + find(v@.skip(from as int), c) == i + find(v@.skip(i as int), c),
        decreases v.len() - i,
    {
        assert(v@.skip(i as int).drop_first() =~= v@.skip(i + 1));
        i = i + 1;
    }
    i
}

/// Splits a string at every occurrence of `sep`.
pub fn split(s: &str, sep: char) -> (r: Vec<String>)
    ensures
        r@.len() == pieces(s@, sep).len(),
        forall|i: int| 0 <= i < r@.len() ==> (#[trigger] r@[i])@ == pieces(s@, sep)[i],
{
    let v = to_chars(s);
    let mut r: Vec<String> = Vec::new();
    let mut from: usize = 0;
    let mut at: usize = find_char(&v, 0, sep);
    assert(v@.skip(0) =~= s@);
    while at < v.len()
        invariant
            from <= at <= v@.len(),
            v@ == s@,
            at == from + find(v@.skip(from as int), sep),
            pieces(s@, sep).len() == r@.len() + pieces(v@.skip(from as int), sep).len(),
            forall|i: int| 0 <= i < r@.len() ==> (#[trigger] r@[i])@ == pieces(s@, sep)[i],
            forall|i: int|
                0 <= i < pieces(v@.skip(from as int), sep).len() ==> pieces(s@, sep)[r@.len() + i]
                    == #[trigger] pieces(v@.skip(from as int), sep)[i],
        decreases v.len() - from,
    {
        let ghost rest = v@.skip(from as int);
        assert(rest.take(at - from) =~= v@.subrange(from as int, at as int));
        assert(rest.skip(at - from + 1) =~= v@.skip(at + 1));
        let ghost tail = pieces(v@.skip(at + 1), sep);
        assert(pieces(rest, sep) == seq![rest.take(at - from)] + tail);
        let ghost k = r@.len() as int;
        r.push(from_chars(&v, from, at));
        proof {
            assert(pieces(rest, sep)[0] == rest.take(at - from));
            assert(pieces(s@, sep)[k + 0] == rest.take(at - from));
            assert forall|i: int| 0 <= i < tail.len() implies pieces(s@, sep)[r@.len() + i]
                == #[trigger] tail[i] by {
                assert(pieces(rest, sep)[i + 1] == tail[i]);
            }
        }
        from = at + 1;
        at = find_char(&v, from, sep);
    }
    proof {
        let rest = v@.skip(from as int);
        assert(pieces(rest, sep)[0] == rest);
        assert(pieces(s@, sep)[r@.len() + 0int] == rest);
        assert(v@.subrange(from as int, v@.len() as int) =~= rest);
    }
    r.push(from_chars(&v, from, v.len()));
    r
}

/// Splits a string at the first occurrence of `sep`; `None` if there is none.
pub fn split_once(s: &str, sep: char) -> (r: Option<(String, String)>)
    ensures
        match r {
            Some((k, v)) => {
                let at = find(s@, sep);
                at < s@.len() && k@ == s@.take(at) && v@ == s@.skip(at + 1)
            },
            None => find(s@, sep) >= s@.len(),
        },
{
    let v = to_chars(s);
    assert(v@.skip(0) =~= s@);
    let at: usize = find_char(&v, 0, sep);
    if at < v.len() {
        let key = from_chars(&v, 0, at);
        let value = from_chars(&v, at + 1, v.len());
        assert(key@ =~= s@.take(at as int));
        assert(value@ =~= s@.skip(at + 1));
        Some((key, value))
    } else {
        None
    }
}

/// The character with `A`..`Z` replaced by `a`..`z`.
pub open spec fn ascii_lower(c: char) -> char {
    if 'A' <= c <= 'Z' {
        (c as int + 32) as char
    } else {
        c
    }
}

/// `s` with its ASCII letters in lower case.
pub open spec fn lowered(s: Seq<char>) -> Seq<char> {
    s.map_values(|c: char| ascii_lower(c))
}

/// Lower-cases the ASCII letters of a string.
pub fn to_lower(s: &str) -> (r: String)
    ensures
        r@ == lowered(s@),
{
    let v = to_chars(s);
    let mut r = String::new();
    let mut i: usize = 0;
    while i < v.len()
        invariant
            i <= v@.len(),
            v@ == s@,
            r@ == lowered(s@.take(i as int)),
        decreases v.len() - i,
    {
        let c: char = v[i];
        let n: u32 = c as u32;
        if 0x41 <= n && n <= 0x5a {
            r.push((n as u8 + 32) as char);
        } else {
            r.push(c);
        }
        i = i + 1;
        assert(r@ =~= lowered(s@.take(i as int)));
    }
    assert(s@.take(i as int) =~= s@);
    r
}

/// Whether `s` starts with `prefix`.
pub open spec fn has_prefix(s: Seq<char>, prefix: Seq<char>) -> bool {
    prefix.len() <= s.len() && s.take(prefix.len() as int) == prefix
}

/// Tests a string for a prefix.
pub fn starts_with(s: &str, prefix: &str) -> (r: bool)
    ensures
        r == has_prefix(s@, prefix@),
{
    let n: usize = prefix.unicode_len();
    if s.unicode_len() < n {
        false
    } else {
        same(s.substring_char(0, n), prefix)
    }
}

// ---------------------------------------------------------------------------
// Reading numbers
// ---------------------------------------------------------------------------

/// Whether `s` is a non-empty run of decimal digits.
pub open spec fn all_digits(s: Seq<char>) -> bool {
    s.len() > 0 && forall|i: int| 0 <= i < s.len() ==> '0' <= #[trigger] s[i] <= '9'
}

/// The value of a run of decimal digits.
pub open spec fn digits_value(s: Seq<char>) -> nat
    decreases s.len(),
{
    if s.len() == 0 {
        0
    } else {
        digits_value(s.drop_last()) * 10 + (s.last() as nat - 48) as nat
    }
}

/// A numeral without the one plus sign it may start with.
pub open spec fn unsigned_part(s: Seq<char>) -> Seq<char> {
    if s.len() > 0 && s.first() == '+' {
        s.drop_first()
    } else {
        s
    }
}

/// The number that a decimal numeral no greater than `max` stands for: an
/// optional plus sign and one or more digits, nothing else.
pub open spec fn parsed(s: Seq<char>, max: nat) -> Option<nat> {
    let body = unsigned_part(s);
    if all_digits(body) && digits_value(body) <= max {
        Some(digits_value(body))
    } else {
        None
    }
}

proof fn lemma_digits_value_grows(s: Seq<char>, i: int)
    requires
        0 <= i <= s.len(),
    ensures
        digits_value(s.take(i)) <= digits_value(s),
    decreases s.len() - i,
{
    if i < s.len() {
        lemma_digits_value_grows(s, i + 1);
        assert(s.take(i + 1).drop_last() =~= s.take(i));
    } else {
        assert(s.take(i) =~= s);
    }
}

fn digit_of(c: char) -> (r: Option<u64>)
    ensures
        match r {
            Some(d) => '0' <= c <= '9' && d == c as int - 48,
            None => !('0' <= c <= '9'),
        },
{
    let code: u32 = c as u32;
    if code < 48 || code > 57 {
        None
    } else {
        Some(code as u64 - 48)
    }
}

/// Reads a decimal numeral no greater than `max`.
pub fn parse_number(s: &str, max: u64) -> (r: Option<u64>)
    ensures
        match r {
            Some(n) => parsed(s@, max as nat) == Some(n as nat),
            None => parsed(s@, max as nat) is None,
        },
{
    let v = to_chars(s);
    let mut from: usize = 0;
    if v.len() > 0 && v[0] == '+' {
        from = 1;
    }
    let ghost body = unsigned_part(s@);
    assert(body =~= v@.skip(from as int));
    if from == v.len() {
        return None;
    }
    let mut n: u64 = 0;
    let mut i: usize = from;
    while i < v.len()
        invariant
            from <= i <= v@.len(),
            v@ == s@,
            body == v@.skip(from as int),
            n == digits_value(body.take(i - from)),
            n <= max,
            forall|k: int| 0 <= k < i - from ==> '0' <= #[trigger] body[k] <= '9',
            body == unsigned_part(s@),
        decreases v.len() - i,
    {
        let c: char = v[i];
        assert(body[i - from] == c);
        let d: u64 = match digit_of(c) {
            Some(d) => d,
            None => {
                return None;
            },
        };
        proof {
            assert(body.take(i - from + 1).drop_last() =~= body.take(i - from));
            assert(body.take(i - from + 1).last() == c);
            assert(digits_value(body.take(i - from + 1)) == n * 10 + d);
            lemma_digits_value_grows(body, i - from + 1);
        }
        if d > max || n > (max - d) / 10 {
            return None;
        }
        n = n * 10 + d;
        i = i + 1;
    }
    assert(body.take(i - from) =~= body);
    Some(n)
}

/// Whether a text holds a part, with anything before and after it.
pub open spec fn holds_part(text: Seq<char>, part: Seq<char>) -> bool {
    exists|before: Seq<char>, after: Seq<char>| text == #[trigger] ((before + part) + after)
}

/// What a text holds, it holds whatever is written after it.
pub broadcast proof fn lemma_part_stays(text: Seq<char>, more: Seq<char>, part: Seq<char>)
    requires
        holds_part(text, part),
    ensures
        #[trigger] holds_part(text + more, part),
{
    let (before, after) = choose|before: Seq<char>, after: Seq<char>|
        text == #[trigger] ((before + part) + after);
    assert(text + more =~= (before + part) + (after + more));
}

/// A text that ends in a label and a value holds the two together.
pub broadcast proof fn lemma_last_part(text: Seq<char>, label: Seq<char>, value: Seq<char>)
    ensures
        #[trigger] holds_part((text + label) + value, label + value),
{
    assert((text + label) + value =~= (text + (label + value)) + Seq::<char>::empty());
}

/// A text that ends in a part holds it.
pub broadcast proof fn lemma_tail_part(text: Seq<char>, part: Seq<char>)
    ensures
        #[trigger] holds_part(text + part, part),
{
    assert(text + part =~= (text + part) + Seq::<char>::empty());
}

/// A text that begins with a label and a value holds the two together.
pub broadcast proof fn lemma_first_part(label: Seq<char>, value: Seq<char>)
    ensures
        #[trigger] holds_part(label + value, label + value),
{
    assert(label + value =~= (Seq::<char>::empty() + (label + value)) + Seq::<char>::empty());
}

/// Trimming cuts white space off both ends and nothing else: what is left has
/// none there, and is a part of the text with white space around it.
pub proof fn law_trim_cuts_white_space_alone(s: &str, r: String)
    requires
        call_ensures(trim, (s,), r),
    ensures
        r@.len() > 0 ==> !is_space(r@[0]) && !is_space(r@.last()),
        exists|i: int, j: int|
            0 <= i <= j <= s@.len() && r@ == #[trigger] s@.subrange(i, j) && (forall|k: int|
                0 <= k < i || j <= k < s@.len() ==> is_space(#[trigger] s@[k])),
{
    let t = trim_start(s@);
    let i = lemma_trim_start(s@);
    let j = lemma_trim_end(t);
    assert(r@ =~= s@.subrange(i, i + j));
    assert forall|k: int| 0 <= k < i || i + j <= k < s@.len() implies is_space(
        #[trigger] s@[k],
    ) by {
        if k >= i {
            assert(t[k - i] == s@[k]);
        }
    }
}

proof fn lemma_trim_start(s: Seq<char>) -> (n: int)
    ensures
        0 <= n <= s.len(),
        trim_start(s) == s.skip(n),
        forall|k: int| 0 <= k < n ==> is_space(#[trigger] s[k]),
        n < s.len() ==> !is_space(s[n]),
    decreases s.len(),
{
    if s.len() > 0 && is_space(s.first()) {
        let rest = s.drop_first();
        let n = lemma_trim_start(rest);
        assert(s.skip(n + 1) =~= rest.skip(n));
        assert forall|k: int| 0 <= k < n + 1 implies is_space(#[trigger] s[k]) by {
            if k > 0 {
                assert(rest[k - 1] == s[k]);
            }
        }
        n + 1
    } else {
        assert(s.skip(0) =~= s);
        0
    }
}

proof fn lemma_trim_end(s: Seq<char>) -> (n: int)
    ensures
        0 <= n <= s.len(),
        trim_end(s) == s.take(n),
        forall|k: int| n <= k < s.len() ==> is_space(#[trigger] s[k]),
        n > 0 ==> !is_space(s[n - 1]),
    decreases s.len(),
{
    if s.len() > 0 && is_space(s.last()) {
        let rest = s.drop_last();
        let n = lemma_trim_end(rest);
        assert(s.take(n) =~= rest.take(n));
        assert forall|k: int| n <= k < s.len() implies is_space(#[trigger] s[k]) by {
            if k < rest.len() {
                assert(rest[k] == s[k]);
            }
        }
        n
    } else {
        assert(s.take(s.len() as int) =~= s);
        s.len() as int
    }
}

/// Lower-casing changes the letters from A to Z into those from a to z, each
/// in its place, and nothing else.
pub proof fn law_only_capitals_are_lowered(s: &str, r: String, i: int)
    requires
        call_ensures(to_lower, (s,), r),
        0 <= i < s@.len(),
    ensures
        r@.len() == s@.len(),
        'A' <= s@[i] <= 'Z' ==> 'a' <= r@[i] <= 'z' && r@[i] as int - 'a' as int == s@[i] as int
            - 'A' as int,
        !('A' <= s@[i] <= 'Z') ==> r@[i] == s@[i],
{
}

/// A text is cut at the first separator: what comes before it has none, and
/// the two parts with the separator between them are the text. A text without
/// one is not cut.
pub proof fn law_text_is_cut_at_the_first_separator(
    s: &str,
    sep: char,
    r: Option<(String, String)>,
)
    requires
        call_ensures(split_once, (s, sep), r),
    ensures
        r is None <==> !s@.contains(sep),
        r matches Some((k, v)) ==> !k@.contains(sep) && k@ + seq![sep] + v@ == s@,
{
    lemma_find(s@, sep);
    let at = find(s@, sep);
    if at < s@.len() {
        assert(s@.take(at) + seq![sep] + s@.skip(at + 1) =~= s@);
    }
}

/// A text without the separator is its only piece; no piece has one; and there
/// is one piece more than separators.
pub proof fn law_pieces_have_no_separator(s: Seq<char>, sep: char)
    ensures
        !s.contains(sep) ==> pieces(s, sep) == seq![s],
        pieces(s, sep).len() >= 1,
        forall|i: int| 0 <= i < pieces(s, sep).len() ==> !(#[trigger] pieces(s, sep)[i]).contains(sep),
    decreases s.len(),
{
    lemma_find(s, sep);
    let at = find(s, sep);
    if at < s.len() {
        let rest = s.skip(at + 1);
        law_pieces_have_no_separator(rest, sep);
        assert(s.contains(sep)) by {
            assert(s[at] == sep);
        }
        assert forall|i: int| 0 <= i < pieces(s, sep).len() implies !(
        #[trigger] pieces(s, sep)[i]).contains(sep) by {
            if i > 0 {
                assert(pieces(s, sep)[i] == pieces(rest, sep)[i - 1]);
            }
        }
    }
}

/// Alignment adds spaces up to the width and nothing else, behind the text or
/// before it; a text that is as wide is left as it is. Padding does the same
/// with zeros before it.
pub proof fn law_alignment_adds_spaces_alone(text: Seq<char>, width: nat)
    ensures
        ({
            let more = if text.len() < width {
                (width - text.len()) as nat
            } else {
                0
            };
            &&& left_aligned(text, width) == text + Seq::new(more, |i: int| ' ')
            &&& right_aligned(text, width) == Seq::new(more, |i: int| ' ') + text
            &&& zero_padded(text, width) == Seq::new(more, |i: int| '0') + text
        }),
{
}

/// A number reads back from its decimal numeral as far as it is allowed to be
/// large, and with a plus before it too.
pub proof fn law_numbers_read_back(n: u64, s: &str, max: u64, r: Option<u64>)
    requires
        call_ensures(parse_number, (s, max), r),
        s@ == dec(n as int) || s@ == seq!['+'] + dec(n as int),
    ensures
        r is Some <==> n <= max,
        r is Some ==> r->0 == n,
{
    lemma_dec_digits(n as nat);
    let d = dec(n as int);
    assert('0' <= d[0] <= '9');
    assert((seq!['+'] + d).drop_first() =~= d);
    assert(unsigned_part(d) == d);
    assert(unsigned_part(s@) == d);
}

/// Only a run of digits is a number, whatever it may be large; one sign may
/// stand before it.
pub proof fn law_only_digits_are_numbers(s: &str, max: u64, r: Option<u64>)
    requires
        call_ensures(parse_number, (s, max), r),
        r is Some,
    ensures
        s@.len() > 0,
        r->0 <= max,
        forall|i: int| 0 < i < s@.len() ==> '0' <= #[trigger] s@[i] <= '9',
        s@[0] == '+' || '0' <= s@[0] <= '9',
{
    let body = unsigned_part(s@);
    if s@.len() > 0 && s@[0] == '+' {
        assert forall|i: int| 0 < i < s@.len() implies '0' <= #[trigger] s@[i] <= '9' by {
            assert(body[i - 1] == s@[i]);
        }
    } else {
        assert(body == s@);
    }
}

} // verus!
