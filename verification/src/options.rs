//! The `-o KEY=VALUE,...` arguments of `measure`, `create` and `amend`.
//!
//! All `-o` arguments together are one list of pieces, in order: each argument
//! is split at its commas, each piece is trimmed, and blank pieces are left
//! out. Every piece then sets one option or is refused; the first refusal ends
//! the parse, and a later piece overrides an earlier one.
use vstd::prelude::*;
use crate::size::{memory_size, parse_memory_size};
use crate::text::{
    dec, find, lemma_find, lowered, outcome, parse_number, parsed, pieces, push_dec, same, split, split_once,
    to_lower, trim, trimmed,
};

verus! {

// ---------------------------------------------------------------------------
// Pieces
// ---------------------------------------------------------------------------

/// The pieces of one argument that are not blank, trimmed; the first `n` only.
pub open spec fn argument_pieces(ps: Seq<Seq<char>>, n: int) -> Seq<Seq<char>>
    decreases n,
{
    if n <= 0 {
        Seq::empty()
    } else {
        let before = argument_pieces(ps, n - 1);
        let piece = trimmed(ps[n - 1]);
        if piece.len() == 0 {
            before
        } else {
            before.push(piece)
        }
    }
}

/// The pieces of the first `n` arguments.
pub open spec fn all_pieces(raw: Seq<String>, n: int) -> Seq<Seq<char>>
    decreases n,
{
    if n <= 0 {
        Seq::empty()
    } else {
        let ps = pieces(raw[n - 1]@, ',');
        all_pieces(raw, n - 1) + argument_pieces(ps, ps.len() as int)
    }
}

/// The texts of a list of strings.
pub open spec fn texts(v: Seq<String>) -> Seq<Seq<char>> {
    v.map_values(|s: String| s@)
}

/// Splits all arguments into their pieces.
pub(crate) fn option_pieces(raw: &[String]) -> (r: Vec<String>)
    ensures
        texts(r@) == all_pieces(raw@, raw@.len() as int),
{
    let mut r: Vec<String> = Vec::new();
    let mut i: usize = 0;
    assert(texts(r@) =~= Seq::<Seq<char>>::empty());
    while i < raw.len()
        invariant
            i <= raw@.len(),
            texts(r@) == all_pieces(raw@, i as int),
        decreases raw.len() - i,
    {
        let parts = split(raw[i].as_str(), ',');
        let ghost ps = pieces(raw@[i as int]@, ',');
        let ghost before = texts(r@);
        let mut j: usize = 0;
        assert(before + argument_pieces(ps, 0) =~= before);
        while j < parts.len()
            invariant
                j <= parts@.len(),
                parts@.len() == ps.len(),
                forall|k: int| 0 <= k < parts@.len() ==> (#[trigger] parts@[k])@ == ps[k],
                texts(r@) == before + argument_pieces(ps, j as int),
            decreases parts.len() - j,
        {
            let piece = trim(parts[j].as_str());
            assert(piece@ == trimmed(ps[j as int]));
            if !piece.as_str().is_empty() {
                let ghost now = texts(r@);
                r.push(piece);
                assert(texts(r@) =~= now.push(piece@));
                assert(texts(r@) =~= before + argument_pieces(ps, j + 1));
            }
            j = j + 1;
        }
        i = i + 1;
    }
    r
}

// ---------------------------------------------------------------------------
// Values
// ---------------------------------------------------------------------------

/// The complaint about a value, with a hint that may be empty.
pub open spec fn bad_value(op: Seq<char>, value: Seq<char>, key: Seq<char>, hint: Seq<char>) -> Seq<
    char,
> {
    op + ": bad value '"@ + value + "' for -o key '"@ + key + "'"@ + hint
}

pub(crate) fn bad_value_message(op: &str, value: &str, key: &str, hint: &str) -> (r: String)
    ensures
        r@ == bad_value(op@, value@, key@, hint@),
{
    let mut s = op.to_owned();
    s.append(": bad value '");
    s.append(value);
    s.append("' for -o key '");
    s.append(key);
    s.append("'");
    s.append(hint);
    s
}

/// What a switch value stands for, whatever its letter case.
pub open spec fn switch(value: Seq<char>) -> Option<bool> {
    let v = lowered(value);
    if v == "on"@ || v == "true"@ || v == "yes"@ {
        Some(true)
    } else if v == "off"@ || v == "false"@ || v == "no"@ {
        Some(false)
    } else {
        None
    }
}

fn read_switch(value: &str) -> (r: Option<bool>)
    ensures
        r == switch(value@),
{
    let v = to_lower(value);
    if same(v.as_str(), "on") || same(v.as_str(), "true") || same(v.as_str(), "yes") {
        Some(true)
    } else if same(v.as_str(), "off") || same(v.as_str(), "false") || same(v.as_str(), "no") {
        Some(false)
    } else {
        None
    }
}

/// The switch that a value sets, or a complaint.
pub open spec fn bool_option(op: Seq<char>, key: Seq<char>, value: Seq<char>) -> Result<
    bool,
    Seq<char>,
> {
    match switch(value) {
        Some(b) => Ok(b),
        None => Err(bad_value(op, value, key, " (expected on/off)"@)),
    }
}

/// The size that a value gives, or a complaint.
pub open spec fn u64_option(op: Seq<char>, key: Seq<char>, value: Seq<char>) -> Result<
    u64,
    Seq<char>,
> {
    match memory_size(value) {
        Ok(n) => Ok(n),
        Err(e) => Err(
            op + ": bad size '"@ + value + "' for -o key '"@ + key + "' ("@ + e + ")"@,
        ),
    }
}

/// The size of at most 32 bits that a value gives, or a complaint.
pub open spec fn u32_option(op: Seq<char>, key: Seq<char>, value: Seq<char>) -> Result<
    u32,
    Seq<char>,
> {
    match u64_option(op, key, value) {
        Ok(n) => if n <= u32::MAX {
            Ok(n as u32)
        } else {
            Err(
                op + ": size "@ + dec(n as int) + " for -o key '"@ + key
                    + "' exceeds u32::MAX"@,
            )
        },
        Err(e) => Err(e),
    }
}

/// The number of at most 8 bits that a value gives, or a complaint.
pub open spec fn u8_option(op: Seq<char>, key: Seq<char>, value: Seq<char>) -> Result<
    u8,
    Seq<char>,
> {
    match parsed(value, 255) {
        Some(n) => Ok(n as u8),
        None => Err(op + ": bad number '"@ + value + "' for -o key '"@ + key + "'"@),
    }
}

pub(crate) fn read_bool(op: &str, key: &str, value: &str) -> (r: Result<bool, String>)
    ensures
        outcome(r) == bool_option(op@, key@, value@),
{
    match read_switch(value) {
        Some(b) => Ok(b),
        None => Err(bad_value_message(op, value, key, " (expected on/off)")),
    }
}

pub(crate) fn read_u64(op: &str, key: &str, value: &str) -> (r: Result<u64, String>)
    ensures
        outcome(r) == u64_option(op@, key@, value@),
{
    match parse_memory_size(value) {
        Ok(n) => Ok(n),
        Err(e) => {
            let mut s = op.to_owned();
            s.append(": bad size '");
            s.append(value);
            s.append("' for -o key '");
            s.append(key);
            s.append("' (");
            s.append(e.as_str());
            s.append(")");
            Err(s)
        },
    }
}

pub(crate) fn read_u32(op: &str, key: &str, value: &str) -> (r: Result<u32, String>)
    ensures
        outcome(r) == u32_option(op@, key@, value@),
{
    match read_u64(op, key, value) {
        Ok(n) => if n <= u32::MAX as u64 {
            Ok(n as u32)
        } else {
            let mut s = op.to_owned();
            s.append(": size ");
            push_dec(&mut s, n);
            s.append(" for -o key '");
            s.append(key);
            s.append("' exceeds u32::MAX");
            Err(s)
        },
        Err(e) => Err(e),
    }
}

pub(crate) fn read_u8(op: &str, key: &str, value: &str) -> (r: Result<u8, String>)
    ensures
        outcome(r) == u8_option(op@, key@, value@),
{
    match parse_number(value, 255) {
        Some(n) => Ok(n as u8),
        None => {
            let mut s = op.to_owned();
            s.append(": bad number '");
            s.append(value);
            s.append("' for -o key '");
            s.append(key);
            s.append("'");
            Err(s)
        },
    }
}

/// Reads a switch of `measure`.
pub fn parse_o_bool(key: &str, value: &str) -> (r: Result<bool, String>)
    ensures
        outcome(r) == bool_option("measure"@, key@, value@),
{
    read_bool("measure", key, value)
}

/// Reads a size of `measure` that must fit in 32 bits.
pub fn parse_o_size_u32(key: &str, value: &str) -> (r: Result<u32, String>)
    ensures
        outcome(r) == u32_option("measure"@, key@, value@),
{
    read_u32("measure", key, value)
}

/// Reads a small number of `measure`.
pub fn parse_o_u8(key: &str, value: &str) -> (r: Result<u8, String>)
    ensures
        outcome(r) == u8_option("measure"@, key@, value@),
{
    read_u8("measure", key, value)
}

/// Reads a switch of `create`.
pub fn parse_create_o_bool(key: &str, value: &str) -> (r: Result<bool, String>)
    ensures
        outcome(r) == bool_option("create"@, key@, value@),
{
    read_bool("create", key, value)
}

/// Reads a size of `create` that must fit in 32 bits.
pub fn parse_create_o_size_u32(key: &str, value: &str) -> (r: Result<u32, String>)
    ensures
        outcome(r) == u32_option("create"@, key@, value@),
{
    read_u32("create", key, value)
}

/// Reads a virtual disk size of `create`.
pub fn parse_create_o_size_u64(key: &str, value: &str) -> (r: Result<u64, String>)
    ensures
        outcome(r) == u64_option("create"@, key@, value@),
{
    read_u64("create", key, value)
}

/// Reads a small number of `create`.
pub fn parse_create_o_u8(key: &str, value: &str) -> (r: Result<u8, String>)
    ensures
        outcome(r) == u8_option("create"@, key@, value@),
{
    read_u8("create", key, value)
}

/// A piece as a key, trimmed, and a value; `None` without an equals sign.
pub open spec fn key_value(piece: Seq<char>) -> Option<(Seq<char>, Seq<char>)> {
    let at = find(piece, '=');
    if at < piece.len() {
        Some((trimmed(piece.take(at)), piece.skip(at + 1)))
    } else {
        None
    }
}

/// The complaint about a piece without an equals sign.
pub open spec fn missing_value(op: Seq<char>, piece: Seq<char>) -> Seq<char> {
    op + ": -o option '"@ + piece + "' is missing a value (expected KEY=VALUE)"@
}

/// Splits a piece into key and value.
pub(crate) fn split_piece(op: &str, piece: &str) -> (r: Result<(String, String), String>)
    ensures
        match r {
            Ok((k, v)) => key_value(piece@) == Some((k@, v@)),
            Err(e) => key_value(piece@) is None && e@ == missing_value(op@, piece@),
        },
{
    match split_once(piece, '=') {
        Some((k, v)) => Ok((trim(k.as_str()), v)),
        None => {
            let mut s = op.to_owned();
            s.append(": -o option '");
            s.append(piece);
            s.append("' is missing a value (expected KEY=VALUE)");
            Err(s)
        },
    }
}

/// The preallocation modes.
pub open spec fn is_preallocation(value: Seq<char>) -> bool {
    value == "off"@ || value == "metadata"@ || value == "falloc"@ || value == "full"@
}

/// The name of a preallocation mode, if the value is one.
pub(crate) fn read_preallocation(value: &str) -> (r: Option<&'static str>)
    ensures
        match r {
            Some(m) => is_preallocation(value@) && m@ == value@,
            None => !is_preallocation(value@),
        },
{
    if same(value, "off") {
        Some("off")
    } else if same(value, "metadata") {
        Some("metadata")
    } else if same(value, "falloc") {
        Some("falloc")
    } else if same(value, "full") {
        Some("full")
    } else {
        None
    }
}

/// The number of a VMDK subformat.
pub open spec fn vmdk_subformat_code(value: Seq<char>) -> Option<u8> {
    if value == "monolithicSparse"@ {
        Some(0)
    } else if value == "streamOptimized"@ {
        Some(1)
    } else if value == "monolithicFlat"@ {
        Some(2)
    } else {
        None
    }
}

pub(crate) fn read_vmdk_subformat(value: &str) -> (r: Option<u8>)
    ensures
        r == vmdk_subformat_code(value@),
{
    if same(value, "monolithicSparse") {
        Some(0)
    } else if same(value, "streamOptimized") {
        Some(1)
    } else if same(value, "monolithicFlat") {
        Some(2)
    } else {
        None
    }
}

/// The number of a VHD subformat.
pub open spec fn vhd_subformat_code(value: Seq<char>) -> Option<u8> {
    if value == "dynamic"@ {
        Some(0)
    } else if value == "fixed"@ {
        Some(1)
    } else {
        None
    }
}

pub(crate) fn read_vhd_subformat(value: &str) -> (r: Option<u8>)
    ensures
        r == vhd_subformat_code(value@),
{
    if same(value, "dynamic") {
        Some(0)
    } else if same(value, "fixed") {
        Some(1)
    } else {
        None
    }
}

/// Whether a qcow2 compatibility level is version 3.
pub open spec fn compat_level(value: Seq<char>) -> Option<bool> {
    if value == "0.10"@ {
        Some(false)
    } else if value == "1.1"@ {
        Some(true)
    } else {
        None
    }
}

pub(crate) fn read_compat(value: &str) -> (r: Option<bool>)
    ensures
        r == compat_level(value@),
{
    if same(value, "0.10") {
        Some(false)
    } else if same(value, "1.1") {
        Some(true)
    } else {
        None
    }
}

// ---------------------------------------------------------------------------
// Amend
// ---------------------------------------------------------------------------

/// What the options of `amend` ask for; `None` leaves an aspect as it is.
#[derive(Debug, Clone, Copy, PartialEq, Eq, Structural)]
pub struct AmendOOptions {
    /// `compat=1.1` or `compat=0.10`.
    pub compat_v3: Option<bool>,
    /// `lazy_refcounts=on` or `lazy_refcounts=off`.
    pub lazy_on: Option<bool>,
}

/// What one piece makes of the options so far.
pub open spec fn amend_step(o: AmendOOptions, piece: Seq<char>) -> Result<
    AmendOOptions,
    Seq<char>,
> {
    match key_value(piece) {
        None => Err(missing_value("amend"@, piece)),
        Some((key, untrimmed)) => {
            let value = trimmed(untrimmed);
            if key == "compat"@ {
                match compat_level(value) {
                    Some(v3) => Ok(AmendOOptions { compat_v3: Some(v3), ..o }),
                    None => Err(
                        bad_value("amend"@, value, "compat"@, " (expected 0.10 or 1.1)"@),
                    ),
                }
            } else if key == "lazy_refcounts"@ {
                match bool_option("amend"@, "lazy_refcounts"@, value) {
                    Ok(on) => Ok(AmendOOptions { lazy_on: Some(on), ..o }),
                    Err(e) => Err(e),
                }
            } else {
                Err(
                    "amend: -o key '"@ + key
                        + "' is not supported (amend changes compat and lazy_refcounts only)"@,
                )
            }
        },
    }
}

/// What a list of pieces asks for, or the first complaint.
pub open spec fn amend_fold(ps: Seq<Seq<char>>) -> Result<AmendOOptions, Seq<char>>
    decreases ps.len(),
{
    if ps.len() == 0 {
        Ok(AmendOOptions { compat_v3: None, lazy_on: None })
    } else {
        match amend_fold(ps.drop_last()) {
            Ok(o) => amend_step(o, ps.last()),
            Err(e) => Err(e),
        }
    }
}

/// What the `-o` arguments of `amend` ask for. At least one option must be
/// given.
pub open spec fn amend_options(raw: Seq<String>) -> Result<AmendOOptions, Seq<char>> {
    match amend_fold(all_pieces(raw, raw.len() as int)) {
        Ok(o) => if o.compat_v3 is None && o.lazy_on is None {
            Err(
                "amend: no supported -o options given (expected compat= and/or lazy_refcounts=)"@,
            )
        } else {
            Ok(o)
        },
        Err(e) => Err(e),
    }
}

fn apply_amend_piece(o: AmendOOptions, piece: &str) -> (r: Result<AmendOOptions, String>)
    ensures
        outcome(r) == amend_step(o, piece@),
{
    let (key, untrimmed): (String, String) = match split_piece("amend", piece) {
        Ok(kv) => kv,
        Err(e) => {
            return Err(e);
        },
    };
    let value = trim(untrimmed.as_str());
    if same(key.as_str(), "compat") {
        match read_compat(value.as_str()) {
            Some(v3) => Ok(AmendOOptions { compat_v3: Some(v3), lazy_on: o.lazy_on }),
            None => Err(
                bad_value_message("amend", value.as_str(), "compat", " (expected 0.10 or 1.1)"),
            ),
        }
    } else if same(key.as_str(), "lazy_refcounts") {
        match read_bool("amend", "lazy_refcounts", value.as_str()) {
            Ok(on) => Ok(AmendOOptions { compat_v3: o.compat_v3, lazy_on: Some(on) }),
            Err(e) => Err(e),
        }
    } else {
        let mut s = "amend: -o key '".to_owned();
        s.append(key.as_str());
        s.append("' is not supported (amend changes compat and lazy_refcounts only)");
        Err(s)
    }
}

/// The fold over a longer list, one piece at a time.
proof fn lemma_amend_fold_error(ps: Seq<Seq<char>>, i: int)
    requires
        0 <= i <= ps.len(),
        amend_fold(ps.take(i)) is Err,
    ensures
        amend_fold(ps) == amend_fold(ps.take(i)),
    decreases ps.len() - i,
{
    if i < ps.len() {
        assert(ps.take(i + 1).drop_last() =~= ps.take(i));
        lemma_amend_fold_error(ps, i + 1);
    } else {
        assert(ps.take(i) =~= ps);
    }
}

/// Reads the `-o` arguments of `amend`.
pub fn parse_amend_o_options(raw: &[String]) -> (r: Result<AmendOOptions, String>)
    ensures
        outcome(r) == amend_options(raw@),
{
    let parts = option_pieces(raw);
    let ghost ps = texts(parts@);
    let mut o = AmendOOptions { compat_v3: None, lazy_on: None };
    let mut i: usize = 0;
    assert(ps.take(0) =~= Seq::<Seq<char>>::empty());
    while i < parts.len()
        invariant
            i <= parts@.len(),
            ps == texts(parts@),
            ps == all_pieces(raw@, raw@.len() as int),
            amend_fold(ps.take(i as int)) == Ok::<AmendOOptions, Seq<char>>(o),
        decreases parts.len() - i,
    {
        assert(ps.take(i + 1).drop_last() =~= ps.take(i as int));
        assert(ps.take(i + 1).last() == parts@[i as int]@);
        match apply_amend_piece(o, parts[i].as_str()) {
            Ok(next) => {
                o = next;
            },
            Err(e) => {
                proof {
                    lemma_amend_fold_error(ps, i + 1);
                }
                return Err(e);
            },
        }
        i = i + 1;
    }
    assert(ps.take(i as int) =~= ps);
    if o.compat_v3.is_none() && o.lazy_on.is_none() {
        return Err(
            "amend: no supported -o options given (expected compat= and/or lazy_refcounts=)".to_owned(),
        );
    }
    Ok(o)
}

// ---------------------------------------------------------------------------
// Laws
// ---------------------------------------------------------------------------

proof fn lemma_argument_pieces_join(a: Seq<Seq<char>>, b: Seq<Seq<char>>, n: int)
    requires
        0 <= n <= b.len(),
    ensures
        argument_pieces(a + b, a.len() + n) == argument_pieces(a, a.len() as int)
            + argument_pieces(b, n),
    decreases n,
{
    if n == 0 {
        lemma_argument_pieces_prefix(a, b, a.len() as int);
        assert(argument_pieces(a, a.len() as int) + argument_pieces(b, 0) =~= argument_pieces(
            a,
            a.len() as int,
        ));
    } else {
        lemma_argument_pieces_join(a, b, n - 1);
        assert((a + b)[a.len() + n - 1] == b[n - 1]);
        assert(argument_pieces(a + b, a.len() + n) =~= argument_pieces(a, a.len() as int)
            + argument_pieces(b, n));
    }
}

proof fn lemma_argument_pieces_prefix(a: Seq<Seq<char>>, b: Seq<Seq<char>>, n: int)
    requires
        0 <= n <= a.len(),
    ensures
        argument_pieces(a + b, n) == argument_pieces(a, n),
    decreases n,
{
    if n > 0 {
        lemma_argument_pieces_prefix(a, b, n - 1);
        assert((a + b)[n - 1] == a[n - 1]);
    }
}

proof fn lemma_all_pieces_prefix(a: Seq<String>, b: Seq<String>, n: int)
    requires
        0 <= n <= a.len(),
    ensures
        all_pieces(a + b, n) == all_pieces(a, n),
    decreases n,
{
    if n > 0 {
        lemma_all_pieces_prefix(a, b, n - 1);
        assert((a + b)[n - 1] == a[n - 1]);
    }
}

proof fn lemma_all_pieces_join(a: Seq<String>, b: Seq<String>, n: int)
    requires
        0 <= n <= b.len(),
    ensures
        all_pieces(a + b, a.len() + n) == all_pieces(a, a.len() as int) + all_pieces(b, n),
    decreases n,
{
    if n == 0 {
        lemma_all_pieces_prefix(a, b, a.len() as int);
        assert(all_pieces(a, a.len() as int) + all_pieces(b, 0) =~= all_pieces(
            a,
            a.len() as int,
        ));
    } else {
        lemma_all_pieces_join(a, b, n - 1);
        assert((a + b)[a.len() + n - 1] == b[n - 1]);
        assert(all_pieces(a + b, a.len() + n) =~= all_pieces(a, a.len() as int) + all_pieces(b, n));
    }
}

/// Giving `-o` twice is giving it once with a comma: whatever comes before and
/// after, the pieces are the same.
pub proof fn law_commas_join_arguments(
    before: Seq<String>,
    first: String,
    second: String,
    whole: String,
    after: Seq<String>,
)
    requires
        whole@ == first@ + seq![','] + second@,
    ensures
        ({
            let twice = before + seq![first, second] + after;
            let once = before + seq![whole] + after;
            all_pieces(twice, twice.len() as int) == all_pieces(once, once.len() as int)
        }),
{
    let two = seq![first, second];
    let one = seq![whole];
    let p1 = crate::text::pieces(first@, ',');
    let p2 = crate::text::pieces(second@, ',');
    crate::text::law_pieces_join(first@, second@, ',');
    lemma_argument_pieces_join(p1, p2, p2.len() as int);
    assert(all_pieces(two, 2) == all_pieces(one, 1)) by {
        reveal_with_fuel(all_pieces, 3);
        assert(all_pieces(one, 1) =~= argument_pieces(p1 + p2, (p1 + p2).len() as int));
        assert(all_pieces(two, 2) =~= argument_pieces(p1, p1.len() as int) + argument_pieces(
            p2,
            p2.len() as int,
        ));
    }
    lemma_all_pieces_join(before, two, 2);
    lemma_all_pieces_join(before, one, 1);
    lemma_all_pieces_join(before + two, after, after.len() as int);
    lemma_all_pieces_join(before + one, after, after.len() as int);
}

/// Of two pieces with the same key, the later one wins.
pub proof fn law_last_amendment_wins(o: AmendOOptions, first: Seq<char>, second: Seq<char>)
    requires
        amend_step(o, first) is Ok,
        key_value(first) matches Some((k, v)) && key_value(second) matches Some((l, w)) && k == l,
    ensures
        amend_step(amend_step(o, first)->Ok_0, second) == amend_step(o, second),
{
}

/// The names of preallocation modes are all different.
pub proof fn lemma_modes_differ()
    ensures
        "off"@ != "metadata"@,
        "off"@ != "falloc"@,
        "off"@ != "full"@,
        "metadata"@ != "falloc"@,
        "metadata"@ != "full"@,
        "falloc"@ != "full"@,
{
    reveal_strlit("off");
    reveal_strlit("metadata");
    reveal_strlit("falloc");
    reveal_strlit("full");
    assert("off"@.len() == 3 && "metadata"@.len() == 8 && "falloc"@.len() == 6 && "full"@.len()
        == 4);
}

/// The names of subformats are all different, and so are those of
/// compatibility levels.
pub proof fn lemma_subformats_differ()
    ensures
        "monolithicSparse"@ != "streamOptimized"@,
        "monolithicSparse"@ != "monolithicFlat"@,
        "streamOptimized"@ != "monolithicFlat"@,
        "dynamic"@ != "fixed"@,
        "dynamic"@ != "streamOptimized"@,
        "fixed"@ != "streamOptimized"@,
        "fixed"@ != "monolithicSparse"@,
        "fixed"@ != "monolithicFlat"@,
        "0.10"@ != "1.1"@,
{
    reveal_strlit("monolithicSparse");
    reveal_strlit("streamOptimized");
    reveal_strlit("monolithicFlat");
    reveal_strlit("dynamic");
    reveal_strlit("fixed");
    reveal_strlit("0.10");
    reveal_strlit("1.1");
    assert("monolithicSparse"@.len() == 16 && "streamOptimized"@.len() == 15
        && "monolithicFlat"@.len() == 14);
    assert("dynamic"@.len() == 7 && "fixed"@.len() == 5);
    assert("0.10"@.len() == 4 && "1.1"@.len() == 3);
}

/// The keys of options are all different: those of one length differ in a
/// character, and the lengths tell the others apart.
pub proof fn lemma_keys_differ()
    ensures
        "size"@.len() == 4,
        "compat"@.len() == 6,
        "subformat"@.len() == 9,
        "grain_size"@.len() == 10,
        "block_size"@.len() == 10,
        "backing_fmt"@.len() == 11,
        "extended_l2"@.len() == 11,
        "cluster_size"@.len() == 12,
        "backing_file"@.len() == 12,
        "refcount_bits"@.len() == 13,
        "preallocation"@.len() == 13,
        "lazy_refcounts"@.len() == 14,
        "compression_type"@.len() == 16,
        "grain_size"@ != "block_size"@,
        "backing_fmt"@ != "extended_l2"@,
        "cluster_size"@ != "backing_file"@,
        "refcount_bits"@ != "preallocation"@,
{
    reveal_strlit("size");
    reveal_strlit("compat");
    reveal_strlit("subformat");
    reveal_strlit("grain_size");
    reveal_strlit("block_size");
    reveal_strlit("backing_fmt");
    reveal_strlit("extended_l2");
    reveal_strlit("cluster_size");
    reveal_strlit("backing_file");
    reveal_strlit("refcount_bits");
    reveal_strlit("preallocation");
    reveal_strlit("lazy_refcounts");
    reveal_strlit("compression_type");
    assert("grain_size"@[0] != "block_size"@[0]);
    assert("backing_fmt"@[0] != "extended_l2"@[0]);
    assert("cluster_size"@[0] != "backing_file"@[0]);
    assert("refcount_bits"@[0] != "preallocation"@[0]);
}

/// A switch is on by three words and off by three, whatever the letter case,
/// for `measure` and `create` alike; any other word is refused.
pub proof fn law_switch_has_three_words_each(
    key: &str,
    value: &str,
    r: Result<bool, String>,
    s: Result<bool, String>,
)
    requires
        call_ensures(parse_o_bool, (key, value), r),
        call_ensures(parse_create_o_bool, (key, value), s),
    ensures
        ({
            let v = lowered(value@);
            let on = v == "on"@ || v == "true"@ || v == "yes"@;
            let off = v == "off"@ || v == "false"@ || v == "no"@;
            &&& r is Ok <==> on || off
            &&& r is Ok ==> r->Ok_0 == on && r->Ok_0 != off
            &&& s is Ok <==> r is Ok
            &&& s is Ok ==> s->Ok_0 == r->Ok_0
        }),
{
    reveal_strlit("on");
    reveal_strlit("true");
    reveal_strlit("yes");
    reveal_strlit("off");
    reveal_strlit("false");
    reveal_strlit("no");
    assert("on"@.len() == 2 && "no"@.len() == 2 && "on"@[0] != "no"@[0]);
    assert("yes"@.len() == 3 && "off"@.len() == 3 && "yes"@[0] != "off"@[0]);
    assert("true"@.len() == 4 && "false"@.len() == 5);
}

/// A size of 32 bits is any size that fits, and one of 64 bits any size; a
/// small number is a plain number up to 255. `measure` and `create` read the
/// same.
pub proof fn law_sizes_are_read_as_far_as_they_fit(
    key: &str,
    value: &str,
    a: Result<u32, String>,
    b: Result<u32, String>,
    c: Result<u64, String>,
    d: Result<u8, String>,
    e: Result<u8, String>,
)
    requires
        call_ensures(parse_o_size_u32, (key, value), a),
        call_ensures(parse_create_o_size_u32, (key, value), b),
        call_ensures(parse_create_o_size_u64, (key, value), c),
        call_ensures(parse_o_u8, (key, value), d),
        call_ensures(parse_create_o_u8, (key, value), e),
    ensures
        a is Ok <==> memory_size(value@) is Ok && memory_size(value@)->Ok_0 <= 0xffff_ffff,
        a is Ok ==> a->Ok_0 == memory_size(value@)->Ok_0,
        b is Ok <==> a is Ok,
        b is Ok ==> b->Ok_0 == a->Ok_0,
        c is Ok <==> memory_size(value@) is Ok,
        c is Ok ==> c->Ok_0 == memory_size(value@)->Ok_0,
        d is Ok <==> parsed(value@, 255) is Some,
        d is Ok ==> parsed(value@, 255) == Some(d->Ok_0 as nat),
        e is Ok <==> d is Ok,
        e is Ok ==> e->Ok_0 == d->Ok_0,
{
}

/// Subformats and compatibility levels have the numbers that guests know.
pub proof fn law_subformats_have_their_numbers(value: Seq<char>)
    ensures
        value == "monolithicSparse"@ <==> vmdk_subformat_code(value) == Some(0u8),
        value == "streamOptimized"@ <==> vmdk_subformat_code(value) == Some(1u8),
        value == "monolithicFlat"@ <==> vmdk_subformat_code(value) == Some(2u8),
        value == "dynamic"@ <==> vhd_subformat_code(value) == Some(0u8),
        value == "fixed"@ <==> vhd_subformat_code(value) == Some(1u8),
        value == "0.10"@ <==> compat_level(value) == Some(false),
        value == "1.1"@ <==> compat_level(value) == Some(true),
{
    lemma_subformats_differ();
}

/// A piece is cut at its first equals sign: the key before it is trimmed, and
/// the value behind it is kept as it is.
pub proof fn law_piece_is_cut_at_its_equals_sign(key: Seq<char>, value: Seq<char>)
    requires
        !key.contains('='),
    ensures
        key_value(key + seq!['='] + value) == Some((trimmed(key), value)),
        key_value(key) is None,
{
    let piece = key + seq!['='] + value;
    lemma_find(piece, '=');
    lemma_find(key, '=');
    let at = find(piece, '=');
    let n = key.len() as int;
    assert(piece[n] == '=');
    if at < n {
        assert(piece[at] == key[at]);
        assert(key.contains('='));
    }
    assert(at == n);
    assert(piece.take(n) =~= key);
    assert(piece.skip(n + 1) =~= value);
    if find(key, '=') < key.len() {
        assert(key.contains('='));
    }
}

/// An amendment is what its key names: `compat` asks for a version and
/// `lazy_refcounts` for a switch, each leaving the other as it is, and any
/// other key is refused.
pub proof fn law_amendment_is_what_its_key_names(o: AmendOOptions, piece: Seq<char>)
    requires
        key_value(piece) is Some,
    ensures
        ({
            let (key, untrimmed) = key_value(piece)->0;
            let value = trimmed(untrimmed);
            let r = amend_step(o, piece);
            &&& r is Ok ==> key == "compat"@ || key == "lazy_refcounts"@
            &&& key == "compat"@ ==> (r is Ok <==> value == "1.1"@ || value == "0.10"@)
            &&& key == "compat"@ && r is Ok ==> r->Ok_0.lazy_on == o.lazy_on
                && r->Ok_0.compat_v3 == Some(value == "1.1"@)
            &&& key == "lazy_refcounts"@ ==> (r is Ok <==> switch(value) is Some)
            &&& key == "lazy_refcounts"@ && r is Ok ==> r->Ok_0.compat_v3 == o.compat_v3
                && r->Ok_0.lazy_on == switch(value)
        }),
{
    lemma_keys_differ();
    lemma_subformats_differ();
}

/// What is read of an amendment asks for something, and begins from nothing:
/// an option that no piece names is not asked for.
pub proof fn law_amendment_asks_for_something(
    raw: &[String],
    r: Result<AmendOOptions, String>,
)
    requires
        call_ensures(parse_amend_o_options, (raw,), r),
    ensures
        r matches Ok(o) ==> o.compat_v3 is Some || o.lazy_on is Some,
        all_pieces(raw@, raw@.len() as int).len() == 0 ==> r is Err,
        all_pieces(raw@, raw@.len() as int).len() == 1 ==> (r is Ok <==> amend_step(
            AmendOOptions { compat_v3: None, lazy_on: None },
            all_pieces(raw@, raw@.len() as int)[0],
        ) is Ok),
        all_pieces(raw@, raw@.len() as int).len() == 1 && r is Ok ==> r->Ok_0 == amend_step(
            AmendOOptions { compat_v3: None, lazy_on: None },
            all_pieces(raw@, raw@.len() as int)[0],
        )->Ok_0,
{
    reveal_with_fuel(amend_fold, 2);
    let ps = all_pieces(raw@, raw@.len() as int);
    if ps.len() == 1 {
        assert(ps.last() == ps[0]);
        assert(ps.drop_last().len() == 0);
    }
}

/// The pieces of an argument are what stands between its commas, without white
/// space around them; blank ones do not count.
pub proof fn law_pieces_are_trimmed_and_not_blank(ps: Seq<Seq<char>>, n: int, i: int)
    requires
        0 <= n <= ps.len(),
        0 <= i < argument_pieces(ps, n).len(),
    ensures
        argument_pieces(ps, n)[i].len() > 0,
        exists|k: int| 0 <= k < n && argument_pieces(ps, n)[i] == trimmed(#[trigger] ps[k]),
    decreases n,
{
    if n > 0 {
        let before = argument_pieces(ps, n - 1);
        if i < before.len() {
            law_pieces_are_trimmed_and_not_blank(ps, n - 1, i);
        } else {
            assert(argument_pieces(ps, n)[i] == trimmed(ps[n - 1]));
        }
    }
}

} // verus!
