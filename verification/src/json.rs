//! JSON string escaping, in the three manners the tool's reports use.
use vstd::prelude::*;
use crate::text::{digit, numeral, push_zero_padded, to_chars, zero_padded};

verus! {

/// Which characters a report escapes, and how.
#[derive(Debug, Clone, Copy, PartialEq, Eq, Structural)]
pub enum EscapeStyle {
    /// Short forms for newline, return and tab; every control character.
    Report,
    /// As `Report` with short forms for backspace and form feed; C0 only.
    Snapshot,
    /// No short forms but for the quote and the backslash; C0 only.
    Filename,
}

/// Whether a character is a control character (Unicode category Cc).
pub open spec fn is_control(c: char) -> bool {
    (c as int) < 0x20 || 0x7f <= (c as int) <= 0x9f
}

/// The form `\\uXXXX` of a character.
pub open spec fn unicode_escape(c: char) -> Seq<char> {
    seq!['\\', 'u'] + zero_padded(numeral(c as nat, 16), 4)
}

/// What stands for one character inside a JSON string.
pub open spec fn escape_char(c: char, style: EscapeStyle) -> Seq<char> {
    if c == '"' {
        seq!['\\', '"']
    } else if c == '\\' {
        seq!['\\', '\\']
    } else if c == '\n' && style != EscapeStyle::Filename {
        seq!['\\', 'n']
    } else if c == '\r' && style != EscapeStyle::Filename {
        seq!['\\', 'r']
    } else if c == '\t' && style != EscapeStyle::Filename {
        seq!['\\', 't']
    } else if c == '\x08' && style == EscapeStyle::Snapshot {
        seq!['\\', 'b']
    } else if c == '\x0c' && style == EscapeStyle::Snapshot {
        seq!['\\', 'f']
    } else if (c as int) < 0x20 || (style == EscapeStyle::Report && is_control(c)) {
        unicode_escape(c)
    } else {
        seq![c]
    }
}

/// What stands for a text inside a JSON string.
pub open spec fn escaped(s: Seq<char>, style: EscapeStyle) -> Seq<char>
    decreases s.len(),
{
    if s.len() == 0 {
        Seq::empty()
    } else {
        escape_char(s.first(), style) + escaped(s.drop_first(), style)
    }
}

fn push_pair(s: &mut String, c: char)
    ensures
        final(s)@ == old(s)@ + seq!['\\', c],
{
    let ghost before = s@;
    s.push('\\');
    s.push(c);
    assert(s@ =~= before + seq!['\\', c]);
}

fn push_escaped_char(s: &mut String, c: char, style: EscapeStyle)
    ensures
        final(s)@ == old(s)@ + escape_char(c, style),
{
    let ghost before = s@;
    let n: u32 = c as u32;
    if c == '"' {
        push_pair(s, '"');
    } else if c == '\\' {
        push_pair(s, '\\');
    } else if c == '\n' && style != EscapeStyle::Filename {
        push_pair(s, 'n');
    } else if c == '\r' && style != EscapeStyle::Filename {
        push_pair(s, 'r');
    } else if c == '\t' && style != EscapeStyle::Filename {
        push_pair(s, 't');
    } else if c == '\x08' && style == EscapeStyle::Snapshot {
        push_pair(s, 'b');
    } else if c == '\x0c' && style == EscapeStyle::Snapshot {
        push_pair(s, 'f');
    } else if n < 0x20 || (style == EscapeStyle::Report && 0x7f <= n && n <= 0x9f) {
        push_pair(s, 'u');
        push_zero_padded(s, n as u64, 16, 4);
        assert(s@ =~= before + unicode_escape(c));
    } else {
        s.push(c);
        assert(s@ =~= before + seq![c]);
    }
}

fn escape(s: &str, style: EscapeStyle) -> (r: String)
    ensures
        r@ == escaped(s@, style),
{
    let v = to_chars(s);
    let mut r = String::new();
    let mut i: usize = 0;
    assert(s@.skip(0) =~= s@);
    assert(r@ + escaped(s@, style) =~= escaped(s@, style));
    while i < v.len()
        invariant
            i <= v@.len(),
            v@ == s@,
            r@ + escaped(s@.skip(i as int), style) == escaped(s@, style),
        decreases v.len() - i,
    {
        let ghost before = r@;
        push_escaped_char(&mut r, v[i], style);
        proof {
            let rest = s@.skip(i as int);
            assert(rest.drop_first() =~= s@.skip(i + 1));
            assert(r@ + escaped(rest.drop_first(), style) =~= before + escaped(rest, style));
        }
        i = i + 1;
    }
    assert(r@ + Seq::<char>::empty() =~= r@);
    r
}

/// Escapes a string for the info and check reports.
pub fn escape_json_string(s: &str) -> (r: String)
    ensures
        r@ == escaped(s@, EscapeStyle::Report),
{
    escape(s, EscapeStyle::Report)
}

/// Escapes a snapshot's name or ID.
pub fn json_escape(s: &str) -> (r: String)
    ensures
        r@ == escaped(s@, EscapeStyle::Snapshot),
{
    escape(s, EscapeStyle::Snapshot)
}

/// Escapes the file name in a report of `create` and its kin.
pub fn json_escape_string(s: &str) -> (r: String)
    ensures
        r@ == escaped(s@, EscapeStyle::Filename),
{
    escape(s, EscapeStyle::Filename)
}

// ---------------------------------------------------------------------------
// Laws
// ---------------------------------------------------------------------------

/// The value of a lower-case hexadecimal digit.
pub open spec fn hex_value(c: char) -> Option<nat> {
    if '0' <= c <= '9' {
        Some((c as int - 48) as nat)
    } else if 'a' <= c <= 'f' {
        Some((c as int - 87) as nat)
    } else {
        None
    }
}

/// What a JSON reader makes of the inside of a string; `None` where it is not
/// the inside of one.
pub open spec fn unescaped(t: Seq<char>) -> Option<Seq<char>>
    decreases t.len(),
{
    if t.len() == 0 {
        Some(Seq::empty())
    } else if t[0] == '"' || (t[0] as int) < 0x20 {
        None
    } else if t[0] != '\\' {
        match unescaped(t.skip(1)) {
            Some(rest) => Some(seq![t[0]] + rest),
            None => None,
        }
    } else if t.len() < 2 {
        None
    } else if t[1] == 'u' {
        if t.len() < 6 {
            None
        } else {
            match (hex_value(t[2]), hex_value(t[3]), hex_value(t[4]), hex_value(t[5]), unescaped(t.skip(6))) {
                (Some(a), Some(b), Some(c), Some(d), Some(rest)) => Some(
                    seq![(((a * 16 + b) * 16 + c) * 16 + d) as char] + rest,
                ),
                _ => None,
            }
        }
    } else {
        let c = if t[1] == 'n' {
            Some('\n')
        } else if t[1] == 'r' {
            Some('\r')
        } else if t[1] == 't' {
            Some('\t')
        } else if t[1] == 'b' {
            Some('\x08')
        } else if t[1] == 'f' {
            Some('\x0c')
        } else if t[1] == '"' || t[1] == '\\' {
            Some(t[1])
        } else {
            None
        };
        match (c, unescaped(t.skip(2))) {
            (Some(c), Some(rest)) => Some(seq![c] + rest),
            _ => None,
        }
    }
}

proof fn lemma_two_hex_digits(c: char)
    requires
        (c as int) < 0x100,
    ensures
        zero_padded(numeral(c as nat, 16), 4).len() == 4,
        ({
            let z = zero_padded(numeral(c as nat, 16), 4);
            &&& z[0] == '0'
            &&& z[1] == '0'
            &&& hex_value(z[2]) == Some((c as nat) / 16)
            &&& hex_value(z[3]) == Some((c as nat) % 16)
        }),
{
    let n = c as nat;
    reveal_with_fuel(numeral, 3);
    let z = zero_padded(numeral(n, 16), 4);
    if n < 16 {
        assert(numeral(n, 16) =~= seq![digit(n)]);
        assert(z =~= seq!['0', '0', '0', digit(n)]);
    } else {
        assert(numeral(n, 16) =~= seq![digit(n / 16), digit(n % 16)]);
        assert(z =~= seq!['0', '0', digit(n / 16), digit(n % 16)]);
    }
}

proof fn lemma_reads_one(c: char, tail: Seq<char>, style: EscapeStyle)
    requires
        unescaped(tail) is Some,
    ensures
        unescaped(escape_char(c, style) + tail) == Some(seq![c] + unescaped(tail)->0),
{
    let e = escape_char(c, style);
    let t = e + tail;
    if e.len() == 1 {
        assert(t.skip(1) =~= tail);
        assert(t[0] == c);
    } else if e.len() == 2 {
        assert(t.skip(2) =~= tail);
        assert(t[0] == e[0] && t[1] == e[1]);
    } else {
        lemma_two_hex_digits(c);
        let z = zero_padded(numeral(c as nat, 16), 4);
        assert(e =~= seq!['\\', 'u', z[0], z[1], z[2], z[3]]);
        assert(t.skip(6) =~= tail);
        assert(t[0] == e[0] && t[1] == e[1] && t[2] == e[2] && t[3] == e[3] && t[4] == e[4] && t[5]
            == e[5]);
        let n = ((0nat * 16 + 0) * 16 + (c as nat) / 16) * 16 + (c as nat) % 16;
        assert(n == c as nat);
        assert(n as char == c);
    }
}

/// A JSON reader gives back the text that was escaped, whatever the style.
pub proof fn law_escaped_text_reads_back(s: Seq<char>, style: EscapeStyle)
    ensures
        unescaped(escaped(s, style)) == Some(s),
    decreases s.len(),
{
    if s.len() > 0 {
        law_escaped_text_reads_back(s.drop_first(), style);
        lemma_reads_one(s.first(), escaped(s.drop_first(), style), style);
        assert(seq![s.first()] + s.drop_first() =~= s);
    } else {
        assert(s =~= Seq::<char>::empty());
    }
}

/// A character that is no control character, no quote and no backslash stands
/// for itself in every style, and no style leaves one of the first 32 as it
/// is.
pub proof fn law_plain_characters_stay(c: char, style: EscapeStyle)
    ensures
        (c as int) >= 0x20 && !(0x7f <= (c as int) <= 0x9f) && c != '"' && c != '\\' ==> escape_char(
            c,
            style,
        ) == seq![c],
        (c as int) < 0x20 || c == '"' || c == '\\' ==> escape_char(c, style).len() >= 2
            && escape_char(c, style)[0] == '\\',
        style != EscapeStyle::Report && 0x7f <= (c as int) <= 0x9f ==> escape_char(c, style)
            == seq![c],
        style == EscapeStyle::Report && 0x7f <= (c as int) <= 0x9f ==> escape_char(c, style).len()
            >= 6 && escape_char(c, style)[1] == 'u',
{
}

/// Short forms are for the line controls in reports, for two more in snapshot
/// lists, and for none in file names.
pub proof fn law_short_forms_depend_on_the_style(c: char)
    requires
        c == '\n' || c == '\r' || c == '\t' || c == '\x08' || c == '\x0c',
    ensures
        ({
            let line = c == '\n' || c == '\r' || c == '\t';
            &&& escape_char(c, EscapeStyle::Snapshot).len() == 2
            &&& line ==> escape_char(c, EscapeStyle::Report) == escape_char(c, EscapeStyle::Snapshot)
            &&& !line ==> escape_char(c, EscapeStyle::Report) == escape_char(
                c,
                EscapeStyle::Filename,
            )
            &&& escape_char(c, EscapeStyle::Filename)[1] == 'u'
        }),
{
}

/// The three escapes are of the three styles: a text of the controls behind
/// ASCII is escaped in reports alone, and line ends have a short form but in
/// file names.
pub proof fn law_each_escape_has_its_style(s: &str, report: String, snapshot: String, filename: String)
    requires
        s@.len() == 1,
        call_ensures(escape_json_string, (s,), report),
        call_ensures(json_escape, (s,), snapshot),
        call_ensures(json_escape_string, (s,), filename),
    ensures
        0x7f <= (s@[0] as int) <= 0x9f ==> snapshot@ == s@ && filename@ == s@ && report@.len() >= 6,
        s@[0] == '\n' || s@[0] == '\r' || s@[0] == '\t' ==> report@.len() == 2 && snapshot@
            == report@ && filename@.len() >= 6,
        s@[0] == '\x08' || s@[0] == '\x0c' ==> snapshot@.len() == 2 && report@.len() >= 6
            && filename@ == report@,
{
    reveal_with_fuel(escaped, 2);
    let c = s@[0];
    assert(s@.drop_first().len() == 0);
    assert(escaped(s@, EscapeStyle::Report) =~= escape_char(c, EscapeStyle::Report));
    assert(escaped(s@, EscapeStyle::Snapshot) =~= escape_char(c, EscapeStyle::Snapshot));
    assert(escaped(s@, EscapeStyle::Filename) =~= escape_char(c, EscapeStyle::Filename));
    assert(s@ =~= seq![c]);
}

/// Texts are escaped character by character: two in a row as the one and then
/// the other.
pub proof fn law_escaping_goes_by_character(a: Seq<char>, b: Seq<char>, style: EscapeStyle)
    ensures
        escaped(a + b, style) == escaped(a, style) + escaped(b, style),
    decreases a.len(),
{
    if a.len() == 0 {
        assert(a + b =~= b);
        assert(escaped(a, style) + escaped(b, style) =~= escaped(b, style));
    } else {
        law_escaping_goes_by_character(a.drop_first(), b, style);
        assert((a + b).drop_first() =~= a.drop_first() + b);
        assert(escaped(a + b, style) =~= escaped(a, style) + escaped(b, style));
    }
}

} // verus!
