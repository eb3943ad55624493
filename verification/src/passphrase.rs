//! Passphrases: where they come from, and how they are cut.
use vstd::prelude::*;
use crate::text::{copied, find, from_chars, lemma_find, name_of, to_chars};

verus! {

/// How many bytes a passphrase may have.
pub const MAX_PASSPHRASE: usize = 256;

/// The first line of a text, without the newline that ends it.
pub open spec fn first_line(s: Seq<char>) -> Seq<char> {
    s.take(find(s, '\n'))
}

/// A text without the newlines at its end.
pub open spec fn without_newlines(s: Seq<char>) -> Seq<char>
    decreases s.len(),
{
    if s.len() > 0 && s.last() == '\n' {
        without_newlines(s.drop_last())
    } else {
        s
    }
}

/// A text without the one newline at its end.
pub open spec fn without_newline(s: Seq<char>) -> Seq<char> {
    if s.len() > 0 && s.last() == '\n' {
        s.drop_last()
    } else {
        s
    }
}

/// Takes the first line of a passphrase file.
pub fn take_first_line(content: &str) -> (r: String)
    ensures
        r@ == first_line(content@),
{
    let v = to_chars(content);
    let mut i: usize = 0;
    proof {
        crate::text::lemma_find(content@, '\n');
    }
    while i < v.len() && v[i] != '\n'
        invariant
            i <= v@.len(),
            v@ == content@,
            forall|k: int| 0 <= k < i ==> v@[k] != '\n',
        decreases v.len() - i,
    {
        i = i + 1;
    }
    let r = from_chars(&v, 0, i);
    assert(r@ =~= first_line(content@));
    r
}

/// Takes the newlines off the end of a passphrase file.
pub fn strip_newlines(content: &str) -> (r: String)
    ensures
        r@ == without_newlines(content@),
{
    let v = to_chars(content);
    let mut n: usize = v.len();
    assert(v@.take(n as int) =~= content@);
    while n > 0 && v[n - 1] == '\n'
        invariant
            n <= v@.len(),
            v@ == content@,
            without_newlines(v@.take(n as int)) == without_newlines(content@),
        decreases n,
    {
        assert(v@.take(n as int).drop_last() =~= v@.take(n - 1));
        n = n - 1;
    }
    let r = from_chars(&v, 0, n);
    assert(r@ =~= v@.take(n as int));
    r
}

/// Takes one newline off the end of a password file.
pub fn strip_newline(content: &str) -> (r: String)
    ensures
        r@ == without_newline(content@),
{
    let v = to_chars(content);
    let n: usize = v.len();
    let r = if n > 0 && v[n - 1] == '\n' {
        from_chars(&v, 0, n - 1)
    } else {
        from_chars(&v, 0, n)
    };
    assert(r@ =~= without_newline(content@));
    r
}

/// The first of two passphrases that is there.
pub open spec fn first_of(a: Option<Seq<char>>, b: Option<Seq<char>>) -> Option<Seq<char>> {
    match a {
        Some(p) => Some(p),
        None => b,
    }
}

/// Picks the first of two passphrases that is there.
pub fn pick_passphrase(a: &Option<String>, b: &Option<String>) -> (r: Option<String>)
    ensures
        name_of(r) == first_of(name_of(*a), name_of(*b)),
{
    match a {
        Some(p) => Some(p.as_str().to_owned()),
        None => copied(b),
    }
}

/// A line that ends in one newline loses it, whichever way it is cut.
pub proof fn law_one_line_is_cut_alike(line: Seq<char>)
    requires
        !line.contains('\n'),
    ensures
        first_line(line.push('\n')) == line,
        without_newlines(line.push('\n')) == line,
        without_newline(line.push('\n')) == line,
        first_line(line) == line,
        without_newlines(line) == line,
        without_newline(line) == line,
{
    let t = line.push('\n');
    crate::text::lemma_find(t, '\n');
    crate::text::lemma_find(line, '\n');
    assert(t.drop_last() =~= line);
    assert(t.last() == '\n');
    assert(forall|i: int| 0 <= i < line.len() ==> line[i] == t[i]);
    assert(line.len() > 0 ==> line.contains(line.last()));
    assert forall|i: int| 0 <= i < line.len() implies line[i] != '\n' by {
        assert(line.contains(line[i]));
    }
    assert(first_line(t) =~= line);
    assert(first_line(line) =~= line);
    reveal_with_fuel(without_newlines, 2);
}

/// Of two passphrases the first is picked where it is there, whatever the
/// other is.
pub proof fn law_first_passphrase_is_picked(
    a: &Option<String>,
    b: &Option<String>,
    r: Option<String>,
)
    requires
        call_ensures(pick_passphrase, (a, b), r),
    ensures
        a is Some ==> r is Some && r->0@ == a->0@,
        a is None && b is Some ==> r is Some && r->0@ == b->0@,
        a is None && b is None ==> r is None,
{
}

/// The first line of a file is what comes before the first newline: it has
/// none, and the file begins with it and a newline, or is it.
pub proof fn law_first_line_ends_at_a_newline(content: &str, r: String)
    requires
        call_ensures(take_first_line, (content,), r),
    ensures
        !r@.contains('\n'),
        r@ == content@ || (r@.len() < content@.len() && content@.take(r@.len() as int + 1)
            == r@.push('\n')),
        r@.is_prefix_of(content@),
{
    lemma_find(content@, '\n');
    let n = find(content@, '\n');
    if n < content@.len() {
        assert(content@.take(n + 1) =~= r@.push('\n'));
    } else {
        assert(r@ =~= content@);
    }
}

/// Newlines are taken off the end and nowhere else: all of them, so that none
/// is left there.
pub proof fn law_newlines_are_cut_off_the_end(content: &str, r: String)
    requires
        call_ensures(strip_newlines, (content,), r),
    ensures
        r@.len() == 0 || r@.last() != '\n',
        r@.is_prefix_of(content@),
        forall|i: int| r@.len() <= i < content@.len() ==> #[trigger] content@[i] == '\n',
{
    lemma_only_newlines_go(content@);
}

/// Only newlines go, and all of them.
pub proof fn lemma_only_newlines_go(s: Seq<char>)
    ensures
        without_newlines(s).len() == 0 || without_newlines(s).last() != '\n',
        without_newlines(s).is_prefix_of(s),
        forall|i: int| without_newlines(s).len() <= i < s.len() ==> #[trigger] s[i] == '\n',
    decreases s.len(),
{
    if s.len() > 0 && s.last() == '\n' {
        lemma_only_newlines_go(s.drop_last());
        assert forall|i: int| without_newlines(s).len() <= i < s.len() implies #[trigger] s[i]
            == '\n' by {
            if i < s.len() - 1 {
                assert(s.drop_last()[i] == s[i]);
            }
        }
        let n = without_newlines(s).len() as int;
        assert(s.subrange(0, n) =~= s.drop_last().subrange(0, n));
    } else {
        assert(s.subrange(0, s.len() as int) =~= s);
    }
}

/// One newline is taken off the end where there is one, and nothing else.
pub proof fn law_one_newline_is_cut_off(content: &str, r: String)
    requires
        call_ensures(strip_newline, (content,), r),
    ensures
        content@.len() > 0 && content@.last() == '\n' ==> content@ == r@.push('\n'),
        content@.len() == 0 || content@.last() != '\n' ==> content@ == r@,
{
}

} // verus!
