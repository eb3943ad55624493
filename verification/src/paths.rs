//! Unix path strings: which are absolute, and where a relative one leads.
use vstd::prelude::*;

verus! {

/// Whether a path starts at the root.
pub open spec fn absolute(p: Seq<char>) -> bool {
    p.len() > 0 && p[0] == '/'
}

/// The path that `p` names as seen from the directory `dir`.
pub open spec fn joined(dir: Seq<char>, p: Seq<char>) -> Seq<char> {
    if absolute(p) {
        p
    } else if dir.len() == 0 || dir.last() == '/' {
        dir + p
    } else {
        dir + "/"@ + p
    }
}

/// Tests whether a path starts at the root.
pub fn is_absolute(p: &str) -> (r: bool)
    ensures
        r == absolute(p@),
{
    !p.is_empty() && p.get_char(0) == '/'
}

/// Resolves a path against a directory.
pub fn join(dir: &str, p: &str) -> (r: String)
    ensures
        r@ == joined(dir@, p@),
{
    if is_absolute(p) {
        return p.to_owned();
    }
    let n: usize = dir.unicode_len();
    let mut r = dir.to_owned();
    if n > 0 && dir.get_char(n - 1) != '/' {
        r.append("/");
    }
    r.append(p);
    r
}

/// Picks the directory of the guest binaries: the first that has `core.bin` of
/// the one that the environment names, the executable's and the system's; the
/// executable's where none has.
pub fn binary_dir(
    named: Option<&str>,
    named_has_core: bool,
    exe_dir: &str,
    exe_has_core: bool,
    system_has_core: bool,
) -> (r: String)
    ensures
        r@ == if named is Some && named_has_core {
            named->0@
        } else if exe_has_core {
            exe_dir@
        } else if system_has_core {
            "/usr/lib/instar"@
        } else {
            exe_dir@
        },
{
    match named {
        Some(dir) => {
            if named_has_core {
                return dir.to_owned();
            }
        },
        None => {},
    }
    if !exe_has_core && system_has_core {
        "/usr/lib/instar".to_owned()
    } else {
        exe_dir.to_owned()
    }
}

/// Joining is what resolving paths is: an absolute path stays as it is, and a
/// relative one begins with the directory.
pub proof fn law_join(dir: Seq<char>, p: Seq<char>)
    ensures
        absolute(p) ==> joined(dir, p) == p,
        !absolute(p) ==> joined(dir, p).len() >= dir.len() + p.len() && joined(dir, p).take(
            dir.len() as int,
        ) == dir,
        !absolute(p) ==> joined(dir, p).skip(joined(dir, p).len() - p.len()) == p,
{
    if !absolute(p) {
        assert(joined(dir, p).take(dir.len() as int) =~= dir);
        assert(joined(dir, p).skip(joined(dir, p).len() - p.len()) =~= p);
    }
}

/// A relative path is put behind its directory with one slash between them, and
/// an absolute one stands for itself.
pub proof fn law_one_slash_joins(dir: &str, p: &str, r: String, rooted: bool)
    requires
        call_ensures(join, (dir, p), r),
        call_ensures(is_absolute, (p,), rooted),
    ensures
        rooted <==> p@.len() > 0 && p@[0] == '/',
        rooted ==> r@ == p@,
        !rooted && dir@.len() > 0 && dir@.last() != '/' ==> r@ == dir@.push('/') + p@,
        !rooted && (dir@.len() == 0 || dir@.last() == '/') ==> r@ == dir@ + p@,
{
    reveal_strlit("/");
    assert("/"@ =~= seq!['/']);
    assert(dir@ + "/"@ =~= dir@.push('/'));
}

/// The directory that the user names is used where the tool's core is in it;
/// else the tool's own, else the system's, each where the core is there, and
/// the tool's own again where it is nowhere.
pub proof fn law_named_directory_goes_first(
    named: Option<&str>,
    named_has_core: bool,
    exe_dir: &str,
    exe_has_core: bool,
    system_has_core: bool,
    r: String,
)
    requires
        call_ensures(
            binary_dir,
            (named, named_has_core, exe_dir, exe_has_core, system_has_core),
            r,
        ),
    ensures
        named is Some && named_has_core ==> r@ == named->0@,
        (named is None || !named_has_core) && exe_has_core ==> r@ == exe_dir@,
        (named is None || !named_has_core) && !exe_has_core && system_has_core ==> r@
            == "/usr/lib/instar"@,
        (named is None || !named_has_core) && !exe_has_core && !system_has_core ==> r@ == exe_dir@,
{
}

} // verus!
