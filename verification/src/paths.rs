//! File paths, held as the bytes that the system knows them by.

use vstd::prelude::*;
use vstd::string::*;

verus! {

/// The bytes of a path.
pub type PathBytes = Vec<u8>;

/// The path of the relative path `name` below the directory `base`: one slash
/// stands between the two, unless `base` ends in one or is empty.
pub open spec fn joined(base: Seq<u8>, name: Seq<u8>) -> Seq<u8> {
    if base.len() == 0 || base.last() == 0x2f {
        base + name
    } else {
        base.push(0x2f) + name
    }
}

/// The path begins at the root directory.
pub open spec fn is_absolute(path: Seq<u8>) -> bool {
    path.len() > 0 && path[0] == 0x2f
}

/// Does the path begin at the root directory?
pub fn starts_at_root(path: &[u8]) -> (r: bool)
    ensures
        r == is_absolute(path@),
{
    path.len() > 0 && path[0] == 0x2f
}

/// Appends the bytes of `s` to `v`.
pub fn push_bytes(v: &mut Vec<u8>, s: &[u8])
    ensures
        final(v)@ == old(v)@ + s@,
{
    let mut i: usize = 0;
    assert(v@ =~= old(v)@ + s@.take(0));
    while i < s.len()
        invariant
            i <= s.len(),
            v@ == old(v)@ + s@.take(i as int),
        decreases s.len() - i,
    {
        v.push(s[i]);
        assert(v@ =~= old(v)@ + s@.take(i + 1));
        i += 1;
    }
    assert(s@.take(i as int) =~= s@);
}

/// Appends the relative path `name` to the directory `base`.
pub fn join(base: &[u8], name: &str) -> (r: PathBytes)
    ensures
        r@ == joined(base@, name.spec_bytes()),
{
    let mut v: Vec<u8> = Vec::new();
    push_bytes(&mut v, base);
    assert(v@ =~= base@);
    if base.len() != 0 && base[base.len() - 1] != 0x2f {
        v.push(0x2f);
    }
    push_bytes(&mut v, name.as_bytes());
    v
}

/// A path below a directory is the directory, one slash unless the directory
/// has it or is the empty path, and the name.
pub proof fn joined_path_lies_below(base: Seq<u8>, name: Seq<u8>)
    ensures
        ({
            let p = joined(base, name);
            let slash: int = if base.len() > 0 && base[base.len() - 1] != 0x2f {
                1
            } else {
                0
            };
            &&& p.len() == base.len() + slash + name.len()
            &&& p.take(base.len() as int) == base
            &&& slash == 1 ==> p[base.len() as int] == 0x2f
            &&& p.skip(base.len() + slash) == name
        }),
{
    let p = joined(base, name);
    assert(p.take(base.len() as int) =~= base);
    let slash: int = if base.len() > 0 && base[base.len() - 1] != 0x2f {
        1
    } else {
        0
    };
    assert(p.skip(base.len() + slash) =~= name);
}

/// A path is absolute exactly when it is some path below the root directory.
pub proof fn absolute_paths_begin_at_the_root(path: Seq<u8>)
    ensures
        is_absolute(path) <==> exists|rest: Seq<u8>| path == #[trigger] (seq![0x2fu8] + rest),
{
    if is_absolute(path) {
        assert(path =~= seq![0x2fu8] + path.skip(1));
    }
}

} // verus!
