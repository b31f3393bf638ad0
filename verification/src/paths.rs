//! Lexical path reasoning for the project store: joining a child name onto
//! the store root, and deciding whether a path is contained in the root.

use vstd::prelude::*;
use vstd::string::StringExecFns;
use vstd::string::StrSliceExecFns;

verus! {

/// The path of a child named `name` directly under `root`.
pub open spec fn joined(root: Seq<char>, name: Seq<char>) -> Seq<char> {
    root + seq!['/'] + name
}

/// Lexical containment: `path` names `root` itself or something below it.
/// A strict descendant must continue `root` with a separator, so `/a/bc`
/// is not contained in `/a/b`.
pub open spec fn contained(path: Seq<char>, root: Seq<char>) -> bool {
    ||| path == root
    ||| (path.len() > root.len() && path.subrange(0, root.len() as int) == root && path[root.len() as int]
        == '/')
}

/// A joined path always lies inside its root: what the store's create
/// returns is a path its delete accepts as contained.
pub proof fn lemma_joined_contained(root: Seq<char>, name: Seq<char>)
    ensures
        contained(joined(root, name), root),
{
    assert(joined(root, name).subrange(0, root.len() as int) =~= root);
    assert(joined(root, name)[root.len() as int] == '/');
}

/// Builds `<root>/<name>`.
pub fn join_path(root: &str, name: &str) -> (r: String)
    ensures
        r@ == joined(root@, name@),
{
    let mut s = root.to_owned();
    s.append("/");
    s.append(name);
    proof {
        reveal_strlit("/");
        assert(s@ =~= joined(root@, name@));
    }
    s
}

/// Decides lexical containment of `path` in `root`.
pub fn path_is_contained(path: &str, root: &str) -> (b: bool)
    ensures
        b == contained(path@, root@),
{
    let pl: usize = path.unicode_len();
    let rl: usize = root.unicode_len();
    if pl < rl {
        proof {
            assert(!contained(path@, root@));
        }
        return false;
    }
    let mut i: usize = 0;
    while i < rl
        invariant
            i <= rl,
            rl <= pl,
            pl == path@.len(),
            rl == root@.len(),
            forall|k: int| 0 <= k < i ==> path@[k] == root@[k],
        decreases rl - i,
    {
        if path.get_char(i) != root.get_char(i) {
            proof {
                assert(path@.subrange(0, rl as int) != root@) by {
                    assert(path@.subrange(0, rl as int)[i as int] != root@[i as int]);
                }
                assert(path@ != root@) by {
                    assert(path@[i as int] != root@[i as int]);
                }
            }
            return false;
        }
        i = i + 1;
    }
    if pl == rl {
        proof {
            assert(path@ =~= root@);
        }
        true
    } else {
        let sep = path.get_char(rl);
        proof {
            assert(path@.subrange(0, rl as int) =~= root@);
            assert(path@ != root@) by {
                assert(path@.len() != root@.len());
            }
        }
        sep == '/'
    }
}

} // verus!
