//! Unix paths as text.

use crate::text::chars_of;
use vstd::prelude::*;

verus! {

/// Whether a component of a path starts at position `i`: a name does, at the
/// start of the path or behind a slash. A lone dot is left out unless the path
/// starts with it.
pub open spec fn component_starts(path: Seq<char>, i: int) -> bool {
    &&& path[i] != '/'
    &&& i == 0 || path[i - 1] == '/'
    &&& i == 0 || !(path[i] == '.' && (i + 1 == path.len() || path[i + 1] == '/'))
}

/// How many components start before position `n`.
pub open spec fn components_before(path: Seq<char>, n: nat) -> nat
    decreases n,
{
    if n == 0 {
        0
    } else {
        components_before(path, (n - 1) as nat) + if component_starts(path, n - 1) {
            1nat
        } else {
            0nat
        }
    }
}

/// How many components a path has. The root that an absolute path starts at
/// counts as one.
pub open spec fn components(path: Seq<char>) -> nat {
    components_before(path, path.len()) + if is_absolute(path) {
        1nat
    } else {
        0nat
    }
}

/// Whether a path starts at the root.
pub open spec fn is_absolute(path: Seq<char>) -> bool {
    path.len() > 0 && path[0] == '/'
}

/// Tells whether a path starts at the root.
pub(crate) fn starts_at_root(path: &str) -> (absolute: bool)
    ensures
        absolute == is_absolute(path@),
{
    path.unicode_len() > 0 && path.get_char(0) == '/'
}

/// Counts the components of a path.
pub fn component_count(path: &str) -> (count: usize)
    ensures
        count == components(path@),
{
    let chars = chars_of(path);
    let mut count: usize = if chars.len() > 0 && chars[0] == '/' {
        1
    } else {
        0
    };
    let ghost root: nat = count as nat;
    let mut i: usize = 0;
    while i < chars.len()
        invariant
            i <= chars@.len(),
            chars@ == path@,
            root == if is_absolute(path@) {
                1nat
            } else {
                0nat
            },
            count == components_before(path@, i as nat) + root,
            count <= if i == 0 {
                root as int
            } else {
                i as int
            },
        decreases chars@.len() - i,
    {
        let named: bool = chars[i] != '/' && (i == 0 || chars[i - 1] == '/');
        let lone_dot: bool = i > 0 && chars[i] == '.' && (i + 1 == chars.len() || chars[i + 1]
            == '/');
        if named && !lone_dot {
            count += 1;
        }
        i += 1;
    }
    count
}

/// `path` taken relative to `base`. An absolute path stands for itself.
pub open spec fn joined_path(base: Seq<char>, path: Seq<char>) -> Seq<char> {
    if is_absolute(path) {
        path
    } else if base.len() == 0 || base.last() == '/' {
        base + path
    } else {
        base + seq!['/'] + path
    }
}

/// Takes `path` relative to `base`.
pub fn join_path(base: &str, path: &str) -> (joined: String)
    ensures
        joined@ == joined_path(base@, path@),
{
    if starts_at_root(path) {
        return path.to_string();
    }
    let len: usize = base.unicode_len();
    let mut joined = base.to_string();
    if len > 0 && base.get_char(len - 1) != '/' {
        proof {
            reveal_strlit("/");
        }
        joined.append("/");
        assert("/"@ =~= seq!['/']);
    }
    joined.append(path);
    joined
}

/// A name without a slash is one component, and the empty name is none.
pub proof fn law_plain_name(name: Seq<char>)
    requires
        !name.contains('/'),
    ensures
        components(name) == if name.len() == 0 {
            0nat
        } else {
            1nat
        },
{
    lemma_plain_name(name, name.len());
}

proof fn lemma_plain_name(name: Seq<char>, n: nat)
    requires
        !name.contains('/'),
        n <= name.len(),
    ensures
        components_before(name, n) == if n == 0 {
            0nat
        } else {
            1nat
        },
        !is_absolute(name),
    decreases n,
{
    if n > 0 {
        lemma_plain_name(name, (n - 1) as nat);
        assert(name[n - 1] != '/');
        if n > 1 {
            assert(name[n - 2] != '/');
        }
    }
    if name.len() > 0 {
        assert(name[0] != '/');
    }
}

/// A name behind a slash is one more component, but for the empty name and the
/// lone dot, which are none. Behind nothing but the root it stands alone.
pub proof fn law_name_behind_slash(path: Seq<char>, name: Seq<char>)
    requires
        !name.contains('/'),
    ensures
        components(path + seq!['/'] + name) == if path.len() == 0 {
            1
        } else {
            components(path)
        } + if name.len() == 0 || name == seq!['.'] {
            0nat
        } else {
            1nat
        },
{
    let whole = path + seq!['/'] + name;
    let n = path.len();
    lemma_start_of_path(path, name, n);
    assert(whole[n as int] == '/');
    assert(components_before(whole, n + 1) == components_before(whole, n));
    lemma_end_of_path(path, name, name.len());
    if name.len() > 0 {
        assert(whole[n as int + 1] == name[0]);
        assert(name[0] != '/');
        if name.len() > 1 {
            assert(whole[n as int + 2] == name[1]);
            assert(name[1] != '/');
        } else if name[0] == '.' {
            assert(name =~= seq!['.']);
        }
    }
    if n > 0 {
        assert(whole[0] == path[0]);
    }
}

/// Up to the slash, the components are those of the path before it.
proof fn lemma_start_of_path(path: Seq<char>, name: Seq<char>, n: nat)
    requires
        n <= path.len(),
    ensures
        components_before(path + seq!['/'] + name, n) == components_before(path, n),
    decreases n,
{
    let whole = path + seq!['/'] + name;
    if n > 0 {
        lemma_start_of_path(path, name, (n - 1) as nat);
        assert(whole[n - 1] == path[n - 1]);
        if n > 1 {
            assert(whole[n - 2] == path[n - 2]);
        }
        if n < path.len() {
            assert(whole[n as int] == path[n as int]);
        } else {
            assert(whole[n as int] == '/');
        }
    }
}

/// Behind the slash, at most the first character starts a component.
proof fn lemma_end_of_path(path: Seq<char>, name: Seq<char>, n: nat)
    requires
        !name.contains('/'),
        n <= name.len(),
    ensures
        ({
            let whole = path + seq!['/'] + name;
            components_before(whole, path.len() + 1 + n) == components_before(
                whole,
                path.len() + 1,
            ) + if n > 0 && component_starts(whole, path.len() as int + 1) {
                1nat
            } else {
                0nat
            }
        }),
    decreases n,
{
    let whole = path + seq!['/'] + name;
    if n > 0 {
        lemma_end_of_path(path, name, (n - 1) as nat);
        assert(whole[path.len() as int + n] == name[n - 1]);
        if n > 1 {
            assert(whole[path.len() + n - 1] == name[n - 2]);
            assert(name[n - 2] != '/');
        }
    }
}

/// A path that starts with a slash stands for itself. Any other is put behind
/// its base, with a slash between them, which a base that is empty or ends in
/// one does not get.
pub proof fn law_joined_path(base: Seq<char>, path: Seq<char>)
    ensures
        joined_path(base, seq!['/'] + path) == seq!['/'] + path,
        path.len() == 0 || path[0] != '/' ==> {
            &&& joined_path(Seq::empty(), path) == path
            &&& joined_path(base + seq!['/'], path) == base + seq!['/'] + path
            &&& base.len() > 0 && base.last() != '/' ==> joined_path(base, path) == base + seq!['/']
                + path
        },
{
    assert((base + seq!['/']).last() == '/');
    assert((seq!['/'] + path)[0] == '/');
    assert(Seq::<char>::empty() + path =~= path);
}

/// Only a path that starts with a slash starts at the root.
pub proof fn law_is_absolute(path: Seq<char>)
    ensures
        is_absolute(seq!['/'] + path),
        is_absolute(path) ==> path == seq!['/'] + path.skip(1),
{
    assert((seq!['/'] + path)[0] == '/');
    if is_absolute(path) {
        assert(path =~= seq!['/'] + path.skip(1));
    }
}

} // verus!
