//! Path arithmetic on plain strings.
//!
//! Paths are `String`s with `/` as the separator. The operations here are the
//! ones the resolver needs: testing for an absolute path, joining a relative
//! path onto a base directory, taking the parent directory, and stripping a
//! working-directory prefix to obtain a repository-relative path.

use vstd::prelude::*;

verus! {

/// A path is absolute when it begins with the separator.
pub open spec fn spec_is_absolute(s: Seq<char>) -> bool {
    s.len() > 0 && s[0] == '/'
}

pub fn is_absolute_path(s: &str) -> (r: bool)
    ensures
        r == spec_is_absolute(s@),
{
    let n: usize = s.unicode_len();
    n > 0 && s.get_char(0) == '/'
}

/// Joining a relative path onto a base directory: a single separator stands
/// between them, and an empty base leaves the relative path as it is.
pub open spec fn spec_join(base: Seq<char>, rel: Seq<char>) -> Seq<char> {
    if base.len() == 0 {
        rel
    } else if base[base.len() - 1] == '/' {
        base + rel
    } else {
        base + seq!['/'] + rel
    }
}

pub fn join_path(base: &str, rel: &str) -> (r: String)
    ensures
        r@ == spec_join(base@, rel@),
{
    let n: usize = base.unicode_len();
    if n == 0 {
        rel.to_owned()
    } else if base.get_char(n - 1) == '/' {
        String::from_str(base).concat(rel)
    } else {
        proof {
            reveal_strlit("/");
        }
        let r = String::from_str(base).concat("/").concat(rel);
        proof {
            assert(r@ =~= base@ + seq!['/'] + rel@);
        }
        r
    }
}

/// The index of the last separator in `s`, or `-1` when there is none.
pub open spec fn spec_last_slash(s: Seq<char>) -> int
    decreases s.len(),
{
    if s.len() == 0 {
        -1
    } else if s[s.len() - 1] == '/' {
        s.len() - 1
    } else {
        spec_last_slash(s.drop_last())
    }
}

/// The directory that holds `s`: everything before the last separator. A path
/// without a separator has parent `"."`; a path whose only separator is its
/// first character has parent `"/"`.
pub open spec fn spec_parent(s: Seq<char>) -> Seq<char> {
    let k = spec_last_slash(s);
    if k < 0 {
        seq!['.']
    } else if k == 0 {
        seq!['/']
    } else {
        s.subrange(0, k)
    }
}

proof fn lemma_last_slash_bound(s: Seq<char>)
    ensures
        -1 <= spec_last_slash(s) < s.len(),
        spec_last_slash(s) >= 0 ==> s[spec_last_slash(s)] == '/',
    decreases s.len(),
{
    if s.len() > 0 && s[s.len() - 1] != '/' {
        lemma_last_slash_bound(s.drop_last());
    }
}

pub fn parent_dir(s: &str) -> (r: String)
    ensures
        r@ == spec_parent(s@),
{
    let n: usize = s.unicode_len();
    let mut i: usize = n;
    proof {
        assert(s@.subrange(0, n as int) =~= s@);
    }
    while i > 0
        invariant
            i <= n,
            n == s@.len(),
            spec_last_slash(s@) == spec_last_slash(s@.subrange(0, i as int)),
        decreases i,
    {
        if s.get_char(i - 1) == '/' {
            proof {
                assert(s@.subrange(0, i as int)[i - 1] == '/');
            }
            if i - 1 == 0 {
                proof {
                    reveal_strlit("/");
                    assert("/"@ =~= spec_parent(s@));
                }
                return String::from_str("/");
            } else {
                let r = s.substring_char(0, i - 1).to_owned();
                proof {
                    assert(r@ =~= spec_parent(s@));
                }
                return r;
            }
        }
        proof {
            let pre = s@.subrange(0, i as int);
            assert(pre[i - 1] != '/');
            assert(pre.drop_last() =~= s@.subrange(0, i - 1 as int));
        }
        i = i - 1;
    }
    proof {
        assert(s@.subrange(0, 0) =~= Seq::<char>::empty());
        reveal_strlit(".");
        assert("."@ =~= spec_parent(s@));
    }
    String::from_str(".")
}

/// Whether `pre` is a leading run of characters of `s`.
pub open spec fn spec_starts_with(s: Seq<char>, pre: Seq<char>) -> bool {
    pre.len() <= s.len() && s.subrange(0, pre.len() as int) == pre
}

/// Stripping a working-directory prefix from a path, on whole path
/// components: the characters of `pre` must open `s`, and the cut must fall
/// on a component boundary (the prefix ends with a separator, the remainder
/// is empty, or the remainder opens with a separator, which is then dropped).
/// `None` when `pre` is not such a prefix.
pub open spec fn spec_strip_prefix(s: Seq<char>, pre: Seq<char>) -> Option<Seq<char>> {
    if spec_starts_with(s, pre) && (pre.len() == 0 || pre[pre.len() - 1] == '/' || s.len()
        == pre.len() || s[pre.len() as int] == '/') {
        let rest = s.subrange(pre.len() as int, s.len() as int);
        if rest.len() > 0 && rest[0] == '/' {
            Some(rest.subrange(1, rest.len() as int))
        } else {
            Some(rest)
        }
    } else {
        None
    }
}

pub fn strip_path_prefix(s: &str, pre: &str) -> (r: Option<String>)
    ensures
        match r {
            Some(rest) => spec_strip_prefix(s@, pre@) == Some(rest@),
            None => spec_strip_prefix(s@, pre@) is None,
        },
{
    let n: usize = s.unicode_len();
    let m: usize = pre.unicode_len();
    if m > n {
        return None;
    }
    let mut i: usize = 0;
    while i < m
        invariant
            i <= m <= n,
            n == s@.len(),
            m == pre@.len(),
            forall|j: int| 0 <= j < i ==> s@[j] == pre@[j],
        decreases m - i,
    {
        if s.get_char(i) != pre.get_char(i) {
            proof {
                assert(s@.subrange(0, m as int)[i as int] != pre@[i as int]);
            }
            return None;
        }
        i = i + 1;
    }
    proof {
        assert(s@.subrange(0, m as int) =~= pre@);
    }
    let boundary = m == 0 || pre.get_char(m - 1) == '/' || n == m || s.get_char(m) == '/';
    if !boundary {
        return None;
    }
    let from: usize = if m < n && s.get_char(m) == '/' {
        m + 1
    } else {
        m
    };
    let rest = s.substring_char(from, n).to_owned();
    proof {
        let ghost whole = s@.subrange(m as int, n as int);
        if whole.len() > 0 && whole[0] == '/' {
            assert(rest@ =~= whole.subrange(1, whole.len() as int));
        } else {
            assert(rest@ =~= whole);
        }
    }
    Some(rest)
}

} // verus!
