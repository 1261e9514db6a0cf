//! A purely textual model of filesystem paths.
//!
//! Paths are `/`-separated strings, assumed to be in the normalized form the
//! caller hands in (no trailing separator except for the root directory
//! `"/"` itself).  `parent_of` mirrors the usual parent operation: the
//! parent of `"/a/b"` is `"/a"`, the parent of `"/a"` is `"/"`, the parent
//! of a bare name is the empty (current) directory, and `"/"` and `""` have
//! no parent.

use vstd::prelude::*;
use vstd::string::*;

verus! {

/// Index of the last occurrence of `c` in `s`, if any.
pub open spec fn last_index_of(s: Seq<char>, c: char) -> Option<int>
    decreases s.len(),
{
    if s.len() == 0 {
        None
    } else if s[s.len() - 1] == c {
        Some(s.len() - 1)
    } else {
        last_index_of(s.drop_last(), c)
    }
}

/// What `last_index_of` returns: the position holds `c` and nothing after
/// it does; `None` means `c` does not occur at all.
pub proof fn lemma_last_index_of_props(s: Seq<char>, c: char)
    ensures
        match last_index_of(s, c) {
            Some(i) => 0 <= i < s.len() && s[i] == c && forall|j: int|
                i < j < s.len() ==> s[j] != c,
            None => forall|j: int| 0 <= j < s.len() ==> s[j] != c,
        },
    decreases s.len(),
{
    if s.len() > 0 && s[s.len() - 1] != c {
        lemma_last_index_of_props(s.drop_last(), c);
        assert forall|j: int| 0 <= j < s.len() - 1 implies s.drop_last()[j] == s[j] by {}
    }
}

/// A position that holds `c` with none of `c` after it is the last index.
pub proof fn lemma_last_index_of_exact(s: Seq<char>, c: char, i: int)
    requires
        0 <= i < s.len(),
        s[i] == c,
        forall|j: int| i < j < s.len() ==> s[j] != c,
    ensures
        last_index_of(s, c) == Some(i),
    decreases s.len(),
{
    if i < s.len() - 1 {
        lemma_last_index_of_exact(s.drop_last(), c, i);
    }
}

/// If `c` occurs nowhere in `s`, there is no last index.
pub proof fn lemma_last_index_of_absent(s: Seq<char>, c: char)
    requires
        forall|j: int| 0 <= j < s.len() ==> s[j] != c,
    ensures
        last_index_of(s, c) == None::<int>,
    decreases s.len(),
{
    if s.len() > 0 {
        lemma_last_index_of_absent(s.drop_last(), c);
    }
}

/// Index of the last occurrence of `c`, scanning from the end.
pub fn str_rfind(s: &str, c: char) -> (r: Option<usize>)
    ensures
        match r {
            Some(i) => last_index_of(s@, c) == Some(i as int),
            None => last_index_of(s@, c) == None::<int>,
        },
{
    let n = s.unicode_len();
    let mut i: usize = n;
    while i > 0
        invariant
            n == s@.len(),
            i <= n,
            forall|j: int| i <= j < n ==> s@[j] != c,
        decreases i,
    {
        i = i - 1;
        if s.get_char(i) == c {
            proof {
                lemma_last_index_of_exact(s@, c, i as int);
            }
            return Some(i);
        }
    }
    proof {
        lemma_last_index_of_absent(s@, c);
    }
    None
}

/// The parent directory of a path, or `None` for `""` and `"/"`.
pub open spec fn parent_of(p: Seq<char>) -> Option<Seq<char>> {
    if p.len() == 0 {
        None
    } else if p == seq!['/'] {
        None
    } else {
        match last_index_of(p, '/') {
            None => Some(Seq::<char>::empty()),
            Some(i) => if i == 0 {
                Some(seq!['/'])
            } else {
                Some(p.subrange(0, i))
            },
        }
    }
}

/// Taking a parent strictly shortens the path, so walking parents ends.
pub proof fn lemma_parent_shorter(p: Seq<char>)
    ensures
        parent_of(p) matches Some(q) ==> q.len() < p.len(),
{
    if p.len() != 0 && p != seq!['/'] {
        lemma_last_index_of_props(p, '/');
        if last_index_of(p, '/') matches Some(i) && i == 0 && p.len() == 1 {
            assert(p =~= seq!['/']);
        }
    }
}

/// The parent directory of a path.
pub fn parent_dir(p: &str) -> (r: Option<String>)
    ensures
        match r {
            Some(q) => parent_of(p@) == Some(q@),
            None => parent_of(p@) == None::<Seq<char>>,
        },
{
    let n = p.unicode_len();
    if n == 0 {
        return None;
    }
    if n == 1 && p.get_char(0) == '/' {
        proof {
            assert(p@ =~= seq!['/']);
        }
        return None;
    }
    proof {
        if p@ == seq!['/'] {
            assert(p@.len() == 1 && p@[0] == '/');
        }
    }
    match str_rfind(p, '/') {
        None => Some(String::new()),
        Some(i) => {
            if i == 0 {
                let root = String::from_str("/");
                proof {
                    reveal_strlit("/");
                    assert(root@ =~= seq!['/']);
                }
                Some(root)
            } else {
                proof {
                    lemma_last_index_of_props(p@, '/');
                }
                Some(String::from_str(p.substring_char(0, i)))
            }
        },
    }
}

/// `dir` and `name` joined with a separator, unless `dir` is empty or
/// already ends with one.
pub open spec fn join_of(dir: Seq<char>, name: Seq<char>) -> Seq<char> {
    if dir.len() == 0 {
        name
    } else if dir[dir.len() - 1] == '/' {
        dir + name
    } else {
        dir + seq!['/'] + name
    }
}

/// Join a directory and a file name into one path.
pub fn join_path(dir: &str, name: &str) -> (r: String)
    ensures
        r@ == join_of(dir@, name@),
{
    let n = dir.unicode_len();
    if n == 0 {
        return String::from_str(name);
    }
    if dir.get_char(n - 1) == '/' {
        crate::strutil::str_concat(dir, name)
    } else {
        let mut s = String::from_str(dir);
        s.append("/");
        s.append(name);
        proof {
            reveal_strlit("/");
            assert("/"@ =~= seq!['/']);
        }
        s
    }
}

/// The final component of a path: everything after the last separator.
pub open spec fn file_name_of(p: Seq<char>) -> Seq<char> {
    match last_index_of(p, '/') {
        None => p,
        Some(i) => p.subrange(i + 1, p.len() as int),
    }
}

/// The final component of a path.
pub fn file_name(p: &str) -> (r: String)
    ensures
        r@ == file_name_of(p@),
{
    match str_rfind(p, '/') {
        None => String::from_str(p),
        Some(i) => {
            proof {
                lemma_last_index_of_props(p@, '/');
            }
            let n = p.unicode_len();
            String::from_str(p.substring_char(i + 1, n))
        },
    }
}

/// The extension of a path: what follows the last dot of the file name,
/// unless the only dot is the leading one of a hidden file.  `None` when
/// the file name has no usable dot.
pub open spec fn extension_of(p: Seq<char>) -> Option<Seq<char>> {
    let name = file_name_of(p);
    match last_index_of(name, '.') {
        None => None,
        Some(i) => if i == 0 {
            None
        } else {
            Some(name.subrange(i + 1, name.len() as int))
        },
    }
}

/// The extension of a path.
pub fn extension(p: &str) -> (r: Option<String>)
    ensures
        match r {
            Some(e) => extension_of(p@) == Some(e@),
            None => extension_of(p@) == None::<Seq<char>>,
        },
{
    let name = file_name(p);
    let name_str = name.as_str();
    match str_rfind(name_str, '.') {
        None => None,
        Some(i) => {
            if i == 0 {
                None
            } else {
                proof {
                    lemma_last_index_of_props(name_str@, '.');
                }
                let n = name_str.unicode_len();
                Some(String::from_str(name_str.substring_char(i + 1, n)))
            }
        },
    }
}

/// `to` is `from` itself or a directory above it on the parent chain.
pub open spec fn reaches(from: Seq<char>, to: Seq<char>) -> bool
    decreases from.len(),
    via reaches_decreases
{
    from == to || match parent_of(from) {
        None => false,
        Some(q) => reaches(q, to),
    }
}

#[via_fn]
proof fn reaches_decreases(from: Seq<char>, to: Seq<char>) {
    lemma_parent_shorter(from);
}

} // verus!
