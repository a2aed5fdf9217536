//! Paths as `/`-separated text. As the standard library reads them, trailing
//! `/` and `/.` are dropped; the last component is then the text after the
//! last `/`, and its stem and extension are split at its last `.`, where a
//! leading `.` starts no extension.
use crate::process::opt_text;
use vstd::prelude::*;

verus! {

/// Index of the last occurrence of `c` in `s`, or -1.
pub open spec fn last_index_of(s: Seq<char>, c: char) -> int
    decreases s.len(),
{
    if s.len() == 0 {
        -1
    } else if s.last() == c {
        s.len() - 1
    } else {
        last_index_of(s.drop_last(), c)
    }
}

/// `p` without trailing `/` (a lone `/` stays) and trailing `/.`.
pub open spec fn trimmed(p: Seq<char>) -> Seq<char>
    decreases p.len(),
{
    if p.len() > 1 && p.last() == '/' {
        trimmed(p.drop_last())
    } else if p.len() >= 2 && p.last() == '.' && p[p.len() - 2] == '/' {
        trimmed(p.subrange(0, p.len() - 2))
    } else {
        p
    }
}

/// The directory part of `p`, with its trailing `/` (empty when `p` has no `/`).
pub open spec fn dir_prefix(p: Seq<char>) -> Seq<char> {
    let t = trimmed(p);
    t.subrange(0, last_index_of(t, '/') + 1)
}

/// The last component of `p`.
pub open spec fn name_of(p: Seq<char>) -> Seq<char> {
    let t = trimmed(p);
    t.subrange(last_index_of(t, '/') + 1, t.len() as int)
}

/// A component that names no file: empty, `.` or `..`.
pub open spec fn is_unnamed(n: Seq<char>) -> bool {
    n.len() == 0 || n == seq!['.'] || n == seq!['.', '.']
}

/// The stem of `p`'s last component, if it names a file.
pub open spec fn stem_of(p: Seq<char>) -> Option<Seq<char>> {
    let n = name_of(p);
    let d = last_index_of(n, '.');
    if is_unnamed(n) {
        None
    } else if d > 0 {
        Some(n.subrange(0, d))
    } else {
        Some(n)
    }
}

/// The extension of `p`'s last component, if it has one.
pub open spec fn ext_of(p: Seq<char>) -> Option<Seq<char>> {
    let n = name_of(p);
    let d = last_index_of(n, '.');
    if is_unnamed(n) || d <= 0 {
        None
    } else {
        Some(n.subrange(d + 1, n.len() as int))
    }
}

/// The path of the file named `name` beside `p`.
pub open spec fn sibling_of(p: Seq<char>, name: Seq<char>) -> Seq<char> {
    dir_prefix(p) + name
}

proof fn lemma_last_index_bounds(s: Seq<char>, c: char)
    ensures
        -1 <= last_index_of(s, c) < s.len(),
        last_index_of(s, c) >= 0 ==> s[last_index_of(s, c)] == c,
        forall|j: int| last_index_of(s, c) < j < s.len() ==> s[j] != c,
    decreases s.len(),
{
    if s.len() > 0 && s.last() != c {
        lemma_last_index_bounds(s.drop_last(), c);
        assert forall|j: int| last_index_of(s, c) < j < s.len() implies s[j] != c by {
            if j < s.len() - 1 {
                assert(s[j] == s.drop_last()[j]);
            }
        }
    }
}

/// A stem is never empty.
pub proof fn lemma_stem_nonempty(p: Seq<char>)
    ensures
        stem_of(p) matches Some(s) ==> s.len() > 0,
{
    lemma_last_index_bounds(name_of(p), '.');
}

/// Index of the last `c` in `s`, or `None`.
pub(crate) fn find_last(s: &str, c: char) -> (r: Option<usize>)
    ensures
        match r {
            Some(i) => last_index_of(s@, c) == i as int && i < s@.len(),
            None => last_index_of(s@, c) == -1,
        },
{
    let n = s.unicode_len();
    let mut i: usize = n;
    assert(s@.subrange(0, n as int) =~= s@);
    while i > 0
        invariant
            i <= n,
            n == s@.len(),
            last_index_of(s@, c) == last_index_of(s@.subrange(0, i as int), c),
        decreases i,
    {
        let ch = s.get_char(i - 1);
        if ch == c {
            assert(s@.subrange(0, i as int).last() == c);
            return Some(i - 1);
        }
        assert(s@.subrange(0, i as int).drop_last() =~= s@.subrange(0, i - 1));
        i = i - 1;
    }
    assert(s@.subrange(0, 0) =~= Seq::<char>::empty());
    None
}

fn trim_end(p: &str) -> (r: &str)
    ensures
        r@ == trimmed(p@),
    decreases p@.len(),
{
    let n = p.unicode_len();
    if n > 1 && p.get_char(n - 1) == '/' {
        let q = p.substring_char(0, n - 1);
        assert(q@ =~= p@.drop_last());
        trim_end(q)
    } else if n >= 2 && p.get_char(n - 1) == '.' && p.get_char(n - 2) == '/' {
        trim_end(p.substring_char(0, n - 2))
    } else {
        p
    }
}

fn last_component(p: &str) -> (r: &str)
    ensures
        r@ == name_of(p@),
{
    let p = trim_end(p);
    let n = p.unicode_len();
    match find_last(p, '/') {
        Some(i) => {
            proof {
                lemma_last_index_bounds(p@, '/');
            }
            p.substring_char(i + 1, n)
        },
        None => p.substring_char(0, n),
    }
}

fn unnamed(n: &str) -> (r: bool)
    ensures
        r == is_unnamed(n@),
{
    let len = n.unicode_len();
    if len == 0 {
        true
    } else if len == 1 {
        let r = n.get_char(0) == '.';
        assert(r ==> n@ =~= seq!['.']);
        r
    } else if len == 2 {
        let r = n.get_char(0) == '.' && n.get_char(1) == '.';
        assert(r ==> n@ =~= seq!['.', '.']);
        r
    } else {
        false
    }
}

/// The stem of the last component of `p`: `a/b/main.c` gives `main`.
pub fn file_stem(p: &str) -> (r: Option<String>)
    ensures
        opt_text(r) == stem_of(p@),
{
    let n = last_component(p);
    if unnamed(n) {
        return None;
    }
    proof {
        lemma_last_index_bounds(n@, '.');
    }
    match find_last(n, '.') {
        Some(d) => {
            if d > 0 {
                Some(String::from_str(n.substring_char(0, d)))
            } else {
                Some(String::from_str(n))
            }
        },
        None => Some(String::from_str(n)),
    }
}

/// The extension of the last component of `p`: `a/b/main.c` gives `c`.
pub fn extension(p: &str) -> (r: Option<String>)
    ensures
        opt_text(r) == ext_of(p@),
{
    let n = last_component(p);
    if unnamed(n) {
        return None;
    }
    proof {
        lemma_last_index_bounds(n@, '.');
    }
    match find_last(n, '.') {
        Some(d) => {
            if d > 0 {
                let len = n.unicode_len();
                Some(String::from_str(n.substring_char(d + 1, len)))
            } else {
                None
            }
        },
        None => None,
    }
}

/// The path of the file named `name` in the directory of `p`.
pub fn sibling(p: &str, name: &str) -> (r: String)
    ensures
        r@ == sibling_of(p@, name@),
{
    let p = trim_end(p);
    let len = p.unicode_len();
    let dir = match find_last(p, '/') {
        Some(i) => {
            proof {
                lemma_last_index_bounds(p@, '/');
            }
            p.substring_char(0, i + 1)
        },
        None => p.substring_char(0, 0),
    };
    String::from_str(dir).concat(name)
}

} // verus!
