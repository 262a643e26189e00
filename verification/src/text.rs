//! Small verified string helpers shared by the resolvers: equality of string
//! slices, first occurrence of a character, and occurrence counts.

use vstd::prelude::*;
use vstd::seq_lib::*;

verus! {

/// The prefix of `s` that precedes the first occurrence of `c`, or all of
/// `s` when `c` does not occur.
pub open spec fn before_char(s: Seq<char>, c: char) -> Seq<char> {
    match s.index_of_first(c) {
        Some(i) => s.take(i),
        None => s,
    }
}

/// The predicate "is the character `c`", as a named spec closure.
pub open spec fn eq_char(c: char) -> spec_fn(char) -> bool {
    |x: char| x == c
}

/// How often `c` occurs in `s`.
pub open spec fn count_char(s: Seq<char>, c: char) -> nat {
    s.filter(eq_char(c)).len()
}

/// Character-for-character equality of two string slices.
pub fn str_eq(a: &str, b: &str) -> (r: bool)
    ensures
        r == (a@ == b@),
{
    let la: usize = a.unicode_len();
    let lb: usize = b.unicode_len();
    if la != lb {
        assert(a@ != b@) by {
            assert(a@.len() != b@.len());
        }
        return false;
    }
    let mut i: usize = 0;
    while i < la
        invariant
            la == a@.len() && la == b@.len(),
            i <= la,
            forall|j: int| 0 <= j < i ==> a@[j] == b@[j],
        decreases la - i,
    {
        if a.get_char(i) != b.get_char(i) {
            assert(a@[i as int] != b@[i as int]);
            return false;
        }
        i = i + 1;
    }
    proof {
        assert(a@ =~= b@);
    }
    true
}

/// The index of the first occurrence of `c` in `s`, if any.
pub fn find_char(s: &str, c: char) -> (r: Option<usize>)
    ensures
        r matches Some(i) ==> s@.index_of_first(c) == Some(i as int),
        r is None ==> s@.index_of_first(c) is None,
{
    let n: usize = s.unicode_len();
    let mut i: usize = 0;
    while i < n
        invariant
            n == s@.len(),
            i <= n,
            forall|j: int| 0 <= j < i ==> s@[j] != c,
        decreases n - i,
    {
        if s.get_char(i) == c {
            proof {
                s@.index_of_first_ensures(c);
                if let Some(k) = s@.index_of_first(c) {
                    assert(s@[k] == c);
                    assert(k >= i);
                    assert(k <= i) by {
                        if k > i {
                            assert(s@[i as int] != c);
                        }
                    }
                } else {
                    assert(s@.contains(c)) by {
                        assert(s@[i as int] == c);
                    }
                }
            }
            return Some(i);
        }
        i = i + 1;
    }
    proof {
        s@.index_of_first_ensures(c);
        if let Some(k) = s@.index_of_first(c) {
            assert(s@[k] != c);
        }
    }
    None
}

/// Counts the occurrences of `c` in `s`.
pub fn char_count(s: &str, c: char) -> (r: usize)
    ensures
        r == count_char(s@, c),
{
    let n: usize = s.unicode_len();
    let mut i: usize = 0;
    let mut cnt: usize = 0;
    proof {
        assert(s@.take(0) =~= Seq::<char>::empty());
        assert(Seq::<char>::empty().filter(eq_char(c)) =~= Seq::<char>::empty());
    }
    while i < n
        invariant
            n == s@.len(),
            i <= n,
            cnt <= i,
            cnt == s@.take(i as int).filter(eq_char(c)).len(),
        decreases n - i,
    {
        let ch = s.get_char(i);
        proof {
            broadcast use Seq::lemma_take_succ_push;
            broadcast use Seq::lemma_filter_len_push;

            assert(s@.take(i + 1) == s@.take(i as int).push(s@[i as int]));
        }
        if ch == c {
            assert(eq_char(c)(s@[i as int]));
            cnt = cnt + 1;
        } else {
            assert(!eq_char(c)(s@[i as int]));
        }
        i = i + 1;
    }
    proof {
        assert(s@.take(n as int) =~= s@);
    }
    cnt
}

/// The index of the last occurrence of `c` in `s`, if any.
pub fn find_last_char(s: &str, c: char) -> (r: Option<usize>)
    ensures
        r matches Some(i) ==> s@.index_of_last(c) == Some(i as int),
        r is None ==> s@.index_of_last(c) is None,
{
    let n: usize = s.unicode_len();
    let mut best: Option<usize> = None;
    let mut i: usize = 0;
    while i < n
        invariant
            n == s@.len(),
            i <= n,
            best matches Some(b) ==> b < i && s@[b as int] == c,
            best matches Some(b) ==> forall|j: int| b < j < i ==> s@[j] != c,
            best is None ==> forall|j: int| 0 <= j < i ==> s@[j] != c,
        decreases n - i,
    {
        if s.get_char(i) == c {
            best = Some(i);
        }
        i = i + 1;
    }
    proof {
        s@.index_of_last_ensures(c);
        match best {
            Some(b) => {
                if let Some(k) = s@.index_of_last(c) {
                    assert(s@[k] == c);
                    assert(k <= b);
                    assert(k >= b) by {
                        if k < b {
                            assert(s@[b as int] != c);
                        }
                    }
                } else {
                    assert(s@.contains(c)) by {
                        assert(s@[b as int] == c);
                    }
                }
            },
            None => {
                if let Some(k) = s@.index_of_last(c) {
                    assert(s@[k] != c);
                }
            },
        }
    }
    best
}

/// The prefix of `s` before the first occurrence of `c`, as a slice of `s`.
pub fn before_char_exec<'a>(s: &'a str, c: char) -> (r: &'a str)
    ensures
        r@ == before_char(s@, c),
{
    match find_char(s, c) {
        Some(i) => {
            proof {
                s@.index_of_first_ensures(c);
            }
            s.substring_char(0, i)
        },
        None => {
            proof {
                assert(s@.take(s@.len() as int) =~= s@);
            }
            s
        },
    }
}

/// Clones a list of strings, keeping its contents.
pub(crate) fn clone_strings(v: &Vec<String>) -> (r: Vec<String>)
    ensures
        r.deep_view() == v.deep_view(),
{
    let n = v.len();
    let mut out: Vec<String> = Vec::new();
    let mut i: usize = 0;
    while i < n
        invariant
            n == v.len(),
            i <= n,
            out.len() == i,
            forall|j: int| 0 <= j < i ==> out.deep_view()[j] == v.deep_view()[j],
        decreases n - i,
    {
        out.push(v[i].clone());
        i = i + 1;
    }
    proof {
        assert(out.deep_view() =~= v.deep_view());
    }
    out
}

} // verus!
