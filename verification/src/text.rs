//! Small operations on text that the parsers of this crate share.

use vstd::prelude::*;
use vstd::string::*;

verus! {

/// The view of an optional string.
pub open spec fn opt_text(o: Option<String>) -> Option<Seq<char>> {
    match o {
        Some(s) => Some(s@),
        None => None,
    }
}

/// The views of a list of strings, in order.
pub open spec fn texts(v: Seq<String>) -> Seq<Seq<char>> {
    Seq::new(v.len(), |i: int| v[i]@)
}

/// The views of a list of pairs of strings, in order.
pub open spec fn text_pairs(v: Seq<(String, String)>) -> Seq<(Seq<char>, Seq<char>)> {
    Seq::new(v.len(), |i: int| (v[i].0@, v[i].1@))
}

/// `i` is the place of the first `c` in `s`.
pub open spec fn is_first(s: Seq<char>, c: char, i: int) -> bool {
    &&& 0 <= i < s.len()
    &&& s[i] == c
    &&& forall|j: int| 0 <= j < i ==> s[j] != c
}

/// `i` is the place of the last `c` in `s`.
pub open spec fn is_last(s: Seq<char>, c: char, i: int) -> bool {
    &&& 0 <= i < s.len()
    &&& s[i] == c
    &&& forall|j: int| i < j < s.len() ==> s[j] != c
}

/// The place of the first `c` in `s`; meaningful where `s` contains `c`.
pub open spec fn first_index(s: Seq<char>, c: char) -> int {
    choose|i: int| is_first(s, c, i)
}

/// The place of the last `c` in `s`; meaningful where `s` contains `c`.
pub open spec fn last_index(s: Seq<char>, c: char) -> int {
    choose|i: int| is_last(s, c, i)
}

/// In a text made of a left part, `c` and a right part without `c`, the last
/// `c` is the one between the parts.
pub proof fn last_index_of_joined(left: Seq<char>, c: char, right: Seq<char>)
    requires
        !right.contains(c),
    ensures
        (left + seq![c] + right).contains(c),
        last_index(left + seq![c] + right, c) == left.len(),
        (left + seq![c] + right).subrange(0, left.len() as int) == left,
        (left + seq![c] + right).subrange(
            left.len() as int + 1,
            (left + seq![c] + right).len() as int,
        ) == right,
{
    let s = left + seq![c] + right;
    let at = left.len() as int;
    assert(s[at] == c);
    assert forall|j: int| at < j < s.len() implies s[j] != c by {
        assert(s[j] == right[j - at - 1]);
        if s[j] == c {
            assert(right.contains(c));
        }
    }
    assert(is_last(s, c, at));
    let k = last_index(s, c);
    assert(is_last(s, c, k));
    assert(s.subrange(0, at) =~= left);
    assert(s.subrange(at + 1, s.len() as int) =~= right);
}

/// In a text made of a left part without `c`, `c` and a right part, the first
/// `c` is the one between the parts.
pub proof fn first_index_of_joined(left: Seq<char>, c: char, right: Seq<char>)
    requires
        !left.contains(c),
    ensures
        (left + seq![c] + right).contains(c),
        first_index(left + seq![c] + right, c) == left.len(),
        (left + seq![c] + right).subrange(0, left.len() as int) == left,
        (left + seq![c] + right).subrange(
            left.len() as int + 1,
            (left + seq![c] + right).len() as int,
        ) == right,
{
    let s = left + seq![c] + right;
    let at = left.len() as int;
    assert(s[at] == c);
    assert forall|j: int| 0 <= j < at implies s[j] != c by {
        assert(s[j] == left[j]);
        if s[j] == c {
            assert(left.contains(c));
        }
    }
    assert(is_first(s, c, at));
    let k = first_index(s, c);
    assert(is_first(s, c, k));
    assert(s.subrange(0, at) =~= left);
    assert(s.subrange(at + 1, s.len() as int) =~= right);
}

/// `i` is the place of the first of `keys` that `known` does not hold of.
pub open spec fn is_first_unknown(
    keys: Seq<Seq<char>>,
    known: spec_fn(Seq<char>) -> bool,
    i: int,
) -> bool {
    &&& 0 <= i < keys.len()
    &&& !known(keys[i])
    &&& forall|j: int| 0 <= j < i ==> known(#[trigger] keys[j])
}

/// `known` holds of each of `keys`.
pub open spec fn all_known(keys: Seq<Seq<char>>, known: spec_fn(Seq<char>) -> bool) -> bool {
    forall|j: int| 0 <= j < keys.len() ==> known(#[trigger] keys[j])
}

/// The place of the first of `keys` that `known` does not hold of; meaningful
/// where there is one.
pub open spec fn first_unknown(keys: Seq<Seq<char>>, known: spec_fn(Seq<char>) -> bool) -> usize {
    choose|i: usize| is_first_unknown(keys, known, i as int)
}

/// The first unknown key is the only place that is one.
pub proof fn first_unknown_is(keys: Seq<Seq<char>>, known: spec_fn(Seq<char>) -> bool, i: usize)
    requires
        is_first_unknown(keys, known, i as int),
    ensures
        !all_known(keys, known),
        first_unknown(keys, known) == i,
{
    let k = first_unknown(keys, known);
    assert(is_first_unknown(keys, known, k as int));
    if k < i {
        assert(known(keys[k as int]));
    }
    if i < k {
        assert(known(keys[i as int]));
    }
}

/// Where `known` fails of some key of a list that a vector can hold, there is
/// a first such key, at or before any place where it fails.
pub proof fn first_unknown_exists(keys: Seq<Seq<char>>, known: spec_fn(Seq<char>) -> bool, i: int)
    requires
        keys.len() <= usize::MAX,
        0 <= i < keys.len(),
        !known(keys[i]),
    ensures
        !all_known(keys, known),
        is_first_unknown(keys, known, first_unknown(keys, known) as int),
        first_unknown(keys, known) <= i,
    decreases i,
{
    if forall|j: int| 0 <= j < i ==> known(#[trigger] keys[j]) {
        assert(is_first_unknown(keys, known, i));
        first_unknown_is(keys, known, i as usize);
    } else {
        let j = choose|j: int| 0 <= j < i && !known(#[trigger] keys[j]);
        first_unknown_exists(keys, known, j);
    }
}

/// The keys of a list of pairs, in order.
pub open spec fn keys_of<V>(s: Seq<(Seq<char>, V)>) -> Seq<Seq<char>> {
    Seq::new(s.len(), |i: int| s[i].0)
}

/// The keys of a list of pairs whose keys are strings, in order.
pub open spec fn first_texts<V>(v: Seq<(String, V)>) -> Seq<Seq<char>> {
    Seq::new(v.len(), |i: int| v[i].0@)
}

/// No text stands twice in a list: what a list of pairs needs of its keys to
/// stand for a mapping.
pub open spec fn distinct_texts(keys: Seq<Seq<char>>) -> bool {
    forall|i: int, j: int| 0 <= i < j < keys.len() ==> keys[i] != keys[j]
}

/// Tells whether no key stands twice in a list of pairs.
pub fn keys_are_distinct<V>(v: &Vec<(String, V)>) -> (r: bool)
    ensures
        r == distinct_texts(first_texts(v@)),
{
    let ghost ks = first_texts(v@);
    let mut j: usize = 0;
    while j < v.len()
        invariant
            j <= v.len(),
            ks == first_texts(v@),
            forall|a: int, b: int| 0 <= a < b < j ==> ks[a] != ks[b],
        decreases v.len() - j,
    {
        let mut i: usize = 0;
        while i < j
            invariant
                i <= j < v.len(),
                ks == first_texts(v@),
                forall|a: int| 0 <= a < i ==> ks[a] != ks[j as int],
            decreases j - i,
        {
            if same_text(v[i].0.as_str(), v[j].0.as_str()) {
                assert(ks[i as int] == ks[j as int]);
                return false;
            }
            i += 1;
        }
        j += 1;
    }
    true
}

/// Whether two strings hold the same characters.
pub fn same_text(a: &str, b: &str) -> (r: bool)
    ensures
        r == (a@ == b@),
{
    let n: usize = a.unicode_len();
    if n != b.unicode_len() {
        return false;
    }
    let mut i: usize = 0;
    while i < n
        invariant
            i <= n,
            n == a@.len(),
            n == b@.len(),
            forall|j: int| 0 <= j < i ==> a@[j] == b@[j],
        decreases n - i,
    {
        if a.get_char(i) != b.get_char(i) {
            return false;
        }
        i += 1;
    }
    proof {
        assert(a@ =~= b@);
    }
    true
}

/// Finds the first `c` in `s`.
pub fn find_first(s: &str, c: char) -> (r: Option<usize>)
    ensures
        r.is_some() == s@.contains(c),
        r.is_some() ==> is_first(s@, c, r.unwrap() as int) && r.unwrap() == first_index(s@, c),
{
    let n: usize = s.unicode_len();
    let mut i: usize = 0;
    while i < n
        invariant
            i <= n,
            n == s@.len(),
            forall|j: int| 0 <= j < i ==> s@[j] != c,
        decreases n - i,
    {
        if s.get_char(i) == c {
            proof {
                assert(is_first(s@, c, i as int));
                let k = first_index(s@, c);
                assert(is_first(s@, c, k));
            }
            return Some(i);
        }
        i += 1;
    }
    None
}

/// Finds the last `c` in `s`.
pub fn find_last(s: &str, c: char) -> (r: Option<usize>)
    ensures
        r.is_some() == s@.contains(c),
        r.is_some() ==> is_last(s@, c, r.unwrap() as int) && r.unwrap() == last_index(s@, c),
{
    let n: usize = s.unicode_len();
    let mut i: usize = n;
    while i > 0
        invariant
            i <= n,
            n == s@.len(),
            forall|j: int| i <= j < n ==> s@[j] != c,
        decreases i,
    {
        i -= 1;
        if s.get_char(i) == c {
            proof {
                assert(is_last(s@, c, i as int));
                let k = last_index(s@, c);
                assert(is_last(s@, c, k));
            }
            return Some(i);
        }
    }
    None
}

} // verus!
