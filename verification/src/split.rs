//! Splitting a character sequence on a separator, the way the `datetime`
//! field is decomposed: every occurrence of the separator ends a piece, and
//! the result always has at least one piece.

use vstd::prelude::*;
use vstd::string::*;

verus! {

/// The pieces of `s` between occurrences of `sep`, in order. An empty input
/// gives one empty piece; a separator at either end gives an empty piece
/// there.
pub open spec fn split_spec(s: Seq<char>, sep: char) -> Seq<Seq<char>>
    decreases s.len(),
{
    if s.len() == 0 {
        seq![Seq::<char>::empty()]
    } else if s[0] == sep {
        seq![Seq::<char>::empty()] + split_spec(s.skip(1), sep)
    } else {
        let rest = split_spec(s.skip(1), sep);
        rest.update(0, seq![s[0]] + rest[0])
    }
}

pub proof fn lemma_split_len_pos(s: Seq<char>, sep: char)
    ensures
        split_spec(s, sep).len() >= 1,
    decreases s.len(),
{
    if s.len() > 0 {
        lemma_split_len_pos(s.skip(1), sep);
    }
}

/// A sequence free of the separator splits into itself alone.
pub proof fn lemma_split_no_sep(s: Seq<char>, sep: char)
    requires
        !s.contains(sep),
    ensures
        split_spec(s, sep) == seq![s],
    decreases s.len(),
{
    if s.len() == 0 {
        assert(split_spec(s, sep) =~~= seq![s]);
    } else {
        assert(s[0] != sep);
        assert(!s.skip(1).contains(sep)) by {
            if s.skip(1).contains(sep) {
                let i = choose|i: int| 0 <= i < s.skip(1).len() && s.skip(1)[i] == sep;
                assert(s[i + 1] == sep);
            }
        }
        lemma_split_no_sep(s.skip(1), sep);
        lemma_split_len_pos(s.skip(1), sep);
        assert(split_spec(s, sep) =~~= seq![s]);
    }
}

/// Splitting `a + [sep] + b` peels off `a` as the first piece when `a` is
/// free of the separator.
pub proof fn lemma_split_prepend(a: Seq<char>, sep: char, b: Seq<char>)
    requires
        !a.contains(sep),
    ensures
        split_spec(a + seq![sep] + b, sep) == seq![a] + split_spec(b, sep),
    decreases a.len(),
{
    let s = a + seq![sep] + b;
    if a.len() == 0 {
        assert(s[0] == sep);
        assert(s.skip(1) =~= b);
        assert(split_spec(s, sep) =~~= seq![a] + split_spec(b, sep));
    } else {
        assert(s[0] == a[0]);
        assert(a.contains(a[0]));
        assert(s[0] != sep);
        assert(!a.skip(1).contains(sep)) by {
            if a.skip(1).contains(sep) {
                let i = choose|i: int| 0 <= i < a.skip(1).len() && a.skip(1)[i] == sep;
                assert(a[i + 1] == sep);
            }
        }
        assert(s.skip(1) =~= a.skip(1) + seq![sep] + b);
        lemma_split_prepend(a.skip(1), sep, b);
        lemma_split_len_pos(b, sep);
        let rest = split_spec(s.skip(1), sep);
        assert(rest == seq![a.skip(1)] + split_spec(b, sep));
        assert(rest[0] == a.skip(1));
        assert(seq![s[0]] + rest[0] =~= a);
        assert(split_spec(s, sep) =~~= seq![a] + split_spec(b, sep));
    }
}

/// The pieces of `s` from position `from` on.
fn split_from(s: &Vec<char>, sep: char, from: usize) -> (r: Vec<Vec<char>>)
    requires
        from <= s@.len(),
    ensures
        r@.len() == split_spec(s@.skip(from as int), sep).len(),
        forall|j: int|
            0 <= j < r@.len() ==> r@[j]@ == split_spec(s@.skip(from as int), sep)[j],
    decreases s@.len() - from,
{
    let ghost tail = s@.skip(from as int);
    if from == s.len() {
        assert(tail =~= Seq::<char>::empty());
        let mut r: Vec<Vec<char>> = Vec::new();
        r.push(Vec::new());
        r
    } else {
        let c = s[from];
        assert(tail[0] == s@[from as int]);
        assert(tail.skip(1) =~= s@.skip(from as int + 1));
        if c == sep {
            let rest = split_from(s, sep, from + 1);
            let mut r: Vec<Vec<char>> = Vec::new();
            r.push(Vec::new());
            let mut rest = rest;
            r.append(&mut rest);
            assert(split_spec(tail, sep) == seq![Seq::<char>::empty()] + split_spec(
                tail.skip(1),
                sep,
            ));
            assert(forall|j: int|
                0 <= j < r@.len() ==> r@[j]@ == split_spec(tail, sep)[j]);
            r
        } else {
            let mut rest = split_from(s, sep, from + 1);
            proof {
                lemma_split_len_pos(s@.skip(from as int + 1), sep);
            }
            let mut first = rest.remove(0);
            first.insert(0, c);
            rest.insert(0, first);
            let ghost spec_rest = split_spec(tail.skip(1), sep);
            assert(split_spec(tail, sep) == spec_rest.update(0, seq![tail[0]] + spec_rest[0]));
            assert(first@ =~= seq![tail[0]] + spec_rest[0]);
            assert(forall|j: int|
                0 <= j < rest@.len() ==> rest@[j]@ == split_spec(tail, sep)[j]);
            rest
        }
    }
}

/// A concatenation holds a character exactly when one of its parts does.
pub proof fn lemma_concat_contains(a: Seq<char>, b: Seq<char>, c: char)
    ensures
        (a + b).contains(c) <==> a.contains(c) || b.contains(c),
{
    if (a + b).contains(c) {
        let i = choose|i: int| 0 <= i < (a + b).len() && (a + b)[i] == c;
        if i < a.len() {
            assert(a[i] == c);
        } else {
            assert(b[i - a.len()] == c);
        }
    }
    if a.contains(c) {
        let i = choose|i: int| 0 <= i < a.len() && a[i] == c;
        assert((a + b)[i] == c);
    }
    if b.contains(c) {
        let i = choose|i: int| 0 <= i < b.len() && b[i] == c;
        assert((a + b)[a.len() + i] == c);
    }
}

/// A one-character sequence holds exactly its character.
pub proof fn lemma_singleton_contains(x: char, c: char)
    ensures
        seq![x].contains(c) <==> x == c,
{
    if seq![x].contains(c) {
        let i = choose|i: int| 0 <= i < seq![x].len() && seq![x][i] == c;
        assert(seq![x][i] == x);
    }
    if x == c {
        assert(seq![x][0] == c);
    }
}

/// The characters of `s`, one by one.
pub fn chars_of(s: &str) -> (r: Vec<char>)
    ensures
        r@ == s@,
{
    let len = s.unicode_len();
    let mut r: Vec<char> = Vec::new();
    let mut i: usize = 0;
    while i < len
        invariant
            i <= s@.len(),
            len == s@.len(),
            r@ == s@.take(i as int),
        decreases len - i,
    {
        r.push(s.get_char(i));
        proof {
            assert(s@.take(i + 1) =~= s@.take(i as int).push(s@[i as int]));
        }
        i = i + 1;
    }
    proof {
        assert(s@.take(s@.len() as int) =~= s@);
    }
    r
}

/// Whether `c` occurs in `v`.
pub fn contains_char(v: &Vec<char>, c: char) -> (r: bool)
    ensures
        r == v@.contains(c),
{
    let mut i: usize = 0;
    while i < v.len()
        invariant
            i <= v@.len(),
            forall|j: int| 0 <= j < i ==> v@[j] != c,
        decreases v@.len() - i,
    {
        if v[i] == c {
            return true;
        }
        i = i + 1;
    }
    false
}

/// The first `n` characters of `v`.
pub fn prefix_chars(v: &Vec<char>, n: usize) -> (r: Vec<char>)
    requires
        n <= v@.len(),
    ensures
        r@ == v@.take(n as int),
{
    let mut r: Vec<char> = Vec::new();
    let mut i: usize = 0;
    while i < n
        invariant
            i <= n <= v@.len(),
            r@ == v@.take(i as int),
        decreases n - i,
    {
        r.push(v[i]);
        proof {
            assert(v@.take(i + 1) =~= v@.take(i as int).push(v@[i as int]));
        }
        i = i + 1;
    }
    r
}

/// Splits `s` on every occurrence of `sep`.
pub fn split_chars(s: &Vec<char>, sep: char) -> (r: Vec<Vec<char>>)
    ensures
        r@.len() == split_spec(s@, sep).len(),
        forall|j: int| 0 <= j < r@.len() ==> r@[j]@ == split_spec(s@, sep)[j],
{
    let r = split_from(s, sep, 0);
    proof {
        assert(s@.skip(0) =~= s@);
    }
    r
}

} // verus!
