//! A model of URL query strings: the pieces between separators, the
//! `key=value` parameters, and looking a parameter up.

use vstd::prelude::*;
use crate::percent::percent_decode;

verus! {

/// The pieces of `s` between the occurrences of `sep`, in order; there is
/// always at least one.
pub open spec fn split_on(s: Seq<char>, sep: char) -> Seq<Seq<char>>
    decreases s.len(),
{
    if s.len() == 0 {
        seq![Seq::<char>::empty()]
    } else {
        let rest = split_on(s.drop_first(), sep);
        if s[0] == sep {
            seq![Seq::<char>::empty()] + rest
        } else {
            rest.update(0, seq![s[0]] + rest[0])
        }
    }
}

/// What follows the first `sep` in `s`, if `s` holds one.
pub open spec fn after_first(s: Seq<char>, sep: char) -> Option<Seq<char>> {
    let head = split_on(s, sep)[0];
    if head.len() < s.len() {
        Some(s.skip(head.len() + 1 as int))
    } else {
        None
    }
}

/// The query of a URL: what lies between its first `?` and the `#` of a
/// fragment, if any; empty when the URL has no `?`.
pub open spec fn query_of(url: Seq<char>) -> Seq<char> {
    match after_first(url, '?') {
        Some(rest) => split_on(rest, '#')[0],
        None => Seq::empty(),
    }
}

/// The key of a `key=value` parameter: all of it up to the first `=`.
pub open spec fn key_of(param: Seq<char>) -> Seq<char> {
    split_on(param, '=')[0]
}

/// The raw value of a `key=value` parameter: what follows the first `=`.
pub open spec fn value_of(param: Seq<char>) -> Seq<char> {
    match after_first(param, '=') {
        Some(v) => v,
        None => Seq::empty(),
    }
}

/// The decoded value of the first parameter whose key is `key`.
pub open spec fn lookup(params: Seq<Seq<char>>, key: Seq<char>) -> Option<Seq<u8>>
    decreases params.len(),
{
    if params.len() == 0 {
        None
    } else if key_of(params[0]) == key {
        Some(percent_decode(value_of(params[0])))
    } else {
        lookup(params.drop_first(), key)
    }
}

/// The decoded value of the first parameter named `key` in the query of `url`.
pub open spec fn query_param(url: Seq<char>, key: Seq<char>) -> Option<Seq<u8>> {
    lookup(split_on(query_of(url), '&'), key)
}

/// A string without `sep` is one piece.
pub proof fn lemma_split_without(a: Seq<char>, sep: char)
    requires
        !a.contains(sep),
    ensures
        split_on(a, sep) == seq![a],
    decreases a.len(),
{
    if a.len() == 0 {
        assert(a =~= Seq::<char>::empty());
        assert(split_on(a, sep) =~= seq![a]);
    } else {
        assert(!a.drop_first().contains(sep)) by {
            if a.drop_first().contains(sep) {
                let i = choose|i: int| 0 <= i < a.drop_first().len() && a.drop_first()[i] == sep;
                assert(a[i + 1] == sep);
            }
        }
        lemma_split_without(a.drop_first(), sep);
        assert(a[0] != sep);
        assert(seq![a[0]] + a.drop_first() =~= a);
        assert(split_on(a, sep) =~= seq![a]);
    }
}

/// The first piece of `a`, `sep`, `b` is `a` when `a` holds no `sep`; the
/// rest are the pieces of `b`.
pub proof fn lemma_split_first(a: Seq<char>, sep: char, b: Seq<char>)
    requires
        !a.contains(sep),
    ensures
        split_on(a + seq![sep] + b, sep) == seq![a] + split_on(b, sep),
    decreases a.len(),
{
    let s = a + seq![sep] + b;
    if a.len() == 0 {
        assert(a =~= Seq::<char>::empty());
        assert(s[0] == sep);
        assert(s.drop_first() =~= b);
        assert(split_on(s, sep) =~= seq![a] + split_on(b, sep));
    } else {
        let a1 = a.drop_first();
        assert(!a1.contains(sep)) by {
            if a1.contains(sep) {
                let i = choose|i: int| 0 <= i < a1.len() && a1[i] == sep;
                assert(a[i + 1] == sep);
            }
        }
        assert(s.drop_first() =~= a1 + seq![sep] + b);
        lemma_split_first(a1, sep, b);
        assert(s[0] == a[0]);
        assert(a[0] != sep);
        assert(seq![a[0]] + a1 =~= a);
        assert(split_on(s, sep) =~= seq![a] + split_on(b, sep));
    }
}

/// `after_first` of `a`, `sep`, `b` is `b` when `a` holds no `sep`.
pub proof fn lemma_after_first(a: Seq<char>, sep: char, b: Seq<char>)
    requires
        !a.contains(sep),
    ensures
        after_first(a + seq![sep] + b, sep) == Some(b),
{
    lemma_split_first(a, sep, b);
    let s = a + seq![sep] + b;
    assert(s.skip(a.len() + 1 as int) =~= b);
}

} // verus!
