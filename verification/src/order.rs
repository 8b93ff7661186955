//! The byte order in which key-value storage walks string keys, and sorting
//! of strings by it.
use vstd::prelude::*;
use vstd::utf8::{encode_utf8, decode_utf8, encode_utf8_decode_utf8};

verus! {

/// Lexicographic order on byte strings: `a` comes strictly before `b`.
pub open spec fn lex_lt(a: Seq<u8>, b: Seq<u8>) -> bool
    decreases a.len(),
{
    if a.len() == 0 {
        b.len() > 0
    } else if b.len() == 0 {
        false
    } else if a[0] != b[0] {
        a[0] < b[0]
    } else {
        lex_lt(a.drop_first(), b.drop_first())
    }
}

/// `a` comes strictly before `b` when both are compared by their UTF-8 bytes.
pub open spec fn str_lt(a: Seq<char>, b: Seq<char>) -> bool {
    lex_lt(encode_utf8(a), encode_utf8(b))
}

/// Whether `s` strictly increases in byte order.
pub open spec fn ascending(s: Seq<Seq<char>>) -> bool {
    forall|i: int, j: int| 0 <= i < j < s.len() ==> str_lt(s[i], s[j])
}

/// Whether `s` strictly decreases in byte order.
pub open spec fn descending(s: Seq<Seq<char>>) -> bool {
    forall|i: int, j: int| 0 <= i < j < s.len() ==> str_lt(s[j], s[i])
}

pub proof fn lemma_lex_irreflexive(a: Seq<u8>)
    ensures
        !lex_lt(a, a),
    decreases a.len(),
{
    if a.len() > 0 {
        lemma_lex_irreflexive(a.drop_first());
    }
}

pub proof fn lemma_lex_transitive(a: Seq<u8>, b: Seq<u8>, c: Seq<u8>)
    requires
        lex_lt(a, b),
        lex_lt(b, c),
    ensures
        lex_lt(a, c),
    decreases a.len(),
{
    if a.len() > 0 && b.len() > 0 && c.len() > 0 && a[0] == b[0] && b[0] == c[0] {
        lemma_lex_transitive(a.drop_first(), b.drop_first(), c.drop_first());
    }
}

pub proof fn lemma_lex_total(a: Seq<u8>, b: Seq<u8>)
    requires
        a != b,
    ensures
        lex_lt(a, b) || lex_lt(b, a),
    decreases a.len(),
{
    if a.len() == 0 && b.len() == 0 {
        assert(a =~= b);
    } else if a.len() > 0 && b.len() > 0 && a[0] == b[0] {
        if a.drop_first() == b.drop_first() {
            assert(a =~= seq![a[0]] + a.drop_first());
            assert(b =~= seq![b[0]] + b.drop_first());
        }
        lemma_lex_total(a.drop_first(), b.drop_first());
    }
}

/// Distinct strings are ordered one way or the other.
pub proof fn lemma_str_total(a: Seq<char>, b: Seq<char>)
    requires
        a != b,
    ensures
        str_lt(a, b) || str_lt(b, a),
{
    if encode_utf8(a) == encode_utf8(b) {
        encode_utf8_decode_utf8(a);
        encode_utf8_decode_utf8(b);
        assert(decode_utf8(encode_utf8(a)) == decode_utf8(encode_utf8(b)));
    }
    lemma_lex_total(encode_utf8(a), encode_utf8(b));
}

/// Whether `a` comes before `b` in byte order.
pub fn bytes_lt(a: &[u8], b: &[u8]) -> (r: bool)
    ensures
        r == lex_lt(a@, b@),
{
    let mut i: usize = 0;
    assert(a@.skip(0) =~= a@ && b@.skip(0) =~= b@);
    while i < a.len() && i < b.len() && a[i] == b[i]
        invariant
            i <= a@.len(),
            i <= b@.len(),
            lex_lt(a@, b@) == lex_lt(a@.skip(i as int), b@.skip(i as int)),
        decreases a@.len() - i,
    {
        assert(a@.skip(i as int).drop_first() =~= a@.skip(i + 1));
        assert(b@.skip(i as int).drop_first() =~= b@.skip(i + 1));
        i = i + 1;
    }
    if i < a.len() && i < b.len() {
        assert(a@.skip(i as int)[0] == a@[i as int]);
        assert(b@.skip(i as int)[0] == b@[i as int]);
        a[i] < b[i]
    } else {
        i == a.len() && i < b.len()
    }
}

/// Whether `a` comes before `b` in byte order.
pub fn string_lt(a: &String, b: &String) -> (r: bool)
    ensures
        r == str_lt(a@, b@),
{
    bytes_lt(a.as_str().as_bytes(), b.as_str().as_bytes())
}

/// The strings of `v` rearranged in ascending byte order.
pub fn sort_ascending(v: Vec<String>) -> (r: Vec<String>)
    requires
        v@.map_values(|x: String| x@).no_duplicates(),
    ensures
        ascending(r@.map_values(|x: String| x@)),
        r@.map_values(|x: String| x@).to_set() == v@.map_values(|x: String| x@).to_set(),
        r.len() == v.len(),
{
    let ghost vv = v@.map_values(|x: String| x@);
    let mut r: Vec<String> = Vec::new();
    let n = v.len();
    let mut i: usize = 0;
    while i < n
        invariant
            n == v.len(),
            vv == v@.map_values(|x: String| x@),
            vv.no_duplicates(),
            i <= n,
            r.len() == i,
            ascending(r@.map_values(|x: String| x@)),
            r@.map_values(|x: String| x@).to_set() == vv.take(i as int).to_set(),
        decreases n - i,
    {
        let ghost rv = r@.map_values(|x: String| x@);
        let x = v[i].clone();
        assert(x@ == vv[i as int]);
        assert(!rv.to_set().contains(x@)) by {
            if rv.to_set().contains(x@) {
                let t0 = vv.take(i as int);
                assert(t0.to_set().contains(x@));
                let j = choose|j: int| 0 <= j < t0.len() && t0[j] == x@;
                assert(vv[j] == vv[i as int]);
            }
        }
        let mut p: usize = 0;
        while p < r.len() && string_lt(&r[p], &x)
            invariant
                r.len() == i,
                rv == r@.map_values(|x: String| x@),
                ascending(rv),
                p <= r.len(),
                forall|j: int| 0 <= j < p ==> str_lt(rv[j], x@),
            decreases r.len() - p,
        {
            p = p + 1;
        }
        proof {
            if p < i {
                assert(!str_lt(rv[p as int], x@));
                assert(rv[p as int] != x@) by {
                    assert(rv.to_set().contains(rv[p as int]));
                }
                lemma_str_total(rv[p as int], x@);
            }
        }
        r.insert(p, x);
        let ghost nv = r@.map_values(|x: String| x@);
        assert(nv =~= rv.subrange(0, p as int).push(x@) + rv.subrange(p as int, i as int));
        assert forall|a: int, b: int| 0 <= a < b < nv.len() implies str_lt(nv[a], nv[b]) by {
            if b < p {
                assert(nv[a] == rv[a] && nv[b] == rv[b]);
            } else if b == p {
                assert(nv[a] == rv[a]);
            } else if a == p {
                assert(nv[b] == rv[b - 1]);
                if b - 1 > p {
                    assert(str_lt(rv[p as int], rv[b - 1]));
                    lemma_lex_transitive(encode_utf8(x@), encode_utf8(rv[p as int]), encode_utf8(rv[b - 1]));
                }
            } else if a < p {
                assert(nv[a] == rv[a] && nv[b] == rv[b - 1]);
                if b - 1 > p {
                    assert(str_lt(rv[p as int], rv[b - 1]));
                    lemma_lex_transitive(encode_utf8(x@), encode_utf8(rv[p as int]), encode_utf8(rv[b - 1]));
                }
                lemma_lex_transitive(encode_utf8(rv[a]), encode_utf8(x@), encode_utf8(rv[b - 1]));
            } else {
                assert(nv[a] == rv[a - 1] && nv[b] == rv[b - 1]);
            }
        }
        let ghost t0 = vv.take(i as int);
        let ghost t1 = vv.take(i + 1);
        assert(t1 =~= t0.push(x@));
        assert forall|y: Seq<char>| #[trigger] nv.to_set().contains(y) == t1.to_set().contains(y) by {
            if nv.to_set().contains(y) {
                let j = choose|j: int| 0 <= j < nv.len() && nv[j] == y;
                if j < p {
                    assert(rv[j] == y);
                    assert(rv.to_set().contains(y));
                } else if j > p {
                    assert(rv[j - 1] == y);
                    assert(rv.to_set().contains(y));
                }
                if y != x@ {
                    assert(t0.to_set().contains(y));
                    let k = choose|k: int| 0 <= k < t0.len() && t0[k] == y;
                    assert(t1[k] == y);
                } else {
                    assert(t1[i as int] == y);
                }
            }
            if t1.to_set().contains(y) {
                let k = choose|k: int| 0 <= k < t1.len() && t1[k] == y;
                if k == i {
                    assert(nv[p as int] == y);
                } else {
                    assert(t0[k] == y);
                    assert(t0.to_set().contains(y));
                    assert(rv.to_set().contains(y));
                    let j = choose|j: int| 0 <= j < rv.len() && rv[j] == y;
                    if j < p {
                        assert(nv[j] == y);
                    } else {
                        assert(nv[j + 1] == y);
                    }
                }
            }
        }
        assert(nv.to_set() =~= vv.take(i + 1).to_set());
        i = i + 1;
    }
    assert(vv.take(n as int) =~= vv);
    r
}

/// The strings of `v`, last first.
pub fn reversed(v: Vec<String>) -> (r: Vec<String>)
    ensures
        r@ == v@.reverse(),
{
    let mut r: Vec<String> = Vec::new();
    let n = v.len();
    let mut i: usize = n;
    while i > 0
        invariant
            n == v.len(),
            i <= n,
            r@ == v@.subrange(i as int, n as int).reverse(),
        decreases i,
    {
        i = i - 1;
        let x = v[i].clone();
        r.push(x);
        assert(r@ =~= v@.subrange(i as int, n as int).reverse());
    }
    assert(v@.subrange(0, n as int) =~= v@);
    r
}

} // verus!
