//! The order in which stored keys are listed: byte-wise lexicographic order
//! of their UTF-8 encoding, as a key-value store iterates its keys ascending.

use vstd::prelude::*;

verus! {

/// Strict lexicographic order on byte strings.
pub open spec fn bytes_lt(a: Seq<u8>, b: Seq<u8>) -> bool
    decreases a.len(),
{
    if a.len() == 0 {
        b.len() > 0
    } else if b.len() == 0 {
        false
    } else if a[0] < b[0] {
        true
    } else if a[0] > b[0] {
        false
    } else {
        bytes_lt(a.drop_first(), b.drop_first())
    }
}

/// The bytes by which a key is ordered: its UTF-8 encoding.
pub open spec fn key_bytes(k: Seq<char>) -> Seq<u8> {
    vstd::utf8::encode_utf8(k)
}

/// `a` comes strictly before `b` in the store's key order.
pub open spec fn key_lt(a: Seq<char>, b: Seq<char>) -> bool {
    bytes_lt(key_bytes(a), key_bytes(b))
}

pub proof fn lemma_bytes_lt_irreflexive(a: Seq<u8>)
    ensures
        !bytes_lt(a, a),
    decreases a.len(),
{
    if a.len() > 0 {
        lemma_bytes_lt_irreflexive(a.drop_first());
    }
}

pub proof fn lemma_bytes_lt_asymmetric(a: Seq<u8>, b: Seq<u8>)
    requires
        bytes_lt(a, b),
    ensures
        !bytes_lt(b, a),
    decreases a.len(),
{
    if a.len() > 0 && b.len() > 0 && a[0] == b[0] {
        lemma_bytes_lt_asymmetric(a.drop_first(), b.drop_first());
    }
}

pub proof fn lemma_bytes_lt_transitive(a: Seq<u8>, b: Seq<u8>, c: Seq<u8>)
    requires
        bytes_lt(a, b),
        bytes_lt(b, c),
    ensures
        bytes_lt(a, c),
    decreases a.len(),
{
    if a.len() > 0 && b.len() > 0 && c.len() > 0 && a[0] == b[0] && b[0] == c[0] {
        lemma_bytes_lt_transitive(a.drop_first(), b.drop_first(), c.drop_first());
    }
}

pub proof fn lemma_bytes_lt_total(a: Seq<u8>, b: Seq<u8>)
    ensures
        a == b || bytes_lt(a, b) || bytes_lt(b, a),
    decreases a.len(),
{
    if a.len() == 0 && b.len() == 0 {
        assert(a =~= b);
    } else if a.len() > 0 && b.len() > 0 && a[0] == b[0] {
        lemma_bytes_lt_total(a.drop_first(), b.drop_first());
        if a.drop_first() == b.drop_first() {
            assert(a =~= seq![a[0]] + a.drop_first());
            assert(b =~= seq![b[0]] + b.drop_first());
        }
    }
}

/// Distinct keys have distinct encodings.
pub proof fn lemma_key_bytes_injective(a: Seq<char>, b: Seq<char>)
    requires
        key_bytes(a) == key_bytes(b),
    ensures
        a == b,
{
    vstd::utf8::encode_utf8_decode_utf8(a);
    vstd::utf8::encode_utf8_decode_utf8(b);
}

/// The key order is a strict total order on keys.
pub proof fn lemma_key_lt_total(a: Seq<char>, b: Seq<char>)
    ensures
        a == b || key_lt(a, b) || key_lt(b, a),
        !(key_lt(a, b) && key_lt(b, a)),
        !key_lt(a, a),
{
    lemma_bytes_lt_total(key_bytes(a), key_bytes(b));
    if key_bytes(a) == key_bytes(b) {
        lemma_key_bytes_injective(a, b);
    }
    if key_lt(a, b) {
        lemma_bytes_lt_asymmetric(key_bytes(a), key_bytes(b));
    }
    lemma_bytes_lt_irreflexive(key_bytes(a));
}

pub proof fn lemma_key_lt_transitive(a: Seq<char>, b: Seq<char>, c: Seq<char>)
    requires
        key_lt(a, b),
        key_lt(b, c),
    ensures
        key_lt(a, c),
{
    lemma_bytes_lt_transitive(key_bytes(a), key_bytes(b), key_bytes(c));
}

/// The outcome of comparing two keys.
#[derive(Clone, Copy, Debug, PartialEq, Eq)]
pub enum KeyOrder {
    Less,
    Equal,
    Greater,
}

/// Compares two keys byte by byte.
pub fn compare_keys(a: &str, b: &str) -> (r: KeyOrder)
    ensures
        r == KeyOrder::Less <==> key_lt(a@, b@),
        r == KeyOrder::Equal <==> a@ == b@,
        r == KeyOrder::Greater <==> key_lt(b@, a@),
{
    let x = a.as_bytes();
    let y = b.as_bytes();
    proof {
        lemma_key_lt_total(a@, b@);
    }
    let ghost xs = x@;
    let ghost ys = y@;
    assert(xs.skip(0) =~= xs);
    assert(ys.skip(0) =~= ys);
    let mut i: usize = 0;
    while i < x.len() && i < y.len()
        invariant
            xs == x@,
            ys == y@,
            xs == key_bytes(a@),
            ys == key_bytes(b@),
            i <= xs.len(),
            i <= ys.len(),
            xs.take(i as int) == ys.take(i as int),
            bytes_lt(xs, ys) == bytes_lt(xs.skip(i as int), ys.skip(i as int)),
            bytes_lt(ys, xs) == bytes_lt(ys.skip(i as int), xs.skip(i as int)),
        decreases xs.len() - i,
    {
        assert(xs.skip(i as int)[0] == xs[i as int]);
        assert(ys.skip(i as int)[0] == ys[i as int]);
        if x[i] < y[i] {
            assert(xs != ys);
            return KeyOrder::Less;
        }
        if x[i] > y[i] {
            assert(xs != ys);
            return KeyOrder::Greater;
        }
        assert(xs.skip(i as int).drop_first() =~= xs.skip(i + 1));
        assert(ys.skip(i as int).drop_first() =~= ys.skip(i + 1));
        assert(xs.take(i + 1) =~= xs.take(i as int).push(xs[i as int]));
        assert(ys.take(i + 1) =~= ys.take(i as int).push(ys[i as int]));
        i = i + 1;
    }
    if x.len() == y.len() {
        assert(xs =~= xs.take(i as int));
        assert(ys =~= ys.take(i as int));
        proof {
            lemma_key_bytes_injective(a@, b@);
        }
        KeyOrder::Equal
    } else if x.len() < y.len() {
        assert(xs.skip(i as int).len() == 0);
        assert(xs != ys);
        KeyOrder::Less
    } else {
        assert(ys.skip(i as int).len() == 0);
        assert(xs != ys);
        KeyOrder::Greater
    }
}

} // verus!
