//! The order of texts.

use vstd::prelude::*;
use vstd::utf8::{encode_utf8, encode_utf8_decode_utf8};

verus! {

/// Whether byte string `a` comes before `b` in lexicographic order.
pub open spec fn bytes_before(a: Seq<u8>, b: Seq<u8>) -> bool
    decreases a.len(),
{
    if b.len() == 0 {
        false
    } else if a.len() == 0 {
        true
    } else if a[0] != b[0] {
        a[0] < b[0]
    } else {
        bytes_before(a.drop_first(), b.drop_first())
    }
}

/// Whether text `a` comes before `b`: texts are ordered by their UTF-8 bytes.
pub open spec fn before(a: Seq<char>, b: Seq<char>) -> bool {
    bytes_before(encode_utf8(a), encode_utf8(b))
}

proof fn lemma_bytes_irreflexive(a: Seq<u8>)
    ensures
        !bytes_before(a, a),
    decreases a.len(),
{
    if a.len() > 0 {
        lemma_bytes_irreflexive(a.drop_first());
    }
}

proof fn lemma_bytes_transitive(a: Seq<u8>, b: Seq<u8>, c: Seq<u8>)
    requires
        bytes_before(a, b),
        bytes_before(b, c),
    ensures
        bytes_before(a, c),
    decreases a.len(),
{
    if a.len() > 0 && a[0] == b[0] && b[0] == c[0] {
        lemma_bytes_transitive(a.drop_first(), b.drop_first(), c.drop_first());
    }
}

proof fn lemma_bytes_total(a: Seq<u8>, b: Seq<u8>)
    ensures
        a == b || bytes_before(a, b) || bytes_before(b, a),
    decreases a.len(),
{
    if a.len() > 0 && b.len() > 0 && a[0] == b[0] {
        lemma_bytes_total(a.drop_first(), b.drop_first());
        if a.drop_first() == b.drop_first() {
            assert(a =~= seq![a[0]] + a.drop_first());
            assert(b =~= seq![b[0]] + b.drop_first());
        }
    } else if a.len() == 0 && b.len() == 0 {
        assert(a =~= b);
    }
}

proof fn lemma_bytes_skip_equal(a: Seq<u8>, b: Seq<u8>, n: int)
    requires
        0 <= n <= a.len(),
        n <= b.len(),
        a.take(n) == b.take(n),
    ensures
        bytes_before(a, b) == bytes_before(a.skip(n), b.skip(n)),
    decreases n,
{
    if n == 0 {
        assert(a.skip(0) =~= a);
        assert(b.skip(0) =~= b);
    } else {
        assert(a[0] == a.take(n)[0]);
        assert(b[0] == b.take(n)[0]);
        assert(a.drop_first().take(n - 1) =~= a.take(n).drop_first());
        assert(b.drop_first().take(n - 1) =~= b.take(n).drop_first());
        lemma_bytes_skip_equal(a.drop_first(), b.drop_first(), n - 1);
        assert(a.drop_first().skip(n - 1) =~= a.skip(n));
        assert(b.drop_first().skip(n - 1) =~= b.skip(n));
    }
}

/// The order of texts is a strict total order.
pub proof fn law_before_is_a_total_order(a: Seq<char>, b: Seq<char>, c: Seq<char>)
    ensures
        !before(a, a),
        before(a, b) && before(b, c) ==> before(a, c),
        a == b || before(a, b) || before(b, a),
        before(a, b) ==> !before(b, a),
{
    lemma_bytes_irreflexive(encode_utf8(a));
    if before(a, b) && before(b, c) {
        lemma_bytes_transitive(encode_utf8(a), encode_utf8(b), encode_utf8(c));
    }
    if before(a, b) && before(b, a) {
        lemma_bytes_transitive(encode_utf8(a), encode_utf8(b), encode_utf8(a));
    }
    lemma_bytes_total(encode_utf8(a), encode_utf8(b));
    encode_utf8_decode_utf8(a);
    encode_utf8_decode_utf8(b);
}

/// Where one text stands to another in their order.
pub enum Place {
    Before,
    Same,
    After,
}

/// Finds out where `a` stands to `b`.
pub fn place(a: &str, b: &str) -> (place: Place)
    ensures
        match place {
            Place::Before => before(a@, b@),
            Place::Same => a@ == b@,
            Place::After => before(b@, a@),
        },
{
    let x = a.as_bytes();
    let y = b.as_bytes();
    let mut i: usize = 0;
    while i < x.len() && i < y.len() && x[i] == y[i]
        invariant
            i <= x@.len(),
            i <= y@.len(),
            x@.take(i as int) =~= y@.take(i as int),
        decreases x@.len() - i,
    {
        i = i + 1;
    }
    proof {
        lemma_bytes_skip_equal(x@, y@, i as int);
        lemma_bytes_skip_equal(y@, x@, i as int);
    }
    if i < x.len() {
        if i < y.len() {
            if x[i] < y[i] {
                Place::Before
            } else {
                Place::After
            }
        } else {
            Place::After
        }
    } else if i < y.len() {
        Place::Before
    } else {
        proof {
            assert(x@ =~= x@.take(i as int));
            assert(y@ =~= y@.take(i as int));
            encode_utf8_decode_utf8(a@);
            encode_utf8_decode_utf8(b@);
        }
        Place::Same
    }
}

proof fn lemma_bytes_differ_first(x: Seq<u8>, y: Seq<u8>)
    ensures
        bytes_before(x, y) <==> exists|n: int|
            0 <= n < y.len() && n <= x.len() && (#[trigger] x.take(n)) =~= y.take(n) && (n
                == x.len() || x[n] < y[n]),
    decreases x.len(),
{
    if bytes_before(x, y) {
        if x.len() == 0 || x[0] != y[0] {
            assert(x.take(0) =~= y.take(0));
        } else {
            let rest = x.drop_first();
            let other = y.drop_first();
            lemma_bytes_differ_first(rest, other);
            let n = choose|n: int|
                0 <= n < other.len() && n <= rest.len() && (#[trigger] rest.take(n)) =~= other.take(
                    n,
                ) && (n == rest.len() || rest[n] < other[n]);
            assert(x.take(n + 1) =~= seq![x[0]] + rest.take(n));
            assert(y.take(n + 1) =~= seq![y[0]] + other.take(n));
            assert(x.take(n + 1) =~= y.take(n + 1));
        }
    }
    if exists|n: int|
        0 <= n < y.len() && n <= x.len() && (#[trigger] x.take(n)) =~= y.take(n) && (n
            == x.len() || x[n] < y[n]) {
        let n = choose|n: int|
            0 <= n < y.len() && n <= x.len() && (#[trigger] x.take(n)) =~= y.take(n) && (n
                == x.len() || x[n] < y[n]);
        lemma_bytes_skip_equal(x, y, n);
    }
}

/// A text comes before another exactly where, in UTF-8, it is a proper start of the other, or has
/// the lower byte where they first differ.
pub proof fn law_texts_are_ordered_by_their_bytes(a: Seq<char>, b: Seq<char>)
    ensures
        ({
            let x = encode_utf8(a);
            let y = encode_utf8(b);
            before(a, b) <==> exists|n: int|
                0 <= n < y.len() && n <= x.len() && (#[trigger] x.take(n)) =~= y.take(n) && (n
                    == x.len() || x[n] < y[n])
        }),
{
    lemma_bytes_differ_first(encode_utf8(a), encode_utf8(b));
}

} // verus!
