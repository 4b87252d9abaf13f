//! Comparison of names: equality and the byte order of their UTF-8 text.

use vstd::prelude::*;
use vstd::utf8::{decode_utf8, encode_utf8, encode_utf8_decode_utf8};

verus! {

/// Outcome of comparing two byte strings.
#[derive(Debug, Clone, Copy, PartialEq, Eq, Structural)]
pub enum LexOrder {
    Less,
    Equal,
    Greater,
}

/// Lexicographic byte order: `a` comes before `b`.
pub open spec fn lex_less(a: Seq<u8>, b: Seq<u8>) -> bool {
    exists|i: int| #[trigger] lex_witness(a, b, i)
}

/// `a` and `b` agree on their first `i` bytes, and at `i` either `a` ends
/// while `b` goes on, or `a` has the smaller byte.
pub open spec fn lex_witness(a: Seq<u8>, b: Seq<u8>, i: int) -> bool {
    &&& 0 <= i <= a.len()
    &&& i <= b.len()
    &&& a.take(i) == b.take(i)
    &&& ((i == a.len() && i < b.len()) || (i < a.len() && i < b.len() && a[i] < b[i]))
}

proof fn lemma_common_prefix(a: Seq<u8>, b: Seq<u8>, n: int, k: int)
    requires
        0 <= k < n <= a.len(),
        n <= b.len(),
        a.take(n) == b.take(n),
    ensures
        a[k] == b[k],
{
    assert(a.take(n)[k] == a[k]);
    assert(b.take(n)[k] == b[k]);
}

/// No byte string comes before itself, and the order is asymmetric.
pub proof fn lemma_lex_asymmetric(a: Seq<u8>, b: Seq<u8>)
    ensures
        lex_less(a, b) ==> !lex_less(b, a),
        !lex_less(a, a),
{
    if lex_less(a, b) && lex_less(b, a) {
        let i = choose|i: int| lex_witness(a, b, i);
        let j = choose|j: int| lex_witness(b, a, j);
        if i < j {
            lemma_common_prefix(b, a, j, i);
        } else if j < i {
            lemma_common_prefix(a, b, i, j);
        }
    }
    if lex_less(a, a) {
        let i = choose|i: int| lex_witness(a, a, i);
    }
}

/// The byte order is transitive.
pub proof fn lemma_lex_transitive(a: Seq<u8>, b: Seq<u8>, c: Seq<u8>)
    requires
        lex_less(a, b),
        lex_less(b, c),
    ensures
        lex_less(a, c),
{
    let i = choose|i: int| lex_witness(a, b, i);
    let j = choose|j: int| lex_witness(b, c, j);
    if i < j {
        lemma_common_prefix(b, c, j, i);
        assert(a.take(i) =~= c.take(i)) by {
            assert forall|k: int| 0 <= k < i implies a.take(i)[k] == c.take(i)[k] by {
                lemma_common_prefix(a, b, i, k);
                lemma_common_prefix(b, c, j, k);
            }
        }
        assert(lex_witness(a, c, i));
    } else if j < i {
        lemma_common_prefix(a, b, i, j);
        assert(a.take(j) =~= c.take(j)) by {
            assert forall|k: int| 0 <= k < j implies a.take(j)[k] == c.take(j)[k] by {
                lemma_common_prefix(a, b, i, k);
                lemma_common_prefix(b, c, j, k);
            }
        }
        assert(lex_witness(a, c, j));
    } else {
        assert(a.take(i) =~= c.take(i)) by {
            assert forall|k: int| 0 <= k < i implies a.take(i)[k] == c.take(i)[k] by {
                lemma_common_prefix(a, b, i, k);
                lemma_common_prefix(b, c, j, k);
            }
        }
        assert(lex_witness(a, c, i));
    }
}

/// Compare two byte strings in lexicographic order.
pub fn lex_order(a: &[u8], b: &[u8]) -> (r: LexOrder)
    ensures
        (r is Less) == lex_less(a@, b@),
        (r is Equal) == (a@ == b@),
        (r is Greater) == lex_less(b@, a@),
{
    proof {
        lemma_lex_asymmetric(a@, b@);
        lemma_lex_asymmetric(b@, a@);
    }
    let mut i: usize = 0;
    assert(a@.take(0) =~= b@.take(0));
    while i < a.len() && i < b.len()
        invariant
            i <= a@.len(),
            i <= b@.len(),
            a@.take(i as int) == b@.take(i as int),
        decreases a@.len() - i,
    {
        if a[i] != b[i] {
            proof {
                lemma_lex_asymmetric(a@, b@);
                lemma_lex_asymmetric(b@, a@);
            }
            if a[i] < b[i] {
                assert(lex_witness(a@, b@, i as int));
                return LexOrder::Less;
            } else {
                assert(lex_witness(b@, a@, i as int));
                return LexOrder::Greater;
            }
        }
        assert(a@.take(i as int + 1) =~= a@.take(i as int).push(a@[i as int]));
        assert(b@.take(i as int + 1) =~= b@.take(i as int).push(b@[i as int]));
        i = i + 1;
    }
    if a.len() < b.len() {
        assert(lex_witness(a@, b@, i as int));
        LexOrder::Less
    } else if b.len() < a.len() {
        assert(lex_witness(b@, a@, i as int));
        LexOrder::Greater
    } else {
        assert(a@ =~= a@.take(i as int));
        assert(b@ =~= b@.take(i as int));
        LexOrder::Equal
    }
}

/// The UTF-8 bytes of a text.
pub open spec fn utf8_of(s: Seq<char>) -> Seq<u8> {
    encode_utf8(s)
}

/// Texts with the same UTF-8 bytes are the same text.
pub proof fn lemma_utf8_injective(a: Seq<char>, b: Seq<char>)
    ensures
        (utf8_of(a) == utf8_of(b)) == (a == b),
{
    encode_utf8_decode_utf8(a);
    encode_utf8_decode_utf8(b);
}

/// Compare two texts by the byte order of their UTF-8 encodings (the order
/// of `String`s).
pub fn text_order(a: &str, b: &str) -> (r: LexOrder)
    ensures
        (r is Less) == lex_less(utf8_of(a@), utf8_of(b@)),
        (r is Equal) == (a@ == b@),
        (r is Greater) == lex_less(utf8_of(b@), utf8_of(a@)),
{
    proof {
        lemma_utf8_injective(a@, b@);
    }
    lex_order(a.as_bytes(), b.as_bytes())
}

/// Whether two texts are equal.
pub fn text_eq(a: &str, b: &str) -> (r: bool)
    ensures
        r == (a@ == b@),
{
    match text_order(a, b) {
        LexOrder::Equal => true,
        _ => false,
    }
}

} // verus!
