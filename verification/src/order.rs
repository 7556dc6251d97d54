//! The ordinal order of texts: byte by byte over their UTF-8 form, a proper
//! prefix before its extensions. Sorting by it does not depend on any locale.

use vstd::prelude::*;
use vstd::relations::{sorted_by, total_ordering};
use vstd::seq_lib::lemma_sorted_unique;
use vstd::utf8::{encode_utf8, encode_utf8_decode_utf8};
use crate::text::{lemma_texts_take_next, texts};

verus! {

/// Whether `a` comes no later than `b` when both are compared from position `from` on.
pub open spec fn bytes_le_from(a: Seq<u8>, b: Seq<u8>, from: int) -> bool
    decreases a.len() - from,
{
    if from < 0 || from >= a.len() {
        true
    } else if from >= b.len() {
        false
    } else if a[from] != b[from] {
        a[from] < b[from]
    } else {
        bytes_le_from(a, b, from + 1)
    }
}

/// Lexicographic order on byte sequences.
pub open spec fn bytes_le(a: Seq<u8>, b: Seq<u8>) -> bool {
    bytes_le_from(a, b, 0)
}

/// Ordinal order on texts.
pub open spec fn text_le(a: Seq<char>, b: Seq<char>) -> bool {
    bytes_le(encode_utf8(a), encode_utf8(b))
}

/// The ordinal order as a relation.
pub open spec fn text_order() -> spec_fn(Seq<char>, Seq<char>) -> bool {
    |a: Seq<char>, b: Seq<char>| text_le(a, b)
}

/// The texts of `names` in ordinal order.
pub open spec fn sorted_names(names: Seq<Seq<char>>) -> Seq<Seq<char>> {
    names.sort_by(text_order())
}

proof fn lemma_le_reflexive(a: Seq<u8>, from: int)
    ensures
        bytes_le_from(a, a, from),
    decreases a.len() - from,
{
    if 0 <= from < a.len() {
        lemma_le_reflexive(a, from + 1);
    }
}

proof fn lemma_le_connected(a: Seq<u8>, b: Seq<u8>, from: int)
    ensures
        bytes_le_from(a, b, from) || bytes_le_from(b, a, from),
    decreases a.len() - from,
{
    if 0 <= from < a.len() && from < b.len() && a[from] == b[from] {
        lemma_le_connected(a, b, from + 1);
    }
}

proof fn lemma_le_transitive(a: Seq<u8>, b: Seq<u8>, c: Seq<u8>, from: int)
    requires
        bytes_le_from(a, b, from),
        bytes_le_from(b, c, from),
    ensures
        bytes_le_from(a, c, from),
    decreases a.len() - from,
{
    if 0 <= from < a.len() && a[from] == b[from] && b[from] == c[from] {
        lemma_le_transitive(a, b, c, from + 1);
    }
}

proof fn lemma_le_antisymmetric(a: Seq<u8>, b: Seq<u8>, from: int)
    requires
        0 <= from <= a.len(),
        from <= b.len(),
        bytes_le_from(a, b, from),
        bytes_le_from(b, a, from),
        forall|k: int| 0 <= k < from ==> a[k] == b[k],
    ensures
        a == b,
    decreases a.len() - from,
{
    if from < a.len() {
        lemma_le_antisymmetric(a, b, from + 1);
    }
}

/// Two sequences that agree before `from` compare as their remainders do.
proof fn lemma_le_skips_common_prefix(a: Seq<u8>, b: Seq<u8>, from: int)
    requires
        0 <= from <= a.len(),
        from <= b.len(),
        forall|k: int| 0 <= k < from ==> a[k] == b[k],
    ensures
        bytes_le(a, b) == bytes_le_from(a, b, from),
    decreases from,
{
    if from > 0 {
        lemma_le_skips_common_prefix(a, b, from - 1);
    }
}

/// The ordinal order is a total order on texts.
pub proof fn lemma_text_order_total()
    ensures
        total_ordering(text_order()),
{
    let r = text_order();
    assert forall|x: Seq<char>| #[trigger] r(x, x) by {
        lemma_le_reflexive(encode_utf8(x), 0);
    }
    assert forall|x: Seq<char>, y: Seq<char>| #[trigger] r(x, y) && #[trigger] r(y, x) implies x
        == y by {
        lemma_le_antisymmetric(encode_utf8(x), encode_utf8(y), 0);
        encode_utf8_decode_utf8(x);
        encode_utf8_decode_utf8(y);
    }
    assert forall|x: Seq<char>, y: Seq<char>, z: Seq<char>| #[trigger]
        r(x, y) && #[trigger] r(y, z) implies r(x, z) by {
        lemma_le_transitive(encode_utf8(x), encode_utf8(y), encode_utf8(z), 0);
    }
    assert forall|x: Seq<char>, y: Seq<char>| #[trigger] r(x, y) || #[trigger] r(y, x) by {
        lemma_le_connected(encode_utf8(x), encode_utf8(y), 0);
    }
}

/// A list in ordinal order that holds the same texts as `names`, each as often,
/// is the sorted form of `names`.
pub proof fn lemma_sorted_names_unique(names: Seq<Seq<char>>, sorted: Seq<Seq<char>>)
    requires
        sorted_by(sorted, text_order()),
        sorted.to_multiset() == names.to_multiset(),
    ensures
        sorted == sorted_names(names),
{
    lemma_text_order_total();
    names.lemma_sort_by_ensures(text_order());
    lemma_sorted_unique(sorted, sorted_names(names), text_order());
}

/// Lists that hold the same texts, each as often, have the same sorted form.
pub proof fn lemma_sorted_names_of_permutation(a: Seq<Seq<char>>, b: Seq<Seq<char>>)
    requires
        a.to_multiset() == b.to_multiset(),
    ensures
        sorted_names(a) == sorted_names(b),
{
    lemma_text_order_total();
    a.lemma_sort_by_ensures(text_order());
    lemma_sorted_names_unique(b, sorted_names(a));
}

/// Whether `a` comes no later than `b` in ordinal order.
pub fn ordinal_le(a: &str, b: &str) -> (le: bool)
    ensures
        le == text_le(a@, b@),
{
    let x = a.as_bytes();
    let y = b.as_bytes();
    let mut i: usize = 0;
    while i < x.len() && i < y.len()
        invariant
            i <= x.len(),
            i <= y.len(),
            x@ == encode_utf8(a@),
            y@ == encode_utf8(b@),
            forall|k: int| 0 <= k < i ==> x@[k] == y@[k],
        decreases x.len() - i,
    {
        if x[i] != y[i] {
            proof {
                lemma_le_skips_common_prefix(x@, y@, i as int);
            }
            return x[i] < y[i];
        }
        i = i + 1;
    }
    proof {
        lemma_le_skips_common_prefix(x@, y@, i as int);
    }
    i >= x.len()
}

/// Puts `name` into a list in ordinal order, after the items that come no later.
fn insert_in_order(sorted: &mut Vec<String>, name: String)
    requires
        sorted_by(texts(old(sorted)@), text_order()),
    ensures
        sorted_by(texts(final(sorted)@), text_order()),
        texts(final(sorted)@).to_multiset() == texts(old(sorted)@).to_multiset().insert(name@),
{
    let mut at: usize = 0;
    while at < sorted.len() && ordinal_le(sorted[at].as_str(), name.as_str())
        invariant
            at <= sorted.len(),
            forall|k: int| 0 <= k < at ==> text_le(#[trigger] sorted@[k]@, name@),
        decreases sorted.len() - at,
    {
        at = at + 1;
    }
    let ghost before = texts(sorted@);
    let ghost text = name@;
    sorted.insert(at, name);
    proof {
        let after = texts(sorted@);
        assert(after =~= before.insert(at as int, text));
        vstd::seq_lib::to_multiset_insert(before, at as int, text);
        lemma_text_order_total();
        assert forall|p: int, q: int| 0 <= p < q < after.len() implies #[trigger] text_order()(
            after[p],
            after[q],
        ) by {
            if p == at {
                assert(text_order()(before[at as int], text) || text_order()(
                    text,
                    before[at as int],
                ));
                if at < q - 1 {
                    assert(text_order()(before[at as int], before[q - 1]));
                }
            }
        }
    }
}

/// The strings of `names` in ordinal order. The input is left as it is.
pub fn sort_names(names: &Vec<String>) -> (sorted: Vec<String>)
    ensures
        texts(sorted@) == sorted_names(texts(names@)),
{
    let mut sorted: Vec<String> = Vec::new();
    let mut i: usize = 0;
    assert(texts(sorted@) =~= texts(names@.take(0)));
    while i < names.len()
        invariant
            i <= names.len(),
            sorted_by(texts(sorted@), text_order()),
            texts(sorted@).to_multiset() == texts(names@.take(i as int)).to_multiset(),
        decreases names.len() - i,
    {
        proof {
            lemma_texts_take_next(names@, i as int);
            vstd::seq_lib::to_multiset_build(texts(names@.take(i as int)), names@[i as int]@);
        }
        insert_in_order(&mut sorted, names[i].clone());
        i = i + 1;
    }
    proof {
        assert(names@.take(names.len() as int) =~= names@);
        lemma_sorted_names_unique(texts(names@), texts(sorted@));
    }
    sorted
}

} // verus!
