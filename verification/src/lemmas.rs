//! Small facts about filtered sequences that the laws rest on.

use crate::ledger::{ItemRow, Ledger, ProductRow};
use vstd::prelude::*;

verus! {

/// A filter that every element passes changes nothing.
pub proof fn lemma_filter_keeps_all<A>(s: Seq<A>, keep: spec_fn(A) -> bool)
    requires
        forall|i: int| 0 <= i < s.len() ==> keep(#[trigger] s[i]),
    ensures
        s.filter(keep) == s,
    decreases s.len(),
{
    reveal(Seq::filter);
    if s.len() > 0 {
        lemma_filter_keeps_all(s.drop_last(), keep);
        assert(s.drop_last().push(s.last()) =~= s);
    }
}

/// A filter that no element passes leaves nothing.
pub proof fn lemma_filter_drops_all<A>(s: Seq<A>, keep: spec_fn(A) -> bool)
    requires
        forall|i: int| 0 <= i < s.len() ==> !keep(#[trigger] s[i]),
    ensures
        s.filter(keep) == Seq::<A>::empty(),
    decreases s.len(),
{
    reveal(Seq::filter);
    if s.len() > 0 {
        lemma_filter_drops_all(s.drop_last(), keep);
    }
}

/// A relation from which every row with the identity `id` is taken keeps all
/// its rows where none has that identity.
pub proof fn lemma_absent_product_stays_out(l: Ledger, id: int)
    requires
        !l.has_product(id),
    ensures
        l.without_product(id) == l,
{
    let keep = |r: ProductRow| r.id != id;
    assert forall|i: int| 0 <= i < l.products.len() implies keep(#[trigger] l.products[i]) by {
        if l.products[i].id == id {
            assert(l.has_product(id));
        }
    }
    lemma_filter_keeps_all(l.products, keep);
}

/// The products that are left when those of one identity are taken out are
/// products that were there, still in ascending order.
pub proof fn lemma_without_product(l: Ledger, id: int)
    requires
        forall|i: int, j: int|
            0 <= i < j < l.products.len() ==> (#[trigger] l.products[i]).id < (#[trigger] l.products[j]).id,
    ensures
        forall|i: int, j: int|
            0 <= i < j < l.without_product(id).products.len() ==> (#[trigger] l.without_product(id).products[i]).id < (
            #[trigger] l.without_product(id).products[j]).id,
        forall|i: int|
            0 <= i < l.without_product(id).products.len() ==> (#[trigger] l.without_product(id).products[i]).id != id
                && l.products.contains(l.without_product(id).products[i]),
        forall|i: int|
            0 <= i < l.products.len() && (#[trigger] l.products[i]).id != id ==> l.without_product(
                id,
            ).products.contains(l.products[i]),
    decreases l.products.len(),
{
    reveal(Seq::filter);
    let keep = |r: ProductRow| r.id != id;
    let rest = l.without_product(id).products;
    if l.products.len() > 0 {
        let shorter = Ledger { products: l.products.drop_last(), ..l };
        lemma_without_product(shorter, id);
        let last = l.products.last();
        let kept = shorter.without_product(id).products;
        assert(kept == l.products.drop_last().filter(keep));
        assert(rest == if keep(last) { kept.push(last) } else { kept });
        assert forall|i: int| 0 <= i < rest.len() implies (#[trigger] rest[i]).id != id && l.products.contains(
            rest[i],
        ) by {
            if i < kept.len() {
                assert(shorter.products.contains(kept[i]));
                let k = choose|k: int| 0 <= k < shorter.products.len() && shorter.products[k] == kept[i];
                assert(l.products[k] == kept[i]);
            } else {
                assert(l.products[l.products.len() - 1] == last);
            }
        }
        assert forall|i: int, j: int| 0 <= i < j < rest.len() implies (#[trigger] rest[i]).id < (
        #[trigger] rest[j]).id by {
            if j < kept.len() {
                assert(kept[i].id < kept[j].id);
            } else {
                assert(shorter.products.contains(kept[i]));
                let k = choose|k: int| 0 <= k < shorter.products.len() && shorter.products[k] == kept[i];
                assert(l.products[k].id < l.products[l.products.len() - 1].id);
            }
        }
        assert forall|i: int| 0 <= i < l.products.len() && (#[trigger] l.products[i]).id != id implies rest.contains(
            l.products[i],
        ) by {
            if i < l.products.len() - 1 {
                assert(shorter.products[i] == l.products[i]);
                assert(kept.contains(l.products[i]));
                let k = choose|k: int| 0 <= k < kept.len() && kept[k] == l.products[i];
                assert(rest[k] == l.products[i]);
            } else {
                assert(rest[rest.len() - 1] == l.products[i]);
            }
        }
    }
}

/// The items of one bill among two runs of items written one after the
/// other are those of the first run followed by those of the second.
pub proof fn lemma_lines_after_append(first: Seq<ItemRow>, second: Seq<ItemRow>, bill_id: int)
    ensures
        (first + second).filter(|r: ItemRow| r.bill_id == bill_id) == first.filter(|r: ItemRow| r.bill_id == bill_id)
            + second.filter(|r: ItemRow| r.bill_id == bill_id),
{
    Seq::filter_distributes_over_add(first, second, |r: ItemRow| r.bill_id == bill_id);
}

} // verus!
