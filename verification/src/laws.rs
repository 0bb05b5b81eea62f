//! What holds of the picture of the store, whatever run of additions,
//! updates, removals and bills it goes through.

use crate::ledger::{
    archived, billed, created, item_rows_for, removed, ArchiveRow, BillView, ItemRow, Ledger, Line, ProductRow,
};
use crate::lemmas::{
    lemma_filter_drops_all, lemma_filter_keeps_all, lemma_lines_after_append, lemma_without_product,
};
use vstd::prelude::*;

verus! {

/// A run of stores in which each arises from the one before it by adding the
/// product of the same place in `added`.
pub open spec fn creation_run(states: Seq<Ledger>, added: Seq<ProductRow>) -> bool {
    &&& states.len() == added.len() + 1
    &&& forall|k: int|
        0 <= k < added.len() ==> created(
            #[trigger] states[k],
            states[k + 1],
            added[k].name,
            added[k].price,
            added[k].quantity,
        ) && added[k].id == states[k + 1].id_mark
}

/// After any run of additions the products are those that were there before,
/// followed by the added ones in the order of their addition; the new
/// identities ascend and lie above every identity handed out before the run.
pub proof fn law_creates_accumulate(states: Seq<Ledger>, added: Seq<ProductRow>)
    requires
        creation_run(states, added),
    ensures
        states.last().products == states[0].products + added,
        states.last().archive == states[0].archive,
        states.last().bills == states[0].bills,
        states.last().items == states[0].items,
        forall|i: int, j: int| 0 <= i < j < added.len() ==> (#[trigger] added[i]).id < (#[trigger] added[j]).id,
        forall|i: int| 0 <= i < added.len() ==> states[0].id_mark < (#[trigger] added[i]).id <= states.last().id_mark,
    decreases added.len(),
{
    if added.len() == 0 {
        assert(states[0].products + added =~= states[0].products);
    } else {
        let n = added.len() as int;
        let before = states.drop_last();
        let earlier = added.drop_last();
        assert forall|k: int| 0 <= k < earlier.len() implies created(
            #[trigger] before[k],
            before[k + 1],
            earlier[k].name,
            earlier[k].price,
            earlier[k].quantity,
        ) && earlier[k].id == before[k + 1].id_mark by {
            assert(before[k] == states[k]);
            assert(before[k + 1] == states[k + 1]);
        }
        law_creates_accumulate(before, earlier);
        assert(before.last() == states[n - 1]);
        assert(before[0] == states[0]);
        assert(created(states[n - 1], states[n], added[n - 1].name, added[n - 1].price, added[n - 1].quantity));
        assert(states.last() == states[n]);
        assert(states[n].products =~= states[0].products + added);
        assert forall|i: int, j: int| 0 <= i < j < added.len() implies (#[trigger] added[i]).id < (
        #[trigger] added[j]).id by {
            if j < n - 1 {
                assert(earlier[i].id < earlier[j].id);
            } else {
                assert(earlier[i].id <= before.last().id_mark);
            }
        }
        assert forall|i: int| 0 <= i < added.len() implies states[0].id_mark < (#[trigger] added[i]).id
            <= states.last().id_mark by {
            if i < n - 1 {
                assert(states[0].id_mark < earlier[i].id <= before.last().id_mark);
            }
        }
    }
}

/// On a store that was empty, a run of additions leaves exactly the added
/// products, in order.
pub proof fn law_creates_from_empty(states: Seq<Ledger>, added: Seq<ProductRow>)
    requires
        creation_run(states, added),
        states[0] == Ledger::empty(),
    ensures
        states.last().products == added,
        states.last().wf(),
    decreases added.len(),
{
    law_creates_accumulate(states, added);
    assert(Seq::<ProductRow>::empty() + added =~= added);
    law_run_keeps_wf(states, added);
}

/// A run of additions keeps a consistent store consistent.
pub proof fn law_run_keeps_wf(states: Seq<Ledger>, added: Seq<ProductRow>)
    requires
        creation_run(states, added),
        states[0].wf(),
    ensures
        states.last().wf(),
    decreases added.len(),
{
    if added.len() > 0 {
        let n = added.len() as int;
        let before = states.drop_last();
        let earlier = added.drop_last();
        assert forall|k: int| 0 <= k < earlier.len() implies created(
            #[trigger] before[k],
            before[k + 1],
            earlier[k].name,
            earlier[k].price,
            earlier[k].quantity,
        ) && earlier[k].id == before[k + 1].id_mark by {
            assert(before[k] == states[k]);
            assert(before[k + 1] == states[k + 1]);
        }
        law_run_keeps_wf(before, earlier);
        assert(before.last() == states[n - 1]);
        assert(created(states[n - 1], states[n], added[n - 1].name, added[n - 1].price, added[n - 1].quantity));
        law_created_keeps_wf(states[n - 1], states[n], added[n - 1].name, added[n - 1].price, added[n - 1].quantity);
    }
}

/// Adding a product keeps a consistent store consistent, and the new
/// product is the only one with its identity.
pub proof fn law_created_keeps_wf(before: Ledger, after: Ledger, name: Seq<char>, price: u64, quantity: int)
    requires
        before.wf(),
        created(before, after, name, price, quantity),
    ensures
        after.wf(),
        !before.has_product(after.id_mark),
        after.has_product(after.id_mark),
{
    let n = before.products.len() as int;
    assert(after.products[n].id == after.id_mark);
    assert forall|i: int| 0 <= i < after.archive.len() implies (#[trigger] after.archive[i]).id <= after.id_mark
        && !after.has_product(after.archive[i].id) by {
        assert(after.archive[i] == before.archive[i]);
        if after.has_product(after.archive[i].id) {
            let k = choose|k: int|
                0 <= k < after.products.len() && (#[trigger] after.products[k]).id == after.archive[i].id;
            if k < n {
                assert(before.products[k].id == before.archive[i].id);
                assert(before.has_product(before.archive[i].id));
            }
        }
    }
    assert forall|i: int| 0 <= i < after.items.len() implies after.has_bill((#[trigger] after.items[i]).bill_id) by {
        let b = before.items[i].bill_id;
        assert(before.has_bill(b));
        let k = choose|k: int| 0 <= k < before.bills.len() && (#[trigger] before.bills[k]).id == b;
        assert(after.bills[k].id == b);
    }
    if before.has_product(after.id_mark) {
        let k = choose|k: int| 0 <= k < before.products.len() && (#[trigger] before.products[k]).id == after.id_mark;
        assert(before.products[k].id <= before.id_mark);
    }
}

/// In a consistent store an identity names at most one product.
pub proof fn law_identity_names_one_product(l: Ledger, a: ProductRow, b: ProductRow)
    requires
        l.wf(),
        l.products.contains(a),
        l.products.contains(b),
        a.id == b.id,
    ensures
        a == b,
{
    let i = choose|i: int| 0 <= i < l.products.len() && l.products[i] == a;
    let j = choose|j: int| 0 <= j < l.products.len() && l.products[j] == b;
    if i < j {
        assert(l.products[i].id < l.products[j].id);
    } else if j < i {
        assert(l.products[j].id < l.products[i].id);
    }
}

/// An update of a product that does not exist changes nothing.
pub proof fn law_update_of_absent(l: Ledger, id: int, name: Seq<char>, price: u64, quantity: int)
    requires
        !l.has_product(id),
    ensures
        l.with_update(id, name, price, quantity) == l,
{
    let after = l.with_update(id, name, price, quantity);
    assert forall|i: int| 0 <= i < l.products.len() implies after.products[i] == l.products[i] by {
        if l.products[i].id == id {
            assert(l.has_product(id));
        }
    }
    assert(after.products =~= l.products);
}

/// An update replaces the three fields of the product with the given
/// identity, keeps every other product and every identity, and keeps a
/// consistent store consistent.
pub proof fn law_update_replaces(l: Ledger, id: int, name: Seq<char>, price: u64, quantity: int)
    requires
        l.wf(),
    ensures
        l.with_update(id, name, price, quantity).wf(),
        l.with_update(id, name, price, quantity).products.len() == l.products.len(),
        forall|i: int|
            0 <= i < l.products.len() ==> (#[trigger] l.with_update(id, name, price, quantity).products[i]) == (
            if l.products[i].id == id {
                ProductRow { id, name, price, quantity }
            } else {
                l.products[i]
            }),
{
    let after = l.with_update(id, name, price, quantity);
    assert forall|i: int| 0 <= i < after.products.len() implies (#[trigger] after.products[i]).id
        == l.products[i].id by {}
    assert forall|a: int| after.has_product(a) implies l.has_product(a) by {
        let k = choose|k: int| 0 <= k < after.products.len() && (#[trigger] after.products[k]).id == a;
        assert(l.products[k].id == a);
    }
    assert forall|i: int| 0 <= i < after.items.len() implies after.has_bill((#[trigger] after.items[i]).bill_id) by {
        let b = l.items[i].bill_id;
        assert(l.has_bill(b));
        let k = choose|k: int| 0 <= k < l.bills.len() && (#[trigger] l.bills[k]).id == b;
        assert(after.bills[k].id == b);
    }
}

/// A removal of a product that does not exist changes nothing: no archive
/// row is written.
pub proof fn law_delete_of_absent(before: Ledger, after: Ledger, id: int, deleted_at: Seq<char>)
    requires
        !before.has_product(id),
        removed(before, after, id, deleted_at),
    ensures
        after == before,
{
}

/// After the removal of a product `p`, no product has its identity, the
/// archive holds `p` as it stood, once, as its newest row, no other archive
/// row carries that identity, and the store is still consistent.
pub proof fn law_delete_archives_once(before: Ledger, after: Ledger, p: ProductRow, deleted_at: Seq<char>)
    requires
        before.wf(),
        before.products.contains(p),
        removed(before, after, p.id, deleted_at),
    ensures
        !after.has_product(p.id),
        after.archive == before.archive.push(archived(p, deleted_at)),
        after.archive.to_multiset().count(archived(p, deleted_at)) == 1,
        forall|r: ArchiveRow|
            r.id == p.id && #[trigger] after.archive.to_multiset().count(r) > 0 ==> r == archived(p, deleted_at),
        after.times_archived(p.id) == 1,
        forall|i: int|
            0 <= i < before.products.len() && (#[trigger] before.products[i]).id != p.id ==> after.products.contains(
                before.products[i],
            ),
        after.bills == before.bills,
        after.items == before.items,
        after.wf(),
{
    broadcast use vstd::seq_lib::group_to_multiset_ensures;

    let at_p = choose|i: int| 0 <= i < before.products.len() && before.products[i] == p;
    assert(before.products[at_p].id == p.id);
    assert(before.has_product(p.id));
    let q = choose|q: ProductRow|
        #![trigger before.products.contains(q)]
        before.products.contains(q) && q.id == p.id && after == before.with_archived(
            archived(q, deleted_at),
        ).without_product(p.id);
    let at_q = choose|i: int| 0 <= i < before.products.len() && before.products[i] == q;
    assert(at_q == at_p) by {
        if at_q < at_p {
            assert(before.products[at_q].id < before.products[at_p].id);
        } else if at_p < at_q {
            assert(before.products[at_p].id < before.products[at_q].id);
        }
    }
    let row = archived(p, deleted_at);
    let mid = before.with_archived(row);
    lemma_without_product(mid, p.id);
    assert(after.products == mid.without_product(p.id).products);
    assert(!after.has_product(p.id));
    // No earlier archive row carries the identity of a live product.
    assert forall|i: int| 0 <= i < before.archive.len() implies (#[trigger] before.archive[i]).id != p.id by {}
    assert(before.archive.to_multiset().count(row) == 0) by {
        if before.archive.to_multiset().count(row) > 0 {
            assert(before.archive.contains(row));
            let k = choose|k: int| 0 <= k < before.archive.len() && before.archive[k] == row;
            assert(before.archive[k].id == p.id);
        }
    }
    assert(after.archive.to_multiset() =~= before.archive.to_multiset().insert(row));
    assert forall|r: ArchiveRow| r.id == p.id && #[trigger] after.archive.to_multiset().count(r) > 0 implies r
        == row by {
        assert(after.archive.contains(r));
        let k = choose|k: int| 0 <= k < after.archive.len() && after.archive[k] == r;
        if k < before.archive.len() {
            assert(before.archive[k].id == p.id);
        }
    }
    assert(after.times_archived(p.id) == 1) by {
        let same = |r: ArchiveRow| r.id == p.id;
        reveal(Seq::filter);
        assert(after.archive.drop_last() =~= before.archive);
        lemma_filter_drops_all(before.archive, same);
    }
    assert forall|i: int| 0 <= i < after.archive.len() implies (#[trigger] after.archive[i]).id <= after.id_mark
        && !after.has_product(after.archive[i].id) by {
        if after.has_product(after.archive[i].id) {
            let k = choose|k: int|
                0 <= k < after.products.len() && (#[trigger] after.products[k]).id == after.archive[i].id;
            assert(before.products.contains(after.products[k]));
            let m = choose|m: int| 0 <= m < before.products.len() && before.products[m] == after.products[k];
            assert(before.products[m].id == after.archive[i].id);
            if i < before.archive.len() {
                assert(before.has_product(before.archive[i].id));
            }
        }
    }
    assert forall|i: int| 0 <= i < after.products.len() implies (#[trigger] after.products[i]).id <= after.id_mark by {
        assert(before.products.contains(after.products[i]));
        let m = choose|m: int| 0 <= m < before.products.len() && before.products[m] == after.products[i];
        assert(before.products[m].id <= before.id_mark);
    }
    assert forall|i: int| 0 <= i < after.items.len() implies after.has_bill((#[trigger] after.items[i]).bill_id) by {
        let b = before.items[i].bill_id;
        assert(before.has_bill(b));
        let k = choose|k: int| 0 <= k < before.bills.len() && (#[trigger] before.bills[k]).id == b;
        assert(after.bills[k].id == b);
    }
}

/// A removal never takes from the archive nor changes what is in it: the
/// rows that were there stay, in their places.
pub proof fn law_archive_only_grows(before: Ledger, after: Ledger, id: int, deleted_at: Seq<char>)
    requires
        removed(before, after, id, deleted_at),
    ensures
        before.archive.len() <= after.archive.len(),
        after.archive.take(before.archive.len() as int) == before.archive,
{
    if before.has_product(id) {
        let p = choose|p: ProductRow|
            #![trigger before.products.contains(p)]
            before.products.contains(p) && p.id == id && after == before.with_archived(
                archived(p, deleted_at),
            ).without_product(id);
        assert(after.archive == before.archive.push(archived(p, deleted_at)));
        assert(after.archive.take(before.archive.len() as int) =~= before.archive);
    } else {
        assert(after.archive.take(before.archive.len() as int) =~= before.archive);
    }
}

/// A removal keeps a consistent store consistent, whether the product was
/// there or not.
pub proof fn law_removed_keeps_wf(before: Ledger, after: Ledger, id: int, deleted_at: Seq<char>)
    requires
        before.wf(),
        removed(before, after, id, deleted_at),
    ensures
        after.wf(),
        !after.has_product(id),
{
    if before.has_product(id) {
        let p = choose|p: ProductRow|
            #![trigger before.products.contains(p)]
            before.products.contains(p) && p.id == id && after == before.with_archived(
                archived(p, deleted_at),
            ).without_product(id);
        law_delete_archives_once(before, after, p, deleted_at);
    }
}

/// A bill that was written reads back as it was given: its lines are the
/// given lines in their order, it is the first of the statement, with the
/// given total, and the bills that were there before follow it unchanged.
pub proof fn law_bill_reads_back(before: Ledger, after: Ledger, id: int, total: u64, lines: Seq<Line>)
    requires
        before.wf(),
        billed(before, after, id, total, lines),
    ensures
        after.wf(),
        after.lines_of(id) == lines,
        after.statement().len() == before.statement().len() + 1,
        after.statement()[0] == (BillView { id, date: after.bills.last().date, total, items: lines }),
        forall|k: int|
            0 <= k < before.statement().len() ==> #[trigger] after.statement()[k + 1] == before.statement()[k],
        after.products == before.products,
        after.archive == before.archive,
{
    let header = after.bills.last();
    let fresh = item_rows_for(id, lines);
    assert(after.bills == before.bills.push(header));
    assert(after.items == before.items + fresh);
    // No item of an earlier bill carries the new identity.
    assert forall|i: int| 0 <= i < before.items.len() implies (#[trigger] before.items[i]).bill_id != id by {
        let b = before.items[i].bill_id;
        assert(before.has_bill(b));
        let k = choose|k: int| 0 <= k < before.bills.len() && (#[trigger] before.bills[k]).id == b;
        assert(before.bills[k].id < id);
    }
    lemma_lines_after_append(before.items, fresh, id);
    assert(after.lines_of(id) =~= lines) by {
        let mine = |r: ItemRow| r.bill_id == id;
        lemma_filter_drops_all(before.items, mine);
        lemma_filter_keeps_all(fresh, mine);
        assert(Seq::<ItemRow>::empty() + fresh =~= fresh);
        assert(fresh.map_values(|r: ItemRow| r.line) =~= lines);
    }
    assert forall|k: int| 0 <= k < before.bills.len() implies after.lines_of((#[trigger] before.bills[k]).id)
        == before.lines_of(before.bills[k].id) by {
        let b = before.bills[k].id;
        let theirs = |r: ItemRow| r.bill_id == b;
        lemma_lines_after_append(before.items, fresh, b);
        lemma_filter_drops_all(fresh, theirs);
        assert(before.items.filter(theirs) + Seq::<ItemRow>::empty() =~= before.items.filter(theirs));
    }
    let n = before.bills.len() as int;
    assert(after.bills.reverse()[0] == header);
    assert forall|k: int| 0 <= k < before.statement().len() implies #[trigger] after.statement()[k + 1]
        == before.statement()[k] by {
        assert(after.bills.reverse()[k + 1] == before.bills[n - 1 - k]);
        assert(before.bills.reverse()[k] == before.bills[n - 1 - k]);
    }
    assert forall|i: int| 0 <= i < after.items.len() implies after.has_bill((#[trigger] after.items[i]).bill_id) by {
        if i < before.items.len() {
            let b = before.items[i].bill_id;
            assert(before.has_bill(b));
            let k = choose|k: int| 0 <= k < before.bills.len() && (#[trigger] before.bills[k]).id == b;
            assert(after.bills[k].id == b);
        } else {
            assert(after.items[i] == fresh[i - before.items.len()]);
            assert(after.bills[n].id == id);
        }
    }
    assert forall|i: int| 0 <= i < after.archive.len() implies (#[trigger] after.archive[i]).id <= after.id_mark
        && !after.has_product(after.archive[i].id) by {
        assert(!before.has_product(before.archive[i].id));
    }
}

/// A bill without items is a bill: it stands first in the statement with the
/// given total and no lines, and no item row is written.
pub proof fn law_empty_bill(before: Ledger, after: Ledger, id: int, total: u64)
    requires
        before.wf(),
        billed(before, after, id, total, Seq::<Line>::empty()),
    ensures
        after.items == before.items,
        after.statement()[0].items == Seq::<Line>::empty(),
        after.statement()[0].total == total,
{
    law_bill_reads_back(before, after, id, total, Seq::<Line>::empty());
    assert(before.items + item_rows_for(id, Seq::<Line>::empty()) =~= before.items);
}

/// Of two bills written one after the other, the second has the larger
/// identity, and the statement shows the second first and the first next.
pub proof fn law_bills_newest_first(
    start: Ledger,
    middle: Ledger,
    end: Ledger,
    first: int,
    second: int,
    first_total: u64,
    second_total: u64,
    first_lines: Seq<Line>,
    second_lines: Seq<Line>,
)
    requires
        billed(start, middle, first, first_total, first_lines),
        billed(middle, end, second, second_total, second_lines),
    ensures
        first < second,
        end.statement().len() == start.statement().len() + 2,
        end.statement()[0].id == second,
        end.statement()[1].id == first,
{
    let n = start.bills.len() as int;
    assert(middle.bills[n].id == first);
    assert(end.bills =~= start.bills.push(middle.bills.last()).push(end.bills.last()));
    assert(end.bills.reverse()[0] == end.bills[n + 1]);
    assert(end.bills.reverse()[1] == end.bills[n]);
}

} // verus!
