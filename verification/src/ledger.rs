//! The mathematical picture of the store: four relations, and what an
//! addition, an update, a removal and a bill make of them. The engine is
//! not proved to follow the picture; the units of [`crate::unit`] are
//! proved right for every run in which it does.

use vstd::prelude::*;

verus! {

/// A row of the products relation. `price` is the bit pattern of the REAL.
pub struct ProductRow {
    pub id: int,
    pub name: Seq<char>,
    pub price: u64,
    pub quantity: int,
}

/// A row of the archive of removed products: the product as it stood when it
/// was removed, and the time of removal.
pub struct ArchiveRow {
    pub id: int,
    pub name: Seq<char>,
    pub price: u64,
    pub quantity: int,
    pub deleted_at: Seq<char>,
}

/// The header row of a bill.
pub struct BillRow {
    pub id: int,
    pub date: Seq<char>,
    pub total: u64,
}

/// One line of a bill: the name and the price are copies taken at the time of
/// sale, not references to a product.
pub struct Line {
    pub product_name: Seq<char>,
    pub quantity: int,
    pub price: u64,
}

/// A row of the bill items relation: a line and the bill that owns it.
pub struct ItemRow {
    pub bill_id: int,
    pub line: Line,
}

/// A bill together with its lines, as a reader sees it.
pub struct BillView {
    pub id: int,
    pub date: Seq<char>,
    pub total: u64,
    pub items: Seq<Line>,
}

/// The four relations. `products` and `bills` are in ascending order of
/// identity, `archive` and `items` in the order in which the rows were
/// written. `id_mark` is the largest identity that the products relation has
/// ever handed out.
pub struct Ledger {
    pub products: Seq<ProductRow>,
    pub id_mark: int,
    pub archive: Seq<ArchiveRow>,
    pub bills: Seq<BillRow>,
    pub items: Seq<ItemRow>,
}

/// The archive row that keeps `p` as removed at `deleted_at`.
pub open spec fn archived(p: ProductRow, deleted_at: Seq<char>) -> ArchiveRow {
    ArchiveRow { id: p.id, name: p.name, price: p.price, quantity: p.quantity, deleted_at }
}

/// The rows that `lines` become when they are written for the bill `bill_id`.
pub open spec fn item_rows_for(bill_id: int, lines: Seq<Line>) -> Seq<ItemRow> {
    lines.map_values(|line: Line| ItemRow { bill_id, line })
}

/// Lexicographic order of two texts by code point, which is the order of
/// their UTF-8 encodings byte by byte.
pub open spec fn text_le(a: Seq<char>, b: Seq<char>) -> bool
    decreases a.len(),
{
    if a.len() == 0 {
        true
    } else if b.len() == 0 {
        false
    } else if a[0] != b[0] {
        (a[0] as u32) < (b[0] as u32)
    } else {
        text_le(a.drop_first(), b.drop_first())
    }
}

impl Ledger {
    /// A store in which nothing has been written yet.
    pub open spec fn empty() -> Ledger {
        Ledger { products: Seq::empty(), id_mark: 0, archive: Seq::empty(), bills: Seq::empty(), items: Seq::empty() }
    }

    pub open spec fn has_product(self, id: int) -> bool {
        exists|i: int| 0 <= i < self.products.len() && (#[trigger] self.products[i]).id == id
    }

    pub open spec fn has_bill(self, id: int) -> bool {
        exists|i: int| 0 <= i < self.bills.len() && (#[trigger] self.bills[i]).id == id
    }

    /// The consistency that every operation of the library keeps: identities
    /// are unique and ascending, none exceeds the mark, no archived identity is
    /// still live, and every item belongs to a bill.
    pub open spec fn wf(self) -> bool {
        &&& forall|i: int, j: int|
            0 <= i < j < self.products.len() ==> (#[trigger] self.products[i]).id < (#[trigger] self.products[j]).id
        &&& forall|i: int| 0 <= i < self.products.len() ==> (#[trigger] self.products[i]).id <= self.id_mark
        &&& forall|i: int|
            0 <= i < self.archive.len() ==> (#[trigger] self.archive[i]).id <= self.id_mark && !self.has_product(
                self.archive[i].id,
            )
        &&& forall|i: int, j: int|
            0 <= i < j < self.bills.len() ==> (#[trigger] self.bills[i]).id < (#[trigger] self.bills[j]).id
        &&& forall|i: int| 0 <= i < self.items.len() ==> self.has_bill((#[trigger] self.items[i]).bill_id)
    }

    /// The store after `row` was added to the products; its identity becomes
    /// the mark.
    pub open spec fn with_product(self, row: ProductRow) -> Ledger {
        Ledger { products: self.products.push(row), id_mark: row.id, ..self }
    }

    /// The store after the three mutable fields of every product with
    /// identity `id` were replaced.
    pub open spec fn with_update(self, id: int, name: Seq<char>, price: u64, quantity: int) -> Ledger {
        Ledger {
            products: self.products.map_values(
                |r: ProductRow|
                    if r.id == id {
                        ProductRow { id, name, price, quantity }
                    } else {
                        r
                    },
            ),
            ..self
        }
    }

    /// The store after every product with identity `id` was removed.
    pub open spec fn without_product(self, id: int) -> Ledger {
        Ledger { products: self.products.filter(|r: ProductRow| r.id != id), ..self }
    }

    /// The store after `row` was appended to the archive.
    pub open spec fn with_archived(self, row: ArchiveRow) -> Ledger {
        Ledger { archive: self.archive.push(row), ..self }
    }

    /// The store after the header `row` was added to the bills.
    pub open spec fn with_bill(self, row: BillRow) -> Ledger {
        Ledger { bills: self.bills.push(row), ..self }
    }

    /// The store after `row` was appended to the bill items.
    pub open spec fn with_item(self, row: ItemRow) -> Ledger {
        Ledger { items: self.items.push(row), ..self }
    }

    /// The store after `lines` were appended, in order, for the bill
    /// `bill_id`.
    pub open spec fn with_lines(self, bill_id: int, lines: Seq<Line>) -> Ledger {
        Ledger { items: self.items + item_rows_for(bill_id, lines), ..self }
    }

    /// The lines of the bill `bill_id`, in the order in which they were
    /// written.
    pub open spec fn lines_of(self, bill_id: int) -> Seq<Line> {
        self.items.filter(|r: ItemRow| r.bill_id == bill_id).map_values(|r: ItemRow| r.line)
    }

    /// The bill that the header `row` and its lines make.
    pub open spec fn bill_view(self, row: BillRow) -> BillView {
        BillView { id: row.id, date: row.date, total: row.total, items: self.lines_of(row.id) }
    }

    /// All bills with their lines, the newest first.
    pub open spec fn statement(self) -> Seq<BillView> {
        self.bills.reverse().map_values(|row: BillRow| self.bill_view(row))
    }

    /// How many archive rows carry the identity `id`.
    pub open spec fn times_archived(self, id: int) -> nat {
        self.archive.filter(|r: ArchiveRow| r.id == id).len()
    }
}

/// `after` is `before` with one more product of the given fields, under an
/// identity that is larger than any handed out before.
pub open spec fn created(before: Ledger, after: Ledger, name: Seq<char>, price: u64, quantity: int) -> bool {
    &&& after.id_mark > before.id_mark
    &&& after == before.with_product(ProductRow { id: after.id_mark, name, price, quantity })
}

/// `after` is `before` once the product `id` was removed with its snapshot
/// archived under `deleted_at`; where `before` has no such product the two
/// are the same.
pub open spec fn removed(before: Ledger, after: Ledger, id: int, deleted_at: Seq<char>) -> bool {
    if before.has_product(id) {
        exists|p: ProductRow|
            #![trigger before.products.contains(p)]
            before.products.contains(p) && p.id == id && after == before.with_archived(
                archived(p, deleted_at),
            ).without_product(id)
    } else {
        after == before
    }
}

/// `after` is `before` with one more bill: a header with the identity `id`,
/// larger than that of any earlier bill, a date that the store assigned and
/// the given total, and the given lines in their order.
pub open spec fn billed(before: Ledger, after: Ledger, id: int, total: u64, lines: Seq<Line>) -> bool {
    &&& after.bills.len() == before.bills.len() + 1
    &&& after.bills.last().id == id
    &&& after.bills.last().total == total
    &&& forall|i: int| 0 <= i < before.bills.len() ==> (#[trigger] before.bills[i]).id < id
    &&& after == before.with_bill(after.bills.last()).with_lines(id, lines)
}

} // verus!
