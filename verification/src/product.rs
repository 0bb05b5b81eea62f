//! Products, and the archive of those that were removed.

use crate::amount::{is_money, Amount};
use crate::error::{reports_engine, ErrorKind, StoreError};
use crate::ledger::{text_le, ProductRow};
use crate::sqlite::{
    begin, clock_seconds, commit, delete_product_row, in_transaction, insert_archived, insert_product, local_text,
    rollback, select_archived, select_product, select_product_named, select_products, update_product_row, words_of,
};
use crate::text::{
    is_timestamp, lemma_text_le_antisymmetric, lemma_text_le_reflexive, lemma_text_le_transitive, text_not_after,
    timestamp_shaped,
};
use crate::unit::{RemovalAnswer, RemovalStatement, RemovalStep};
use rusqlite::Connection;
use vstd::pervasive::unreached;
use vstd::prelude::*;

verus! {

/// A product on hand.
#[derive(Debug)]
pub struct Product {
    pub id: i32,
    pub name: String,
    pub price: Amount,
    pub quantity: i32,
}

/// A product that was removed, as it stood at that moment. `serial` is the
/// number of its row in the archive: of two removals, the later has the
/// larger one.
#[derive(Debug)]
pub struct DeletedProduct {
    pub serial: i64,
    pub id: i32,
    pub name: String,
    pub price: Amount,
    pub quantity: i32,
    pub deleted_at: String,
}

impl View for Product {
    type V = ProductRow;

    open spec fn view(&self) -> ProductRow {
        ProductRow { id: self.id as int, name: self.name@, price: self.price@, quantity: self.quantity as int }
    }
}

/// Every product has a larger identity than each that stands before it: the
/// identities are distinct and ascend.
pub open spec fn ids_ascend(s: Seq<Product>) -> bool {
    forall|i: int, j: int| 0 <= i < j < s.len() ==> (#[trigger] s[i]).id < (#[trigger] s[j]).id
}

/// `later` may stand behind `earlier` in a listing: it was not removed at a
/// later time, and if at the same time, it was written before.
pub open spec fn may_follow(earlier: DeletedProduct, later: DeletedProduct) -> bool {
    text_le(later.deleted_at@, earlier.deleted_at@) && (later.deleted_at@ == earlier.deleted_at@ ==> later.serial
        < earlier.serial)
}

/// The newest removal stands first: no row stands behind one of an earlier
/// time, nor behind one of the same time that was written before it.
pub open spec fn listed_newest_first(s: Seq<DeletedProduct>) -> bool {
    forall|i: int, j: int| 0 <= i < j < s.len() ==> may_follow(#[trigger] s[i], #[trigger] s[j])
}

/// Where every row may follow the one just before it, every row may follow
/// every row before it.
pub proof fn lemma_listing_by_neighbours(s: Seq<DeletedProduct>, i: int, j: int)
    requires
        forall|k: int| 0 <= k < s.len() - 1 ==> may_follow(#[trigger] s[k], s[k + 1]),
        0 <= i < j < s.len(),
    ensures
        may_follow(s[i], s[j]),
    decreases j - i,
{
    assert(may_follow(s[j - 1], s[j - 1 + 1]));
    if i < j - 1 {
        lemma_listing_by_neighbours(s, i, j - 1);
        lemma_text_le_transitive(s[j].deleted_at@, s[j - 1].deleted_at@, s[i].deleted_at@);
        if s[j].deleted_at@ == s[i].deleted_at@ {
            lemma_text_le_antisymmetric(s[j - 1].deleted_at@, s[i].deleted_at@);
        }
    }
}

/// The values that a product may take: a price that is a finite number not
/// below zero, and a quantity that is not below zero.
pub open spec fn valid_product(price: u64, quantity: int) -> bool {
    is_money(price) && quantity >= 0
}

/// What a removal may have changed of the handle while the statement
/// `step` is under way, and that its failure is one of the store.
pub open spec fn removal_fits(step: RemovalStep, was_open: bool, is_open: bool) -> bool {
    match step {
        RemovalStep::Beginning => is_open == was_open,
        RemovalStep::RollingBack(e) => !was_open && reports_engine(e, true),
        RemovalStep::Ended(Ok(_)) => !was_open && !is_open,
        RemovalStep::Ended(Err(e)) => is_open == was_open && reports_engine(e, true),
        _ => !was_open,
    }
}

impl Product {
    /// What a write comes to: the number of rows that the store reports as
    /// changed is of no account, so a write that changed none has succeeded
    /// all the same; a failure is handed on as it is.
    pub fn written(answer: Result<usize, StoreError>) -> (r: Result<(), StoreError>)
        ensures
            match answer {
                Ok(_) => r is Ok,
                Err(e) => r == Err::<(), StoreError>(e),
            },
    {
        match answer {
            Ok(_) => Ok(()),
            Err(e) => Err(e),
        }
    }

    /// Adds a product. The store assigns its identity.
    ///
    /// A price or a quantity that a product may not take is turned away
    /// before the store is asked, and this is the only failure of the
    /// library's own: every other is a failure of the store, reported by its
    /// kind and in its words.
    pub fn create(conn: &mut Connection, name: String, price: Amount, quantity: i32) -> (r: Result<(), StoreError>)
        ensures
            !valid_product(price@, quantity as int) ==> (r matches Err(e) && e.kind == ErrorKind::Constraint)
                && *final(conn) == *old(conn),
            valid_product(price@, quantity as int) ==> (r matches Err(e) ==> reports_engine(e, false)),
            r matches Err(e) ==> e.kind != ErrorKind::TransactionFailure,
    {
        if !price.is_money() || quantity < 0 {
            return Err(StoreError::constraint("a product needs a price and a quantity that are not negative"));
        }
        Product::written(StoreError::report(insert_product(conn, name.as_str(), &price, quantity), false))
    }

    /// The products as the store listed them, if it listed them with
    /// distinct identities in ascending order; a listing in any other order
    /// is a failure of the store.
    pub fn listing(rows: Vec<Product>) -> (r: Result<Vec<Product>, StoreError>)
        ensures
            match r {
                Ok(v) => v == rows && ids_ascend(rows@),
                Err(e) => e.kind == ErrorKind::StorageUnavailable && !ids_ascend(rows@),
            },
    {
        let mut i: usize = 1;
        while i < rows.len()
            invariant
                1 <= i,
                forall|a: int, b: int| 0 <= a < b < i && b < rows@.len() ==> (#[trigger] rows@[a]).id < (
                #[trigger] rows@[b]).id,
            decreases rows@.len() - i,
        {
            if rows[i - 1].id >= rows[i].id {
                return Err(
                    StoreError {
                        kind: ErrorKind::StorageUnavailable,
                        message: "the store listed the products out of order".to_owned(),
                    },
                );
            }
            assert forall|a: int, b: int| 0 <= a < b < i + 1 && b < rows@.len() implies (#[trigger] rows@[a]).id < (
            #[trigger] rows@[b]).id by {
                if b == i && a < i - 1 {
                    assert(rows@[a].id < rows@[i - 1].id);
                }
            }
            i += 1;
        }
        Ok(rows)
    }

    /// All products, with distinct identities in ascending order. A
    /// failure is one of the store, or that the store listed the products
    /// in another order.
    pub fn get_all(conn: &Connection) -> (r: Result<Vec<Product>, StoreError>)
        ensures
            match r {
                Ok(v) => ids_ascend(v@),
                Err(e) => reports_engine(e, false) || e.kind == ErrorKind::StorageUnavailable,
            },
            r matches Err(e) ==> e.kind != ErrorKind::TransactionFailure,
    {
        match StoreError::report(select_products(conn), false) {
            Ok(rows) => Product::listing(rows),
            Err(e) => Err(e),
        }
    }

    /// Replaces the name, the price and the quantity of the product `id`.
    /// Where there is no such product the store changes nothing and the
    /// call succeeds all the same.
    ///
    /// A price or a quantity that a product may not take is turned away
    /// before the store is asked, and this is the only failure of the
    /// library's own: every other is a failure of the store, reported by its
    /// kind and in its words.
    pub fn update(conn: &mut Connection, id: i32, name: String, price: Amount, quantity: i32) -> (r: Result<
        (),
        StoreError,
    >)
        ensures
            !valid_product(price@, quantity as int) ==> (r matches Err(e) && e.kind == ErrorKind::Constraint)
                && *final(conn) == *old(conn),
            valid_product(price@, quantity as int) ==> (r matches Err(e) ==> reports_engine(e, false)),
            r matches Err(e) ==> e.kind != ErrorKind::TransactionFailure,
    {
        if !price.is_money() || quantity < 0 {
            return Err(StoreError::constraint("a product needs a price and a quantity that are not negative"));
        }
        Product::written(StoreError::report(update_product_row(conn, id, name.as_str(), &price, quantity), false))
    }

    /// Sends one statement of a removal to the store and takes its answer.
    /// A failure is a failure of the unit. Beginning, committing and rolling
    /// back change whether a transaction is open as their names say; a
    /// lookup finds only the product that was asked for.
    pub fn perform(conn: &mut Connection, statement: RemovalStatement) -> (answer: RemovalAnswer)
        ensures
            answer matches RemovalAnswer::Failed(e) ==> reports_engine(e, true),
            match statement {
                RemovalStatement::Begin => match answer {
                    RemovalAnswer::Done => !in_transaction(*old(conn)) && in_transaction(*final(conn)),
                    RemovalAnswer::Failed(_) => in_transaction(*final(conn)) == in_transaction(*old(conn)),
                    _ => false,
                },
                RemovalStatement::Lookup(id) => match answer {
                    RemovalAnswer::Found(p) => p.id == id,
                    RemovalAnswer::Done => false,
                    _ => true,
                },
                RemovalStatement::Commit => match answer {
                    RemovalAnswer::Done => !in_transaction(*final(conn)),
                    RemovalAnswer::Failed(_) => true,
                    _ => false,
                },
                RemovalStatement::Rollback => answer is Done && !in_transaction(*final(conn)),
                RemovalStatement::Nothing => answer is Done && *final(conn) == *old(conn),
                _ => answer is Done || answer is Failed,
            },
    {
        match statement {
            RemovalStatement::Begin => Product::removal_answer(begin(conn)),
            RemovalStatement::Lookup(id) => Product::lookup_answer(select_product(conn, id)),
            RemovalStatement::Archive(p, deleted_at) => Product::removal_answer(insert_archived(conn, p, deleted_at)),
            RemovalStatement::Delete(id) => Product::removal_answer(delete_product_row(conn, id)),
            RemovalStatement::Commit => Product::removal_answer(commit(conn)),
            RemovalStatement::Rollback => {
                rollback(conn);
                RemovalAnswer::Done
            },
            RemovalStatement::Nothing => RemovalAnswer::Done,
        }
    }

    /// Removes the product `id` and archives it as it stood, under the
    /// local time of the call in the shape `YYYY-MM-DD HH:MM:SS`. Where the
    /// clock gives no such time nothing is asked of the store. Otherwise
    /// the statements are those that [`RemovalStep`] names, in its order, as
    /// one transaction: begin, look up, archive if found, delete, commit,
    /// and a rollback after the first failure; the result is the one with
    /// which the steps end.
    pub fn delete(conn: &mut Connection, id: i32) -> (r: Result<(), StoreError>)
        ensures
            r matches Err(e) ==> reports_engine(e, true) || (e.kind == ErrorKind::StorageUnavailable && *final(conn)
                == *old(conn)),
            r matches Err(e) ==> e.kind == ErrorKind::TransactionFailure || e.kind == ErrorKind::StorageUnavailable,
            in_transaction(*final(conn)) == in_transaction(*old(conn)),
            r is Ok ==> !in_transaction(*final(conn)),
    {
        let now = match Product::removal_time(Product::local_time(clock_seconds())) {
            Some(now) => now,
            None => {
                return Err(
                    StoreError {
                        kind: ErrorKind::StorageUnavailable,
                        message: "the clock gives no local time".to_owned(),
                    },
                );
            },
        };
        let mut step = RemovalStep::Beginning;
        while !step.is_ended()
            invariant
                removal_fits(step, in_transaction(*old(conn)), in_transaction(*conn)),
            decreases step.rank(),
        {
            let answer = Product::perform(conn, step.statement(id, now.as_str()));
            step = step.after(answer);
        }
        match step.result() {
            Some(r) => r,
            None => unreached(),
        }
    }

    /// The local time of a reading of the clock, as a text; none where the
    /// clock gave no reading.
    pub fn local_time(reading: Option<u64>) -> (r: Option<String>)
        ensures
            reading is None ==> r is None,
    {
        match reading {
            Some(seconds) => local_text(seconds),
            None => None,
        }
    }

    /// The time under which a removal is archived: what the clock gave, if
    /// it gave a text in the shape `YYYY-MM-DD HH:MM:SS`.
    pub fn removal_time(clock: Option<String>) -> (r: Option<String>)
        ensures
            match r {
                Some(now) => clock == Some(now) && timestamp_shaped(now@),
                None => clock matches Some(t) ==> !timestamp_shaped(t@),
            },
    {
        match clock {
            Some(text) => if is_timestamp(text.as_str()) {
                Some(text)
            } else {
                None
            },
            None => None,
        }
    }

    /// Removes the product `id` and archives it as it stood, under the time
    /// `deleted_at`, by the statements that [`RemovalStep`] names, as
    /// [`Product::delete`] does.
    ///
    /// A time that is not in the shape `YYYY-MM-DD HH:MM:SS` is turned away
    /// before the store is asked.
    pub fn delete_at(conn: &mut Connection, id: i32, deleted_at: &str) -> (r: Result<(), StoreError>)
        ensures
            !timestamp_shaped(deleted_at@) ==> (r matches Err(e) && e.kind == ErrorKind::Constraint) && *final(conn)
                == *old(conn),
            timestamp_shaped(deleted_at@) ==> (r matches Err(e) ==> reports_engine(e, true) && e.kind
                == ErrorKind::TransactionFailure),
            in_transaction(*final(conn)) == in_transaction(*old(conn)),
            r is Ok ==> !in_transaction(*final(conn)),
    {
        if !is_timestamp(deleted_at) {
            return Err(StoreError::constraint("a removal needs a time in the shape YYYY-MM-DD HH:MM:SS"));
        }
        let mut step = RemovalStep::Beginning;
        while !step.is_ended()
            invariant
                removal_fits(step, in_transaction(*old(conn)), in_transaction(*conn)),
            decreases step.rank(),
        {
            let answer = Product::perform(conn, step.statement(id, deleted_at));
            step = step.after(answer);
        }
        match step.result() {
            Some(r) => r,
            None => unreached(),
        }
    }

    /// The answer of the store to a statement of a removal, as the machine
    /// takes it.
    pub fn removal_answer<T>(answer: Result<T, rusqlite::Error>) -> (r: RemovalAnswer)
        ensures
            match answer {
                Ok(_) => r is Done,
                Err(cause) => r matches RemovalAnswer::Failed(e) && e.kind == ErrorKind::TransactionFailure
                    && e.message@ == words_of(cause) && reports_engine(e, true),
            },
    {
        match answer {
            Ok(_) => RemovalAnswer::Done,
            Err(e) => RemovalAnswer::Failed(StoreError::from_engine(&e, true)),
        }
    }

    /// The answer of the store to the lookup of a removal, as the machine
    /// takes it.
    pub fn lookup_answer(answer: Result<Option<Product>, rusqlite::Error>) -> (r: RemovalAnswer)
        ensures
            match answer {
                Ok(Some(p)) => r == RemovalAnswer::Found(p),
                Ok(None) => r is Missing,
                Err(cause) => r matches RemovalAnswer::Failed(e) && e.kind == ErrorKind::TransactionFailure
                    && e.message@ == words_of(cause) && reports_engine(e, true),
            },
    {
        match answer {
            Ok(Some(p)) => RemovalAnswer::Found(p),
            Ok(None) => RemovalAnswer::Missing,
            Err(e) => RemovalAnswer::Failed(StoreError::from_engine(&e, true)),
        }
    }

    /// The product `id` if its name is exactly `name`, letter for letter.
    pub fn get_by_id_and_name(conn: &Connection, id: i32, name: &str) -> (r: Result<Option<Product>, StoreError>)
        ensures
            match r {
                Ok(Some(p)) => p.id == id && p.name@ == name@,
                Ok(None) => true,
                Err(e) => reports_engine(e, false),
            },
    {
        StoreError::report(select_product_named(conn, id, name), false)
    }

    /// The product `id`, or `None` where the store finds none.
    pub fn get_by_id(conn: &Connection, id: i32) -> (r: Result<Option<Product>, StoreError>)
        ensures
            match r {
                Ok(Some(p)) => p.id == id,
                Ok(None) => true,
                Err(e) => reports_engine(e, false),
            },
    {
        StoreError::report(select_product(conn, id), false)
    }
}

impl DeletedProduct {
    /// Whether `later` may stand behind `self` in a listing.
    pub fn precedes(&self, later: &DeletedProduct) -> (b: bool)
        ensures
            b == may_follow(*self, *later),
    {
        let not_later = text_not_after(later.deleted_at.as_str(), self.deleted_at.as_str());
        let not_earlier = text_not_after(self.deleted_at.as_str(), later.deleted_at.as_str());
        proof {
            if later.deleted_at@ == self.deleted_at@ {
                lemma_text_le_reflexive(self.deleted_at@);
            }
            if not_later && not_earlier {
                lemma_text_le_antisymmetric(later.deleted_at@, self.deleted_at@);
            }
        }
        not_later && (!not_earlier || later.serial < self.serial)
    }

    /// The rows of the archive as the store listed them, if it listed the
    /// newest removal first; a listing in any other order is a failure of
    /// the store.
    pub fn listing(rows: Vec<DeletedProduct>) -> (r: Result<Vec<DeletedProduct>, StoreError>)
        ensures
            match r {
                Ok(v) => v == rows && listed_newest_first(rows@),
                Err(e) => e.kind == ErrorKind::StorageUnavailable && !listed_newest_first(rows@),
            },
    {
        let mut i: usize = 1;
        while i < rows.len()
            invariant
                1 <= i,
                forall|k: int| 0 <= k < i - 1 && k < rows@.len() - 1 ==> may_follow(#[trigger] rows@[k], rows@[k + 1]),
            decreases rows@.len() - i,
        {
            if !rows[i - 1].precedes(&rows[i]) {
                return Err(
                    StoreError {
                        kind: ErrorKind::StorageUnavailable,
                        message: "the store listed the archive out of order".to_owned(),
                    },
                );
            }
            i += 1;
        }
        proof {
            assert forall|a: int, b: int| 0 <= a < b < rows@.len() implies may_follow(
                #[trigger] rows@[a],
                #[trigger] rows@[b],
            ) by {
                lemma_listing_by_neighbours(rows@, a, b);
            }
        }
        Ok(rows)
    }

    /// The archive of removed products, the newest removal first: by the
    /// time of removal and, among removals of the same second, the one that
    /// was written later first.
    pub fn get_all(conn: &Connection) -> (r: Result<Vec<DeletedProduct>, StoreError>)
        ensures
            match r {
                Ok(v) => listed_newest_first(v@),
                Err(e) => reports_engine(e, false) || e.kind == ErrorKind::StorageUnavailable,
            },
            r matches Err(e) ==> e.kind != ErrorKind::TransactionFailure,
    {
        match StoreError::report(select_archived(conn), false) {
            Ok(rows) => DeletedProduct::listing(rows),
            Err(e) => Err(e),
        }
    }
}

} // verus!
