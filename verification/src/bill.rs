//! Bills and their line items.

use crate::amount::{is_money, Amount};
use crate::error::{reports_engine, ErrorKind, StoreError};
use crate::ledger::{BillRow, BillView, Line};
use crate::sqlite::{
    begin, commit, in_transaction, insert_bill, insert_item, plus, product_of, rollback, select_bills,
    select_items, sum_of, times, words_of,
};
use crate::unit::{BillingAnswer, BillingStatement, BillingStep};
use rusqlite::Connection;
use vstd::pervasive::unreached;
use vstd::prelude::*;

verus! {

/// One line of a bill. The name and the price are copies taken at the time
/// of sale.
#[derive(Debug)]
pub struct BillItem {
    pub product_name: String,
    pub quantity: i32,
    pub price_per_item: Amount,
}

/// A bill with its line items.
#[derive(Debug)]
pub struct Bill {
    pub id: i32,
    pub date: String,
    pub total: Amount,
    pub items: Vec<BillItem>,
}

impl View for BillItem {
    type V = Line;

    open spec fn view(&self) -> Line {
        Line { product_name: self.product_name@, quantity: self.quantity as int, price: self.price_per_item@ }
    }
}

/// The lines that a list of items stands for.
pub open spec fn line_views(s: Seq<BillItem>) -> Seq<Line> {
    s.map_values(|item: BillItem| item@)
}

impl View for Bill {
    type V = BillView;

    open spec fn view(&self) -> BillView {
        BillView { id: self.id as int, date: self.date@, total: self.total@, items: line_views(self.items@) }
    }
}

impl Bill {
    /// The header row of the bill.
    pub open spec fn header(self) -> BillRow {
        BillRow { id: self.id as int, date: self.date@, total: self.total@ }
    }
}

/// The header rows that a list of bills stands for.
pub open spec fn bill_headers(s: Seq<Bill>) -> Seq<BillRow> {
    s.map_values(|b: Bill| b.header())
}

/// Every bill has a smaller identity than each that stands before it: the
/// identities are distinct and descend.
pub open spec fn ids_descend(s: Seq<Bill>) -> bool {
    forall|i: int, j: int| 0 <= i < j < s.len() ==> (#[trigger] s[i]).id > (#[trigger] s[j]).id
}

/// A line that a bill may hold: a quantity above zero and a price that is a
/// finite number not below zero.
pub open spec fn valid_line(line: Line) -> bool {
    line.quantity > 0 && is_money(line.price)
}

/// Lines that a bill may hold.
pub open spec fn valid_lines(lines: Seq<Line>) -> bool {
    forall|i: int| 0 <= i < lines.len() ==> valid_line(#[trigger] lines[i])
}

/// A bill that may be written: every line may be held, and the total is a
/// finite number not below zero.
pub open spec fn valid_bill(lines: Seq<Line>, total: u64) -> bool {
    is_money(total) && valid_lines(lines)
}

/// The total of a bill: starting from zero, the product of quantity and
/// price of each line is added in the order of the lines, both in the
/// engine's doubles.
pub open spec fn total_of(lines: Seq<Line>) -> u64
    decreases lines.len(),
{
    if lines.len() == 0 {
        0
    } else {
        sum_of(total_of(lines.drop_last()), product_of(lines.last().quantity, lines.last().price))
    }
}

/// What a billing may have changed of the handle while the statement
/// `step` is under way, that its failure is one of the store, and that the
/// item under way is one of the `count` items.
pub open spec fn billing_fits(step: BillingStep, was_open: bool, is_open: bool, count: nat) -> bool {
    match step {
        BillingStep::Beginning => is_open == was_open,
        BillingStep::Itemizing(k, _) => !was_open && k < count,
        BillingStep::RollingBack(e) => !was_open && reports_engine(e, true),
        BillingStep::Ended(Ok(_)) => !was_open && !is_open,
        BillingStep::Ended(Err(e)) => is_open == was_open && reports_engine(e, true),
        _ => !was_open,
    }
}

/// Whether every item may be held by a bill.
fn all_lines_valid(items: &Vec<BillItem>) -> (b: bool)
    ensures
        b == valid_lines(line_views(items@)),
{
    let mut i: usize = 0;
    while i < items.len()
        invariant
            i <= items@.len(),
            forall|j: int| 0 <= j < i ==> valid_line(#[trigger] line_views(items@)[j]),
        decreases items@.len() - i,
    {
        if items[i].quantity <= 0 || !items[i].price_per_item.is_money() {
            assert(!valid_line(line_views(items@)[i as int]));
            return false;
        }
        i += 1;
    }
    true
}

impl Bill {
    /// The total of a bill of the given items: starting from zero, the
    /// product of quantity and price of each item is added in the order of
    /// the items. The engine multiplies and adds; a failure of either is a
    /// failure of the whole operation.
    pub fn total(conn: &Connection, items: &Vec<BillItem>) -> (r: Result<Amount, StoreError>)
        ensures
            r matches Ok(t) ==> t@ == total_of(line_views(items@)),
            r matches Err(e) ==> e.kind == ErrorKind::TransactionFailure && reports_engine(e, true),
    {
        let mut total = Amount::zero();
        let mut i: usize = 0;
        while i < items.len()
            invariant
                i <= items@.len(),
                total@ == total_of(line_views(items@).take(i as int)),
            decreases items@.len() - i,
        {
            let line = match StoreError::report(times(conn, items[i].quantity, &items[i].price_per_item), true) {
                Ok(line) => line,
                Err(e) => {
                    return Err(e);
                },
            };
            total = match StoreError::report(plus(conn, &total, &line), true) {
                Ok(sum) => sum,
                Err(e) => {
                    return Err(e);
                },
            };
            assert(line_views(items@).take(i + 1).drop_last() =~= line_views(items@).take(i as int));
            i += 1;
        }
        assert(line_views(items@).take(i as int) =~= line_views(items@));
        Ok(total)
    }

    /// Sends one statement of a billing to the store and takes its answer.
    /// A failure is a failure of the unit. Beginning, committing and rolling
    /// back change whether a transaction is open as their names say.
    pub fn perform(conn: &mut Connection, statement: BillingStatement) -> (answer: BillingAnswer)
        ensures
            answer matches BillingAnswer::Failed(e) ==> reports_engine(e, true),
            match statement {
                BillingStatement::Begin => match answer {
                    BillingAnswer::Done(_) => !in_transaction(*old(conn)) && in_transaction(*final(conn)),
                    BillingAnswer::Failed(_) => in_transaction(*final(conn)) == in_transaction(*old(conn)),
                },
                BillingStatement::Commit => answer is Done ==> !in_transaction(*final(conn)),
                BillingStatement::Rollback => answer is Done && !in_transaction(*final(conn)),
                BillingStatement::Nothing => answer is Done && *final(conn) == *old(conn),
                _ => true,
            },
    {
        match statement {
            BillingStatement::Begin => Bill::billing_answer(begin(conn)),
            BillingStatement::Header(total) => Bill::header_answer(insert_bill(conn, total)),
            BillingStatement::Item(id, item) => Bill::billing_answer(insert_item(conn, id, item)),
            BillingStatement::Commit => Bill::billing_answer(commit(conn)),
            BillingStatement::Rollback => {
                rollback(conn);
                BillingAnswer::Done(0)
            },
            BillingStatement::Nothing => BillingAnswer::Done(0),
        }
    }

    /// Writes a bill for the given items. The total is made here by
    /// [`Bill::total`], never taken from the caller. Then the statements
    /// are those that [`BillingStep`] names, in its order, as one
    /// transaction: begin, the header with that total, each item as it was
    /// given under the identity that the header got, commit, and a rollback
    /// after the first failure. The result is the one with which the steps
    /// end: the identity that the store gave the header, or the first
    /// failure. An empty list of items makes a bill with total zero and no
    /// lines.
    ///
    /// A line that a bill may not hold, or a total that is no finite
    /// number, is turned away before anything is written. Every other
    /// failure is a failure of the store and of the whole operation. No
    /// transaction is open afterwards that was not open before.
    pub fn create(conn: &mut Connection, items: Vec<BillItem>) -> (r: Result<i64, StoreError>)
        ensures
            !valid_lines(line_views(items@)) ==> (r matches Err(e) && e.kind == ErrorKind::Constraint) && *final(conn)
                == *old(conn),
            r is Ok ==> valid_bill(line_views(items@), total_of(line_views(items@))),
            r matches Err(e) ==> reports_engine(e, true) || e.kind == ErrorKind::Constraint,
            r matches Err(e) ==> e.kind == ErrorKind::TransactionFailure || (e.kind == ErrorKind::Constraint
                && !valid_bill(line_views(items@), total_of(line_views(items@))) && *final(conn) == *old(conn)),
            in_transaction(*final(conn)) ==> in_transaction(*old(conn)),
            r is Ok ==> !in_transaction(*old(conn)) && !in_transaction(*final(conn)),
    {
        if !all_lines_valid(&items) {
            return Err(StoreError::constraint("a bill needs quantities above zero and prices that are not negative"));
        }
        let total = match Bill::total(conn, &items) {
            Ok(total) => total,
            Err(e) => {
                return Err(e);
            },
        };
        if !total.is_money() {
            return Err(StoreError::constraint("the total of a bill is a finite number that is not negative"));
        }
        let count = items.len();
        let mut step = BillingStep::Beginning;
        while !step.is_ended()
            invariant
                count == items@.len(),
                billing_fits(step, in_transaction(*old(conn)), in_transaction(*conn), count as nat),
            decreases step.rank(count as nat),
        {
            let answer = Bill::perform(conn, step.statement(&items, &total));
            step = step.after(answer, count);
        }
        match step.result() {
            Some(r) => r,
            None => unreached(),
        }
    }

    /// Writes a bill with a total that is given, by the statements that
    /// [`BillingStep`] names, as [`Bill::create`] does.
    ///
    /// A line or a total that a bill may not hold is turned away before the
    /// store is asked.
    pub fn create_with_total(conn: &mut Connection, items: Vec<BillItem>, total: Amount) -> (r: Result<
        i64,
        StoreError,
    >)
        ensures
            !valid_bill(line_views(items@), total@) ==> (r matches Err(e) && e.kind == ErrorKind::Constraint)
                && *final(conn) == *old(conn),
            valid_bill(line_views(items@), total@) ==> (r matches Err(e) ==> reports_engine(e, true) && e.kind
                == ErrorKind::TransactionFailure),
            in_transaction(*final(conn)) == in_transaction(*old(conn)),
            r is Ok ==> !in_transaction(*final(conn)),
    {
        if !all_lines_valid(&items) {
            return Err(StoreError::constraint("a bill needs quantities above zero and prices that are not negative"));
        }
        if !total.is_money() {
            return Err(StoreError::constraint("the total of a bill is a finite number that is not negative"));
        }
        let count = items.len();
        let mut step = BillingStep::Beginning;
        while !step.is_ended()
            invariant
                count == items@.len(),
                billing_fits(step, in_transaction(*old(conn)), in_transaction(*conn), count as nat),
            decreases step.rank(count as nat),
        {
            let answer = Bill::perform(conn, step.statement(&items, &total));
            step = step.after(answer, count);
        }
        match step.result() {
            Some(r) => r,
            None => unreached(),
        }
    }

    /// The answer of the store to a statement of a billing, as the machine
    /// takes it.
    pub fn billing_answer<T>(answer: Result<T, rusqlite::Error>) -> (r: BillingAnswer)
        ensures
            match answer {
                Ok(_) => r == BillingAnswer::Done(0),
                Err(cause) => r matches BillingAnswer::Failed(e) && e.kind == ErrorKind::TransactionFailure
                    && e.message@ == words_of(cause) && reports_engine(e, true),
            },
    {
        match answer {
            Ok(_) => BillingAnswer::Done(0),
            Err(e) => BillingAnswer::Failed(StoreError::from_engine(&e, true)),
        }
    }

    /// The answer of the store to the writing of a header, as the machine
    /// takes it: the identity that the header got.
    pub fn header_answer(answer: Result<i64, rusqlite::Error>) -> (r: BillingAnswer)
        ensures
            match answer {
                Ok(id) => r == BillingAnswer::Done(id),
                Err(cause) => r matches BillingAnswer::Failed(e) && e.kind == ErrorKind::TransactionFailure
                    && e.message@ == words_of(cause) && reports_engine(e, true),
            },
    {
        match answer {
            Ok(id) => BillingAnswer::Done(id),
            Err(e) => BillingAnswer::Failed(StoreError::from_engine(&e, true)),
        }
    }

    /// Gives a header as it was read the items that were read for it: the
    /// header stays as it is, and the items are those, in their order.
    pub fn attach(&mut self, items: Vec<BillItem>)
        ensures
            final(self).header() == old(self).header(),
            final(self).items@ == items@,
    {
        self.items = items;
    }

    /// The headers as the store listed them, if it listed them with
    /// distinct identities in descending order; a listing in any other
    /// order is a failure of the store.
    pub fn listing(rows: Vec<Bill>) -> (r: Result<Vec<Bill>, StoreError>)
        ensures
            match r {
                Ok(v) => v == rows && ids_descend(rows@),
                Err(e) => e.kind == ErrorKind::StorageUnavailable && !ids_descend(rows@),
            },
    {
        let mut i: usize = 1;
        while i < rows.len()
            invariant
                1 <= i,
                forall|a: int, b: int| 0 <= a < b < i && b < rows@.len() ==> (#[trigger] rows@[a]).id > (
                #[trigger] rows@[b]).id,
            decreases rows@.len() - i,
        {
            if rows[i - 1].id <= rows[i].id {
                return Err(
                    StoreError {
                        kind: ErrorKind::StorageUnavailable,
                        message: "the store listed the bills out of order".to_owned(),
                    },
                );
            }
            assert forall|a: int, b: int| 0 <= a < b < i + 1 && b < rows@.len() implies (#[trigger] rows@[a]).id > (
            #[trigger] rows@[b]).id by {
                if b == i && a < i - 1 {
                    assert(rows@[a].id > rows@[i - 1].id);
                }
            }
            i += 1;
        }
        Ok(rows)
    }

    /// All bills, the newest first, each with the items that the store
    /// holds under its identity: the headers are read first and tested by
    /// [`Bill::listing`], then for each header its items are read by
    /// [`Bill::get_items`], which [`Bill::attach`] gives it. A failure to
    /// read the items of any bill is the result; there is no partial list.
    pub fn list(conn: &Connection) -> (r: Result<Vec<Bill>, StoreError>)
        ensures
            match r {
                Ok(v) => ids_descend(v@),
                Err(e) => reports_engine(e, false) || e.kind == ErrorKind::StorageUnavailable,
            },
            r matches Err(e) ==> e.kind != ErrorKind::TransactionFailure,
    {
        let mut bills = match StoreError::report(select_bills(conn), false) {
            Ok(rows) => match Bill::listing(rows) {
                Ok(v) => v,
                Err(e) => {
                    return Err(e);
                },
            },
            Err(e) => {
                return Err(e);
            },
        };
        let ghost headers = bill_headers(bills@);
        let mut i: usize = 0;
        while i < bills.len()
            invariant
                i <= bills@.len(),
                bill_headers(bills@) == headers,
                ids_descend(bills@),
            decreases bills@.len() - i,
        {
            let ghost before = bills@;
            let items = match Bill::get_items(conn, bills[i].id as i64) {
                Ok(items) => items,
                Err(e) => {
                    return Err(e);
                },
            };
            bills[i].attach(items);
            proof {
                assert(bills@.len() == before.len());
                assert forall|j: int| 0 <= j < bills@.len() implies (#[trigger] bills@[j]).header()
                    == before[j].header() by {}
                assert(bill_headers(bills@) =~= bill_headers(before));
                assert forall|a: int, b: int| 0 <= a < b < bills@.len() implies (#[trigger] bills@[a]).id > (
                #[trigger] bills@[b]).id by {
                    assert(bills@[a].header() == before[a].header());
                    assert(bills@[b].header() == before[b].header());
                }
            }
            i += 1;
        }
        Ok(bills)
    }

    /// The items that the store holds under the bill `bill_id`, in the
    /// order of their own identities.
    pub fn get_items(conn: &Connection, bill_id: i64) -> (r: Result<Vec<BillItem>, StoreError>)
        ensures
            r matches Err(e) ==> reports_engine(e, false),
    {
        StoreError::report(select_items(conn, bill_id), false)
    }
}

} // verus!
