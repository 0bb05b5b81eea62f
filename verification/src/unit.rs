//! The two atomic units of the library as machines: which statement comes
//! next, given the one under way and the answer of the store. What the
//! machines achieve is proved against the picture of the store, for every
//! run in which the store answers as the picture says.

use crate::amount::Amount;
use crate::bill::BillItem;
use crate::error::StoreError;
use crate::ledger::{archived, billed, removed, BillRow, ItemRow, Ledger, Line, ProductRow};
use crate::lemmas::lemma_absent_product_stays_out;
use crate::product::Product;
use vstd::prelude::*;

verus! {

/// The picture of a store during a unit: the rows as they stand, the rows
/// to which a rollback returns, and whether a transaction is open.
pub struct Unit {
    pub live: Ledger,
    pub saved: Ledger,
    pub open: bool,
}

/// A store that is at rest with the rows `l`.
pub open spec fn at_rest(l: Ledger) -> Unit {
    Unit { live: l, saved: l, open: false }
}

/// A transaction was begun: none was open, the rows stay, and they are what
/// a rollback returns to.
pub open spec fn begun(before: Unit, after: Unit) -> bool {
    !before.open && after == (Unit { live: before.live, saved: before.live, open: true })
}

/// A statement failed: none of its own work remains, and the store may
/// have answered by rolling the open transaction back.
pub open spec fn failed_cleanly(before: Unit, after: Unit) -> bool {
    after == before || (before.open && !after.open && after.live == before.saved)
}

/// The rows became `rows`; the transaction is as it was.
pub open spec fn wrote(before: Unit, after: Unit, rows: Ledger) -> bool {
    after == (Unit { live: rows, ..before })
}

/// The transaction was committed: the rows stay and none is open.
pub open spec fn committed(before: Unit, after: Unit) -> bool {
    after.live == before.live && !after.open
}

/// A rollback was asked for: no transaction is open, and the rows are those
/// of the beginning of the one that was.
pub open spec fn undone(before: Unit, after: Unit) -> bool {
    !after.open && after.live == if before.open {
        before.saved
    } else {
        before.live
    }
}

/// What the store answered to a statement of a removal.
#[derive(Debug)]
pub enum RemovalAnswer {
    /// The statement succeeded.
    Done,
    /// The lookup found the product.
    Found(Product),
    /// The lookup found no product.
    Missing,
    /// The statement failed.
    Failed(StoreError),
}

/// A statement of a removal as it goes to the store, with its values.
#[derive(Debug)]
pub enum RemovalStatement<'a> {
    /// Begin a transaction.
    Begin,
    /// Select the product of this identity.
    Lookup(i32),
    /// Insert this product into the archive under this time.
    Archive(&'a Product, &'a str),
    /// Delete the product of this identity.
    Delete(i32),
    /// Commit.
    Commit,
    /// Roll back.
    Rollback,
    /// No statement: the unit has ended.
    Nothing,
}

/// The statement of a removal that is under way.
#[derive(Debug)]
pub enum RemovalStep {
    /// Begin a transaction.
    Beginning,
    /// Look the product up.
    Looking,
    /// Write the product that was found to the archive.
    Archiving(Product),
    /// Delete the product.
    Deleting,
    /// Commit.
    Committing,
    /// Roll back, after the failure that is kept here.
    RollingBack(StoreError),
    /// Nothing is left to do; this is the result.
    Ended(Result<(), StoreError>),
}

impl RemovalStep {
    /// How many statements may still follow, at most.
    pub open spec fn rank(self) -> nat {
        match self {
            RemovalStep::Beginning => 6,
            RemovalStep::Looking => 5,
            RemovalStep::Archiving(_) => 4,
            RemovalStep::Deleting => 3,
            RemovalStep::Committing => 2,
            RemovalStep::RollingBack(_) => 1,
            RemovalStep::Ended(_) => 0,
        }
    }

    /// The statement that follows: begin, look up, archive what was found,
    /// delete, commit. The first failure after the beginning leads to a
    /// rollback and ends the unit with that failure; a failure to begin
    /// ends it at once.
    pub open spec fn next(self, answer: RemovalAnswer) -> RemovalStep {
        match self {
            RemovalStep::Beginning => match answer {
                RemovalAnswer::Failed(e) => RemovalStep::Ended(Err(e)),
                _ => RemovalStep::Looking,
            },
            RemovalStep::Looking => match answer {
                RemovalAnswer::Found(p) => RemovalStep::Archiving(p),
                RemovalAnswer::Failed(e) => RemovalStep::RollingBack(e),
                _ => RemovalStep::Deleting,
            },
            RemovalStep::Archiving(_) => match answer {
                RemovalAnswer::Failed(e) => RemovalStep::RollingBack(e),
                _ => RemovalStep::Deleting,
            },
            RemovalStep::Deleting => match answer {
                RemovalAnswer::Failed(e) => RemovalStep::RollingBack(e),
                _ => RemovalStep::Committing,
            },
            RemovalStep::Committing => match answer {
                RemovalAnswer::Failed(e) => RemovalStep::RollingBack(e),
                _ => RemovalStep::Ended(Ok(())),
            },
            RemovalStep::RollingBack(e) => RemovalStep::Ended(Err(e)),
            RemovalStep::Ended(r) => RemovalStep::Ended(r),
        }
    }

    /// The statement that the step sends to the store, in the removal of
    /// the product `id` under the time `deleted_at`: what is archived is the
    /// product that the lookup found, as it was found.
    pub open spec fn statement_of<'a>(&'a self, id: i32, deleted_at: &'a str) -> RemovalStatement<'a> {
        match self {
            RemovalStep::Beginning => RemovalStatement::Begin,
            RemovalStep::Looking => RemovalStatement::Lookup(id),
            RemovalStep::Archiving(p) => RemovalStatement::Archive(p, deleted_at),
            RemovalStep::Deleting => RemovalStatement::Delete(id),
            RemovalStep::Committing => RemovalStatement::Commit,
            RemovalStep::RollingBack(_) => RemovalStatement::Rollback,
            RemovalStep::Ended(_) => RemovalStatement::Nothing,
        }
    }

    /// The statement that the step sends to the store.
    pub fn statement<'a>(&'a self, id: i32, deleted_at: &'a str) -> (st: RemovalStatement<'a>)
        ensures
            st == self.statement_of(id, deleted_at),
    {
        match self {
            RemovalStep::Beginning => RemovalStatement::Begin,
            RemovalStep::Looking => RemovalStatement::Lookup(id),
            RemovalStep::Archiving(p) => RemovalStatement::Archive(p, deleted_at),
            RemovalStep::Deleting => RemovalStatement::Delete(id),
            RemovalStep::Committing => RemovalStatement::Commit,
            RemovalStep::RollingBack(_) => RemovalStatement::Rollback,
            RemovalStep::Ended(_) => RemovalStatement::Nothing,
        }
    }

    /// The result of a unit that has ended; a unit that has not ended has
    /// none.
    pub fn result(self) -> (r: Option<Result<(), StoreError>>)
        ensures
            r == match self {
                RemovalStep::Ended(result) => Some(result),
                _ => None,
            },
    {
        match self {
            RemovalStep::Ended(result) => Some(result),
            _ => None,
        }
    }

    /// The statement that follows the one under way, given its answer.
    pub fn after(self, answer: RemovalAnswer) -> (then: RemovalStep)
        ensures
            then == self.next(answer),
            !(self is Ended) ==> then.rank() < self.rank(),
    {
        match self {
            RemovalStep::Beginning => match answer {
                RemovalAnswer::Failed(e) => RemovalStep::Ended(Err(e)),
                _ => RemovalStep::Looking,
            },
            RemovalStep::Looking => match answer {
                RemovalAnswer::Found(p) => RemovalStep::Archiving(p),
                RemovalAnswer::Failed(e) => RemovalStep::RollingBack(e),
                _ => RemovalStep::Deleting,
            },
            RemovalStep::Archiving(_) => match answer {
                RemovalAnswer::Failed(e) => RemovalStep::RollingBack(e),
                _ => RemovalStep::Deleting,
            },
            RemovalStep::Deleting => match answer {
                RemovalAnswer::Failed(e) => RemovalStep::RollingBack(e),
                _ => RemovalStep::Committing,
            },
            RemovalStep::Committing => match answer {
                RemovalAnswer::Failed(e) => RemovalStep::RollingBack(e),
                _ => RemovalStep::Ended(Ok(())),
            },
            RemovalStep::RollingBack(e) => RemovalStep::Ended(Err(e)),
            RemovalStep::Ended(r) => RemovalStep::Ended(r),
        }
    }

    /// Whether nothing is left to do.
    pub fn is_ended(&self) -> (b: bool)
        ensures
            b == (*self is Ended),
    {
        match self {
            RemovalStep::Ended(_) => true,
            _ => false,
        }
    }
}

/// The step that a removal has come to after the store gave `answers`, one
/// for each statement from the first on.
pub open spec fn removal_after(answers: Seq<RemovalAnswer>) -> RemovalStep
    decreases answers.len(),
{
    if answers.len() == 0 {
        RemovalStep::Beginning
    } else {
        removal_after(answers.drop_last()).next(answers.last())
    }
}

/// The store answers a statement of the removal of `id` as its picture
/// says: `before` and `after` are the store around the statement `step`.
pub open spec fn removal_answered(
    step: RemovalStep,
    answer: RemovalAnswer,
    before: Unit,
    after: Unit,
    id: int,
    deleted_at: Seq<char>,
) -> bool {
    match step {
        RemovalStep::Beginning => match answer {
            RemovalAnswer::Failed(_) => after == before,
            _ => begun(before, after),
        },
        RemovalStep::Looking => match answer {
            RemovalAnswer::Found(p) => after == before && p@.id == id && before.live.products.contains(p@),
            RemovalAnswer::Missing => after == before && !before.live.has_product(id),
            RemovalAnswer::Failed(_) => failed_cleanly(before, after),
            RemovalAnswer::Done => false,
        },
        RemovalStep::Archiving(p) => match answer {
            RemovalAnswer::Failed(_) => failed_cleanly(before, after),
            _ => wrote(before, after, before.live.with_archived(archived(p@, deleted_at))),
        },
        RemovalStep::Deleting => match answer {
            RemovalAnswer::Failed(_) => failed_cleanly(before, after),
            _ => wrote(before, after, before.live.without_product(id)),
        },
        RemovalStep::Committing => match answer {
            RemovalAnswer::Failed(_) => failed_cleanly(before, after),
            _ => committed(before, after),
        },
        RemovalStep::RollingBack(_) => undone(before, after),
        RemovalStep::Ended(_) => after == before,
    }
}

/// What holds of the store while the statement `step` of the removal of
/// `id` is under way, where `start` are the rows before the unit.
pub open spec fn removal_on_track(step: RemovalStep, start: Ledger, unit: Unit, id: int, deleted_at: Seq<char>) -> bool {
    match step {
        RemovalStep::Beginning => unit.live == start,
        RemovalStep::Looking => unit.open && unit.saved == start && unit.live == start,
        RemovalStep::Archiving(p) => unit.open && unit.saved == start && unit.live == start && p@.id == id
            && start.products.contains(p@),
        RemovalStep::Deleting => unit.open && unit.saved == start && if start.has_product(id) {
            exists|p: ProductRow|
                #![trigger start.products.contains(p)]
                start.products.contains(p) && p.id == id && unit.live == start.with_archived(archived(p, deleted_at))
        } else {
            unit.live == start
        },
        RemovalStep::Committing => unit.open && unit.saved == start && removed(start, unit.live, id, deleted_at),
        RemovalStep::RollingBack(_) => if unit.open {
            unit.saved == start
        } else {
            unit.live == start
        },
        RemovalStep::Ended(Ok(_)) => !unit.open && removed(start, unit.live, id, deleted_at),
        RemovalStep::Ended(Err(_)) => unit.live == start,
    }
}

/// One statement of a removal, answered as the picture says, leaves the
/// store on track for the statement that follows.
pub proof fn law_removal_step(
    step: RemovalStep,
    answer: RemovalAnswer,
    start: Ledger,
    before: Unit,
    after: Unit,
    id: int,
    deleted_at: Seq<char>,
)
    requires
        removal_on_track(step, start, before, id, deleted_at),
        removal_answered(step, answer, before, after, id, deleted_at),
    ensures
        removal_on_track(step.next(answer), start, after, id, deleted_at),
{
    match step {
        RemovalStep::Archiving(p) => {
            let i = choose|i: int| 0 <= i < start.products.len() && start.products[i] == p@;
            assert(start.products[i].id == id);
            assert(start.has_product(id));
        },
        RemovalStep::Deleting => {
            if !start.has_product(id) {
                lemma_absent_product_stays_out(start, id);
            }
        },
        _ => {},
    }
}

/// A run of a removal: the statements from the first to the last, the
/// answers between them, and the store around each, answering as its
/// picture says.
pub open spec fn removal_run(
    steps: Seq<RemovalStep>,
    answers: Seq<RemovalAnswer>,
    units: Seq<Unit>,
    id: int,
    deleted_at: Seq<char>,
) -> bool {
    &&& steps.len() == answers.len() + 1
    &&& units.len() == steps.len()
    &&& steps[0] == RemovalStep::Beginning
    &&& forall|k: int|
        0 <= k < answers.len() ==> #[trigger] steps[k + 1] == steps[k].next(answers[k]) && removal_answered(
            steps[k],
            answers[k],
            units[k],
            units[k + 1],
            id,
            deleted_at,
        )
}

/// Every statement of a run finds the store on track.
pub proof fn lemma_removal_run_on_track(
    steps: Seq<RemovalStep>,
    answers: Seq<RemovalAnswer>,
    units: Seq<Unit>,
    id: int,
    deleted_at: Seq<char>,
    k: int,
)
    requires
        removal_run(steps, answers, units, id, deleted_at),
        0 <= k < steps.len(),
    ensures
        removal_on_track(steps[k], units[0].live, units[k], id, deleted_at),
    decreases k,
{
    if k > 0 {
        lemma_removal_run_on_track(steps, answers, units, id, deleted_at, k - 1);
        assert(steps[k - 1 + 1] == steps[k - 1].next(answers[k - 1]));
        law_removal_step(steps[k - 1], answers[k - 1], units[0].live, units[k - 1], units[k], id, deleted_at);
    }
}

/// A removal is whole or not at all. In every run that ends, whatever
/// failed and wherever: after success the product is gone and archived as
/// it stood, or was never there and nothing changed; after failure the
/// rows are those from before the unit.
pub proof fn law_removal_is_atomic(
    steps: Seq<RemovalStep>,
    answers: Seq<RemovalAnswer>,
    units: Seq<Unit>,
    id: int,
    deleted_at: Seq<char>,
)
    requires
        removal_run(steps, answers, units, id, deleted_at),
    ensures
        steps.last() matches RemovalStep::Ended(Ok(_)) ==> removed(units[0].live, units.last().live, id, deleted_at)
            && !units.last().open,
        steps.last() matches RemovalStep::Ended(Err(_)) ==> units.last().live == units[0].live,
{
    lemma_removal_run_on_track(steps, answers, units, id, deleted_at, steps.len() - 1);
}

/// The law of removals, over the answers alone: in every run in which the
/// store answers each statement as its picture says, a removal that ends
/// in success has removed the product and archived it as it stood, or found
/// none and changed nothing; one that ends in failure has changed nothing.
pub proof fn law_removal_whole_or_not(answers: Seq<RemovalAnswer>, units: Seq<Unit>, id: int, deleted_at: Seq<char>)
    requires
        units.len() == answers.len() + 1,
        forall|k: int|
            0 <= k < answers.len() ==> removal_answered(
                removal_after(#[trigger] answers.take(k)),
                answers[k],
                units[k],
                units[k + 1],
                id,
                deleted_at,
            ),
    ensures
        removal_after(answers) matches RemovalStep::Ended(Ok(_)) ==> removed(
            units[0].live,
            units.last().live,
            id,
            deleted_at,
        ) && !units.last().open,
        removal_after(answers) matches RemovalStep::Ended(Err(_)) ==> units.last().live == units[0].live,
{
    let steps = Seq::new((answers.len() + 1) as nat, |k: int| removal_after(answers.take(k)));
    assert(answers.take(0) =~= Seq::empty());
    assert(answers.take(answers.len() as int) =~= answers);
    assert forall|k: int| 0 <= k < answers.len() implies #[trigger] steps[k + 1] == steps[k].next(answers[k])
        && removal_answered(steps[k], answers[k], units[k], units[k + 1], id, deleted_at) by {
        assert(answers.take(k + 1).drop_last() =~= answers.take(k));
        assert(answers.take(k + 1).last() == answers[k]);
    }
    law_removal_is_atomic(steps, answers, units, id, deleted_at);
}

/// What the store answered to a statement of a billing.
#[derive(Debug)]
pub enum BillingAnswer {
    /// The statement succeeded and handed back this number.
    Done(i64),
    /// The statement failed.
    Failed(StoreError),
}

/// A statement of a billing as it goes to the store, with its values.
#[derive(Debug)]
pub enum BillingStatement<'a> {
    /// Begin a transaction.
    Begin,
    /// Insert a header with this total.
    Header(&'a Amount),
    /// Insert this item under the bill of this identity.
    Item(i64, &'a BillItem),
    /// Commit.
    Commit,
    /// Roll back.
    Rollback,
    /// No statement: the unit has ended.
    Nothing,
}

/// The statement of a billing that is under way.
#[derive(Debug)]
pub enum BillingStep {
    /// Begin a transaction.
    Beginning,
    /// Write the header.
    Heading,
    /// Write the item of this place under the bill of this identity.
    Itemizing(usize, i64),
    /// Commit the bill of this identity.
    Committing(i64),
    /// Roll back, after the failure that is kept here.
    RollingBack(StoreError),
    /// Nothing is left to do; this is the result.
    Ended(Result<i64, StoreError>),
}

impl BillingStep {
    /// How many statements may still follow, at most, for a bill of `count`
    /// items.
    pub open spec fn rank(self, count: nat) -> nat {
        match self {
            BillingStep::Beginning => count + 4,
            BillingStep::Heading => count + 3,
            BillingStep::Itemizing(k, _) => if k < count {
                (count - k + 2) as nat
            } else {
                3
            },
            BillingStep::Committing(_) => 2,
            BillingStep::RollingBack(_) => 1,
            BillingStep::Ended(_) => 0,
        }
    }

    /// The statement that follows, for a bill of `count` items: begin,
    /// write the header, write each item in its order under the identity
    /// that the header got, commit. The first failure after the beginning
    /// leads to a rollback and ends the unit with that failure; a failure
    /// to begin ends it at once.
    pub open spec fn next(self, answer: BillingAnswer, count: usize) -> BillingStep {
        match self {
            BillingStep::Beginning => match answer {
                BillingAnswer::Failed(e) => BillingStep::Ended(Err(e)),
                BillingAnswer::Done(_) => BillingStep::Heading,
            },
            BillingStep::Heading => match answer {
                BillingAnswer::Failed(e) => BillingStep::RollingBack(e),
                BillingAnswer::Done(id) => if count == 0 {
                    BillingStep::Committing(id)
                } else {
                    BillingStep::Itemizing(0, id)
                },
            },
            BillingStep::Itemizing(k, id) => match answer {
                BillingAnswer::Failed(e) => BillingStep::RollingBack(e),
                BillingAnswer::Done(_) => if k + 1 < count {
                    BillingStep::Itemizing((k + 1) as usize, id)
                } else {
                    BillingStep::Committing(id)
                },
            },
            BillingStep::Committing(id) => match answer {
                BillingAnswer::Failed(e) => BillingStep::RollingBack(e),
                BillingAnswer::Done(_) => BillingStep::Ended(Ok(id)),
            },
            BillingStep::RollingBack(e) => BillingStep::Ended(Err(e)),
            BillingStep::Ended(r) => BillingStep::Ended(r),
        }
    }

    /// The statement that the step sends to the store, in the billing of
    /// `items` under `total`: the header carries the total, and the item of
    /// each place goes out as it was given, under the identity that the
    /// step carries. A place beyond the items sends nothing.
    pub open spec fn statement_of<'a>(&'a self, items: &'a Vec<BillItem>, total: &'a Amount) -> BillingStatement<'a> {
        match self {
            BillingStep::Beginning => BillingStatement::Begin,
            BillingStep::Heading => BillingStatement::Header(total),
            BillingStep::Itemizing(k, id) => if *k < items@.len() {
                BillingStatement::Item(*id, &items@[*k as int])
            } else {
                BillingStatement::Nothing
            },
            BillingStep::Committing(_) => BillingStatement::Commit,
            BillingStep::RollingBack(_) => BillingStatement::Rollback,
            BillingStep::Ended(_) => BillingStatement::Nothing,
        }
    }

    /// The statement that the step sends to the store.
    pub fn statement<'a>(&'a self, items: &'a Vec<BillItem>, total: &'a Amount) -> (st: BillingStatement<'a>)
        ensures
            st == self.statement_of(items, total),
    {
        match self {
            BillingStep::Beginning => BillingStatement::Begin,
            BillingStep::Heading => BillingStatement::Header(total),
            BillingStep::Itemizing(k, id) => if *k < items.len() {
                BillingStatement::Item(*id, &items[*k])
            } else {
                BillingStatement::Nothing
            },
            BillingStep::Committing(_) => BillingStatement::Commit,
            BillingStep::RollingBack(_) => BillingStatement::Rollback,
            BillingStep::Ended(_) => BillingStatement::Nothing,
        }
    }

    /// The result of a unit that has ended; a unit that has not ended has
    /// none.
    pub fn result(self) -> (r: Option<Result<i64, StoreError>>)
        ensures
            r == match self {
                BillingStep::Ended(result) => Some(result),
                _ => None,
            },
    {
        match self {
            BillingStep::Ended(result) => Some(result),
            _ => None,
        }
    }

    /// The statement that follows the one under way, given its answer.
    pub fn after(self, answer: BillingAnswer, count: usize) -> (then: BillingStep)
        ensures
            then == self.next(answer, count),
            !(self is Ended) ==> then.rank(count as nat) < self.rank(count as nat),
    {
        match self {
            BillingStep::Beginning => match answer {
                BillingAnswer::Failed(e) => BillingStep::Ended(Err(e)),
                BillingAnswer::Done(_) => BillingStep::Heading,
            },
            BillingStep::Heading => match answer {
                BillingAnswer::Failed(e) => BillingStep::RollingBack(e),
                BillingAnswer::Done(id) => if count == 0 {
                    BillingStep::Committing(id)
                } else {
                    BillingStep::Itemizing(0, id)
                },
            },
            BillingStep::Itemizing(k, id) => match answer {
                BillingAnswer::Failed(e) => BillingStep::RollingBack(e),
                BillingAnswer::Done(_) => if k < count && k + 1 < count {
                    BillingStep::Itemizing(k + 1, id)
                } else {
                    BillingStep::Committing(id)
                },
            },
            BillingStep::Committing(id) => match answer {
                BillingAnswer::Failed(e) => BillingStep::RollingBack(e),
                BillingAnswer::Done(_) => BillingStep::Ended(Ok(id)),
            },
            BillingStep::RollingBack(e) => BillingStep::Ended(Err(e)),
            BillingStep::Ended(r) => BillingStep::Ended(r),
        }
    }

    /// Whether nothing is left to do.
    pub fn is_ended(&self) -> (b: bool)
        ensures
            b == (*self is Ended),
    {
        match self {
            BillingStep::Ended(_) => true,
            _ => false,
        }
    }
}

/// The step that a billing of `count` items has come to after the store
/// gave `answers`, one for each statement from the first on.
pub open spec fn billing_after(answers: Seq<BillingAnswer>, count: usize) -> BillingStep
    decreases answers.len(),
{
    if answers.len() == 0 {
        BillingStep::Beginning
    } else {
        billing_after(answers.drop_last(), count).next(answers.last(), count)
    }
}

/// `row` is the header of a new bill: it has the identity `id`, larger than
/// that of every bill of `start`, and the total `total`.
pub open spec fn heads(start: Ledger, row: BillRow, id: int, total: u64) -> bool {
    row.id == id && row.total == total && forall|i: int| 0 <= i < start.bills.len() ==> (#[trigger] start.bills[i]).id < id
}

/// The store answers a statement of the billing of `lines` under `total` as
/// its picture says: `before` and `after` are the store around the
/// statement `step`.
pub open spec fn billing_answered(
    step: BillingStep,
    answer: BillingAnswer,
    before: Unit,
    after: Unit,
    total: u64,
    lines: Seq<Line>,
) -> bool {
    match answer {
        BillingAnswer::Failed(_) => match step {
            BillingStep::Beginning => after == before,
            BillingStep::RollingBack(_) => undone(before, after),
            BillingStep::Ended(_) => after == before,
            _ => failed_cleanly(before, after),
        },
        BillingAnswer::Done(n) => match step {
            BillingStep::Beginning => begun(before, after),
            BillingStep::Heading => exists|row: BillRow|
                #![trigger before.live.with_bill(row)]
                heads(before.live, row, n as int, total) && wrote(before, after, before.live.with_bill(row)),
            BillingStep::Itemizing(k, id) => k < lines.len() && wrote(
                before,
                after,
                before.live.with_item(ItemRow { bill_id: id as int, line: lines[k as int] }),
            ),
            BillingStep::Committing(_) => committed(before, after),
            BillingStep::RollingBack(_) => undone(before, after),
            BillingStep::Ended(_) => after == before,
        },
    }
}

/// The rows of a bill that is headed by a row of the identity `id` and has
/// its first `k` lines written.
pub open spec fn partly_billed(start: Ledger, rows: Ledger, id: int, total: u64, lines: Seq<Line>, k: int) -> bool {
    exists|row: BillRow|
        #![trigger start.with_bill(row)]
        heads(start, row, id, total) && rows == start.with_bill(row).with_lines(id, lines.take(k))
}

/// What holds of the store while the statement `step` of a billing is
/// under way, where `start` are the rows before the unit.
pub open spec fn billing_on_track(step: BillingStep, start: Ledger, unit: Unit, total: u64, lines: Seq<Line>) -> bool {
    match step {
        BillingStep::Beginning => unit.live == start,
        BillingStep::Heading => unit.open && unit.saved == start && unit.live == start,
        BillingStep::Itemizing(k, id) => unit.open && unit.saved == start && k < lines.len() && partly_billed(
            start,
            unit.live,
            id as int,
            total,
            lines,
            k as int,
        ),
        BillingStep::Committing(id) => unit.open && unit.saved == start && billed(
            start,
            unit.live,
            id as int,
            total,
            lines,
        ),
        BillingStep::RollingBack(_) => if unit.open {
            unit.saved == start
        } else {
            unit.live == start
        },
        BillingStep::Ended(Ok(id)) => !unit.open && billed(start, unit.live, id as int, total, lines),
        BillingStep::Ended(Err(_)) => unit.live == start,
    }
}

/// A header and all the lines make a bill.
pub proof fn lemma_all_lines_make_a_bill(start: Ledger, rows: Ledger, id: int, total: u64, lines: Seq<Line>)
    requires
        partly_billed(start, rows, id, total, lines, lines.len() as int),
    ensures
        billed(start, rows, id, total, lines),
{
    let row = choose|row: BillRow|
        #![trigger start.with_bill(row)]
        heads(start, row, id, total) && rows == start.with_bill(row).with_lines(id, lines.take(lines.len() as int));
    assert(lines.take(lines.len() as int) =~= lines);
    assert(rows.bills.last() == row);
}

/// One statement of a billing, answered as the picture says, leaves the
/// store on track for the statement that follows.
pub proof fn law_billing_step(
    step: BillingStep,
    answer: BillingAnswer,
    start: Ledger,
    before: Unit,
    after: Unit,
    total: u64,
    lines: Seq<Line>,
)
    requires
        lines.len() <= usize::MAX,
        billing_on_track(step, start, before, total, lines),
        billing_answered(step, answer, before, after, total, lines),
    ensures
        billing_on_track(step.next(answer, lines.len() as usize), start, after, total, lines),
{
    match (step, answer) {
        (BillingStep::Heading, BillingAnswer::Done(n)) => {
            let row = choose|row: BillRow|
                #![trigger before.live.with_bill(row)]
                heads(before.live, row, n as int, total) && wrote(before, after, before.live.with_bill(row));
            let headed = start.with_bill(row);
            assert(headed.with_lines(n as int, lines.take(0)) =~= headed) by {
                assert(headed.items + crate::ledger::item_rows_for(n as int, lines.take(0)) =~= headed.items);
            }
            assert(partly_billed(start, after.live, n as int, total, lines, 0));
            if lines.len() == 0 {
                lemma_all_lines_make_a_bill(start, after.live, n as int, total, lines);
            }
        },
        (BillingStep::Itemizing(k, id), BillingAnswer::Done(_)) => {
            let row = choose|row: BillRow|
                #![trigger start.with_bill(row)]
                heads(start, row, id as int, total) && before.live == start.with_bill(row).with_lines(
                    id as int,
                    lines.take(k as int),
                );
            let headed = start.with_bill(row);
            let so_far = crate::ledger::item_rows_for(id as int, lines.take(k as int));
            let further = crate::ledger::item_rows_for(id as int, lines.take(k + 1));
            assert(lines.take(k + 1) =~= lines.take(k as int).push(lines[k as int]));
            assert(further =~= so_far.push(ItemRow { bill_id: id as int, line: lines[k as int] }));
            assert(headed.items + further =~= (headed.items + so_far).push(
                ItemRow { bill_id: id as int, line: lines[k as int] },
            ));
            assert(after.live == headed.with_lines(id as int, lines.take(k + 1)));
            assert(partly_billed(start, after.live, id as int, total, lines, k + 1));
            if k + 1 >= lines.len() {
                lemma_all_lines_make_a_bill(start, after.live, id as int, total, lines);
            }
        },
        _ => {},
    }
}

/// A run of a billing: the statements from the first to the last, the
/// answers between them, and the store around each, answering as its
/// picture says.
pub open spec fn billing_run(
    steps: Seq<BillingStep>,
    answers: Seq<BillingAnswer>,
    units: Seq<Unit>,
    total: u64,
    lines: Seq<Line>,
) -> bool {
    &&& lines.len() <= usize::MAX
    &&& steps.len() == answers.len() + 1
    &&& units.len() == steps.len()
    &&& steps[0] == BillingStep::Beginning
    &&& forall|k: int|
        0 <= k < answers.len() ==> #[trigger] steps[k + 1] == steps[k].next(answers[k], lines.len() as usize)
            && billing_answered(steps[k], answers[k], units[k], units[k + 1], total, lines)
}

/// Every statement of a run finds the store on track.
pub proof fn lemma_billing_run_on_track(
    steps: Seq<BillingStep>,
    answers: Seq<BillingAnswer>,
    units: Seq<Unit>,
    total: u64,
    lines: Seq<Line>,
    k: int,
)
    requires
        billing_run(steps, answers, units, total, lines),
        0 <= k < steps.len(),
    ensures
        billing_on_track(steps[k], units[0].live, units[k], total, lines),
    decreases k,
{
    if k > 0 {
        lemma_billing_run_on_track(steps, answers, units, total, lines, k - 1);
        assert(steps[k - 1 + 1] == steps[k - 1].next(answers[k - 1], lines.len() as usize));
        law_billing_step(steps[k - 1], answers[k - 1], units[0].live, units[k - 1], units[k], total, lines);
    }
}

/// A bill is written whole or not at all. In every run that ends, whatever
/// failed and wherever: after success the store has the header with the
/// given total and every line in its order; after failure the rows are
/// those from before the unit, with no header and no item left behind.
pub proof fn law_billing_is_atomic(
    steps: Seq<BillingStep>,
    answers: Seq<BillingAnswer>,
    units: Seq<Unit>,
    total: u64,
    lines: Seq<Line>,
)
    requires
        billing_run(steps, answers, units, total, lines),
    ensures
        steps.last() matches BillingStep::Ended(Ok(id)) ==> billed(
            units[0].live,
            units.last().live,
            id as int,
            total,
            lines,
        ) && !units.last().open,
        steps.last() matches BillingStep::Ended(Err(_)) ==> units.last().live == units[0].live,
{
    lemma_billing_run_on_track(steps, answers, units, total, lines, steps.len() - 1);
}

/// The law of bills, over the answers alone: in every run in which the
/// store answers each statement as its picture says, a billing that ends
/// in success has written the header with the given total under the
/// identity that is returned, and every line in its order; one that ends in
/// failure has changed nothing.
pub proof fn law_billing_whole_or_not(answers: Seq<BillingAnswer>, units: Seq<Unit>, total: u64, lines: Seq<Line>)
    requires
        lines.len() <= usize::MAX,
        units.len() == answers.len() + 1,
        forall|k: int|
            0 <= k < answers.len() ==> billing_answered(
                billing_after(#[trigger] answers.take(k), lines.len() as usize),
                answers[k],
                units[k],
                units[k + 1],
                total,
                lines,
            ),
    ensures
        billing_after(answers, lines.len() as usize) matches BillingStep::Ended(Ok(id)) ==> billed(
            units[0].live,
            units.last().live,
            id as int,
            total,
            lines,
        ) && !units.last().open,
        billing_after(answers, lines.len() as usize) matches BillingStep::Ended(Err(_)) ==> units.last().live
            == units[0].live,
{
    let count = lines.len() as usize;
    let steps = Seq::new((answers.len() + 1) as nat, |k: int| billing_after(answers.take(k), count));
    assert(answers.take(0) =~= Seq::empty());
    assert(answers.take(answers.len() as int) =~= answers);
    assert forall|k: int| 0 <= k < answers.len() implies #[trigger] steps[k + 1] == steps[k].next(answers[k], count)
        && billing_answered(steps[k], answers[k], units[k], units[k + 1], total, lines) by {
        assert(answers.take(k + 1).drop_last() =~= answers.take(k));
        assert(answers.take(k + 1).last() == answers[k]);
    }
    law_billing_is_atomic(steps, answers, units, total, lines);
}

} // verus!
