//! Laying down the relations of the store.

use crate::error::{reports_engine, StoreError};
use crate::product::Product;
use crate::sqlite::{add_quantity_column, create_relations};
use crate::text::{begins_with, starts_with};
use rusqlite::Connection;
use vstd::pervasive::unreached;
use vstd::prelude::*;

verus! {

/// The words with which the engine refuses to add a column that exists.
pub open spec fn column_exists_already(words: Seq<char>) -> bool {
    begins_with(words, "duplicate column name"@)
}

/// A statement of laying down as it goes to the store.
#[derive(Debug, Clone, Copy, PartialEq, Eq, Structural)]
pub enum SchemaStatement {
    /// Create the relations and the index that do not exist yet.
    Create,
    /// Add the `quantity` column to `products`.
    AddColumn,
    /// No statement: laying down has ended.
    Nothing,
}

/// The step of laying down the relations that is under way.
#[derive(Debug)]
pub enum SchemaStep {
    /// Create the relations and the index that do not exist yet.
    Creating,
    /// Add the `quantity` column to `products`.
    Adding,
    /// Nothing is left to do; this is the result.
    Ended(Result<(), StoreError>),
}

impl SchemaStep {
    /// How many statements may still follow, at most.
    pub open spec fn rank(self) -> nat {
        match self {
            SchemaStep::Creating => 2,
            SchemaStep::Adding => 1,
            SchemaStep::Ended(_) => 0,
        }
    }

    /// The step that follows: create, then add the column. A failure to
    /// create ends with that failure. A failure to add the column ends
    /// with that failure too, unless it says that the column exists
    /// already, which is how the step ends on every start but the first.
    pub open spec fn next(self, answer: Result<(), StoreError>) -> SchemaStep {
        match self {
            SchemaStep::Creating => match answer {
                Ok(_) => SchemaStep::Adding,
                Err(e) => SchemaStep::Ended(Err(e)),
            },
            SchemaStep::Adding => match answer {
                Ok(_) => SchemaStep::Ended(Ok(())),
                Err(e) => if column_exists_already(e.message@) {
                    SchemaStep::Ended(Ok(()))
                } else {
                    SchemaStep::Ended(Err(e))
                },
            },
            SchemaStep::Ended(r) => SchemaStep::Ended(r),
        }
    }

    /// The statement that the step sends to the store.
    pub open spec fn statement_of(self) -> SchemaStatement {
        match self {
            SchemaStep::Creating => SchemaStatement::Create,
            SchemaStep::Adding => SchemaStatement::AddColumn,
            SchemaStep::Ended(_) => SchemaStatement::Nothing,
        }
    }

    /// The statement that the step sends to the store.
    pub fn statement(&self) -> (st: SchemaStatement)
        ensures
            st == self.statement_of(),
    {
        match self {
            SchemaStep::Creating => SchemaStatement::Create,
            SchemaStep::Adding => SchemaStatement::AddColumn,
            SchemaStep::Ended(_) => SchemaStatement::Nothing,
        }
    }

    /// The result of a laying down that has ended; one that has not ended
    /// has none.
    pub fn result(self) -> (r: Option<Result<(), StoreError>>)
        ensures
            r == match self {
                SchemaStep::Ended(result) => Some(result),
                _ => None,
            },
    {
        match self {
            SchemaStep::Ended(result) => Some(result),
            _ => None,
        }
    }

    /// The step that follows the one under way, given its answer.
    pub fn after(self, answer: Result<(), StoreError>) -> (then: SchemaStep)
        ensures
            then == self.next(answer),
            !(self is Ended) ==> then.rank() < self.rank(),
    {
        match self {
            SchemaStep::Creating => match answer {
                Ok(_) => SchemaStep::Adding,
                Err(e) => SchemaStep::Ended(Err(e)),
            },
            SchemaStep::Adding => match answer {
                Ok(_) => SchemaStep::Ended(Ok(())),
                Err(e) => if starts_with(e.message.as_str(), "duplicate column name") {
                    SchemaStep::Ended(Ok(()))
                } else {
                    SchemaStep::Ended(Err(e))
                },
            },
            SchemaStep::Ended(r) => SchemaStep::Ended(r),
        }
    }

    /// Whether nothing is left to do.
    pub fn is_ended(&self) -> (b: bool)
        ensures
            b == (*self is Ended),
    {
        match self {
            SchemaStep::Ended(_) => true,
            _ => false,
        }
    }
}

/// The step that laying down has come to after the store gave `answers`,
/// one for each statement from the first on.
pub open spec fn schema_after(answers: Seq<Result<(), StoreError>>) -> SchemaStep
    decreases answers.len(),
{
    if answers.len() == 0 {
        SchemaStep::Creating
    } else {
        schema_after(answers.drop_last()).next(answers.last())
    }
}

/// The picture of what is laid down: whether `products` exists and, if so,
/// whether it has its `quantity` column; and whether the other relations
/// and the index exist.
pub struct Layout {
    pub products: Option<bool>,
    pub others: bool,
}

impl Layout {
    /// Everything is there: the four relations, the index, and the
    /// `quantity` column.
    pub open spec fn complete(self) -> bool {
        self.products == Some(true) && self.others
    }
}

/// The engine answers a step as the picture says. Creating leaves what
/// exists alone and makes the rest, a new `products` with its column.
/// Adding the column succeeds where `products` lacks it, and fails with
/// the words of [`column_exists_already`] exactly where `products` has it;
/// a failure changes nothing.
pub open spec fn schema_answered(step: SchemaStep, answer: Result<(), StoreError>, before: Layout, after: Layout) -> bool {
    match step {
        SchemaStep::Creating => match answer {
            Ok(_) => after.others && after.products == Some(before.products != Some(false)),
            Err(_) => true,
        },
        SchemaStep::Adding => match answer {
            Ok(_) => before.products == Some(false) && after == (Layout { products: Some(true), ..before }),
            Err(e) => after == before && (column_exists_already(e.message@) <==> before.products == Some(true)),
        },
        SchemaStep::Ended(_) => after == before,
    }
}

/// What holds of the layout while `step` is under way.
pub open spec fn schema_on_track(step: SchemaStep, layout: Layout) -> bool {
    match step {
        SchemaStep::Creating => true,
        SchemaStep::Adding => layout.others && layout.products is Some,
        SchemaStep::Ended(Ok(_)) => layout.complete(),
        SchemaStep::Ended(Err(_)) => true,
    }
}

/// One step, answered as the picture says, leaves the layout on track for
/// the step that follows. So whenever laying down ends in success, in two
/// steps from [`SchemaStep::Creating`], the layout is complete: the
/// relations and the index exist and `products` has its `quantity` column,
/// whether it was added now or was there before.
pub proof fn law_schema_step(step: SchemaStep, answer: Result<(), StoreError>, before: Layout, after: Layout)
    requires
        schema_on_track(step, before),
        schema_answered(step, answer, before, after),
    ensures
        schema_on_track(step.next(answer), after),
{
}

/// Whenever laying down ends in success, after answers that are as the
/// picture says, the layout is complete.
pub proof fn law_schema_is_complete(answers: Seq<Result<(), StoreError>>, layouts: Seq<Layout>)
    requires
        layouts.len() == answers.len() + 1,
        forall|k: int|
            0 <= k < answers.len() ==> schema_answered(
                schema_after(#[trigger] answers.take(k)),
                answers[k],
                layouts[k],
                layouts[k + 1],
            ),
    ensures
        schema_after(answers) matches SchemaStep::Ended(Ok(_)) ==> layouts.last().complete(),
        schema_on_track(schema_after(answers), layouts.last()),
    decreases answers.len(),
{
    if answers.len() > 0 {
        let n = answers.len() - 1;
        let earlier = answers.drop_last();
        assert forall|k: int| 0 <= k < earlier.len() implies schema_answered(
            schema_after(#[trigger] earlier.take(k)),
            earlier[k],
            layouts.drop_last()[k],
            layouts.drop_last()[k + 1],
        ) by {
            assert(earlier.take(k) =~= answers.take(k));
        }
        law_schema_is_complete(earlier, layouts.drop_last());
        assert(answers.take(n) =~= earlier);
        law_schema_step(schema_after(earlier), answers[n], layouts[n], layouts[n + 1]);
    }
}

/// Sends one statement of laying down to the store and takes its answer. A
/// failure is reported by its kind and in its words.
pub fn perform(conn: &mut Connection, statement: SchemaStatement) -> (answer: Result<(), StoreError>)
    ensures
        answer matches Err(e) ==> reports_engine(e, false),
        statement is Nothing ==> answer is Ok && *final(conn) == *old(conn),
{
    match statement {
        SchemaStatement::Create => StoreError::report(create_relations(conn), false),
        SchemaStatement::AddColumn => Product::written(StoreError::report(add_quantity_column(conn), false)),
        SchemaStatement::Nothing => Ok(()),
    }
}

/// Makes sure that the four relations and the index on product names exist,
/// and that `products` has its `quantity` column, by the steps that
/// [`SchemaStep`] names: create, then add the column. It may be called on
/// every start: what exists already is left alone, and a column that is
/// there already is no failure. Every other failure of either step is
/// returned. The result is the one with which the steps end.
pub fn init_db(conn: &mut Connection) -> (r: Result<(), StoreError>)
    ensures
        r matches Err(e) ==> reports_engine(e, false),
{
    let mut step = SchemaStep::Creating;
    while !step.is_ended()
        invariant
            step matches SchemaStep::Ended(Err(e)) ==> reports_engine(e, false),
        decreases step.rank(),
    {
        let answer = perform(conn, step.statement());
        step = step.after(answer);
    }
    match step.result() {
        Some(r) => r,
        None => unreached(),
    }
}

} // verus!
