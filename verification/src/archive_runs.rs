//! Whole archive runs, and what holds of them.
//!
//! A run is the sequence of outcomes that the copies of its tables had, from
//! the first table on. The steps that the archiver took follow from it.

use crate::archive::{Archiver, Step};
use crate::error::Error;
use crate::tables::Table;
use vstd::prelude::*;

verus! {

/// The archiver `start` after it recorded `outcomes` one by one.
pub open spec fn after(start: Archiver, outcomes: Seq<Result<u64, Error>>) -> Archiver
    decreases outcomes.len(),
{
    if outcomes.len() == 0 {
        start
    } else {
        after(start, outcomes.drop_last()).next(outcomes.last()).0
    }
}

/// The steps that `start` answered `outcomes` with, one for each outcome.
pub open spec fn steps(start: Archiver, outcomes: Seq<Result<u64, Error>>) -> Seq<Step>
    decreases outcomes.len(),
{
    if outcomes.len() == 0 {
        Seq::empty()
    } else {
        steps(start, outcomes.drop_last()).push(
            after(start, outcomes.drop_last()).next(outcomes.last()).1,
        )
    }
}

/// Whether `start` accepted each of `outcomes` when it came.
pub open spec fn accepted(start: Archiver, outcomes: Seq<Result<u64, Error>>) -> bool
    decreases outcomes.len(),
{
    outcomes.len() == 0 || (accepted(start, outcomes.drop_last()) && after(
        start,
        outcomes.drop_last(),
    ).accepts(outcomes.last()))
}

/// The rows of the copies among `outcomes` that succeeded, summed up.
pub open spec fn rows_of(outcomes: Seq<Result<u64, Error>>) -> nat
    decreases outcomes.len(),
{
    if outcomes.len() == 0 {
        0
    } else {
        rows_of(outcomes.drop_last()) + match outcomes.last() {
            Ok(rows) => rows as nat,
            Err(_) => 0,
        }
    }
}

/// The sum over the first outcomes is no more than the sum over all.
proof fn lemma_rows_of_grows(outcomes: Seq<Result<u64, Error>>, k: int)
    requires
        0 <= k <= outcomes.len(),
    ensures
        rows_of(outcomes.take(k)) <= rows_of(outcomes),
    decreases outcomes.len(),
{
    if k == outcomes.len() {
        assert(outcomes.take(k) =~= outcomes);
    } else {
        lemma_rows_of_grows(outcomes.drop_last(), k);
        assert(outcomes.drop_last().take(k) =~= outcomes.take(k));
    }
}

/// Whether `step` is what follows the success of the copy of table `j`: the
/// copy of the next table, or the end with the rows of all tables so far.
pub open spec fn follows(
    tables: Vec<Table>,
    outcomes: Seq<Result<u64, Error>>,
    j: int,
    step: Step,
) -> bool {
    if j + 1 < tables@.len() {
        step == Step::Copy(tables@[j + 1])
    } else {
        step matches Step::Finish(total) && total == rows_of(outcomes.take(j + 1))
    }
}

/// What a run that the archiver accepted looks like.
proof fn lemma_run_shape(tables: Vec<Table>, outcomes: Seq<Result<u64, Error>>)
    requires
        accepted(Archiver::initial(tables), outcomes),
    ensures
        steps(Archiver::initial(tables), outcomes).len() == outcomes.len(),
        outcomes.len() <= tables@.len(),
        after(Archiver::initial(tables), outcomes).tables == tables,
        forall|j: int| 0 <= j < outcomes.len() - 1 ==> (#[trigger] outcomes[j]) is Ok,
        after(Archiver::initial(tables), outcomes).aborted <==> outcomes.len() > 0
            && outcomes.last() is Err,
        outcomes.len() > 0 && outcomes.last() is Err ==> steps(
            Archiver::initial(tables),
            outcomes,
        ).last() == Step::Abort(outcomes.last()->Err_0),
        !after(Archiver::initial(tables), outcomes).aborted ==> {
            &&& after(Archiver::initial(tables), outcomes).copied == outcomes.len()
            &&& after(Archiver::initial(tables), outcomes).rows == rows_of(outcomes)
        },
        forall|j: int|
            0 <= j < outcomes.len() && outcomes[j] is Ok ==> follows(
                tables,
                outcomes,
                j,
                #[trigger] steps(Archiver::initial(tables), outcomes)[j],
            ),
    decreases outcomes.len(),
{
    let start = Archiver::initial(tables);
    if outcomes.len() > 0 {
        let front = outcomes.drop_last();
        lemma_run_shape(tables, front);
        assert forall|j: int| 0 <= j < outcomes.len() - 1 implies (#[trigger] outcomes[j]) is Ok
        by {
            assert(outcomes[j] == front[j]);
        }
        assert(tables.len() == tables@.len());
        let taken = steps(start, outcomes);
        assert forall|j: int| 0 <= j < outcomes.len() && outcomes[j] is Ok implies follows(
            tables,
            outcomes,
            j,
            #[trigger] taken[j],
        ) by {
            if j == front.len() {
                assert(outcomes.take(j + 1) =~= outcomes);
            }
        }
    }
}

/// A run in which every copy succeeds asks for the tables in the order of the
/// list, each once, and finishes with the sum of their rows.
pub proof fn lemma_archive_sums_rows(tables: Vec<Table>, outcomes: Seq<Result<u64, Error>>)
    requires
        outcomes.len() == tables@.len(),
        forall|i: int| 0 <= i < outcomes.len() ==> (#[trigger] outcomes[i]) is Ok,
        rows_of(outcomes) <= u64::MAX,
    ensures
        accepted(Archiver::initial(tables), outcomes),
        Archiver::initial(tables).pending() == if tables@.len() > 0 {
            Step::Copy(tables@[0])
        } else {
            Step::Finish(0)
        },
        forall|i: int|
            0 <= i < outcomes.len() - 1 ==> #[trigger] steps(Archiver::initial(tables), outcomes)[i]
                == Step::Copy(tables@[i + 1]),
        outcomes.len() > 0 ==> (steps(Archiver::initial(tables), outcomes).last()
            matches Step::Finish(total) && total == rows_of(outcomes)),
{
    lemma_all_accepted(tables, outcomes, outcomes.len() as int);
    assert(outcomes.take(outcomes.len() as int) =~= outcomes);
    lemma_run_shape(tables, outcomes);
}

/// Where every copy succeeds and the sum of the rows has room in the
/// counter, the archiver accepts outcome after outcome.
proof fn lemma_all_accepted(tables: Vec<Table>, outcomes: Seq<Result<u64, Error>>, k: int)
    requires
        0 <= k <= outcomes.len() <= tables@.len(),
        forall|i: int| 0 <= i < outcomes.len() ==> (#[trigger] outcomes[i]) is Ok,
        rows_of(outcomes) <= u64::MAX,
    ensures
        accepted(Archiver::initial(tables), outcomes.take(k)),
    decreases k,
{
    if k > 0 {
        lemma_all_accepted(tables, outcomes, k - 1);
        let front = outcomes.take(k - 1);
        let taken = outcomes.take(k);
        assert(taken.drop_last() =~= front);
        lemma_run_shape(tables, front);
        lemma_rows_of_grows(outcomes, k);
    }
}

/// A failure ends the run. In a run that the archiver accepted, a copy that
/// failed is the last one: the archiver answers it by giving the run up with
/// that very error and takes nothing more. The tables before it were asked
/// for in the order of the list, and none after it.
pub proof fn lemma_failure_ends_archive(
    tables: Vec<Table>,
    outcomes: Seq<Result<u64, Error>>,
    i: int,
)
    requires
        accepted(Archiver::initial(tables), outcomes),
        0 <= i < outcomes.len(),
        outcomes[i] is Err,
    ensures
        i == outcomes.len() - 1,
        steps(Archiver::initial(tables), outcomes).last() == Step::Abort(outcomes[i]->Err_0),
        forall|j: int|
            0 <= j < i ==> #[trigger] steps(Archiver::initial(tables), outcomes)[j] == Step::Copy(
                tables@[j + 1],
            ),
        forall|outcome: Result<u64, Error>|
            !(#[trigger] after(Archiver::initial(tables), outcomes).accepts(outcome)),
{
    lemma_run_shape(tables, outcomes);
}

/// A run that finishes has copied every table: in a run that the archiver
/// accepted and answered at last with `Finish(total)`, there is one outcome
/// for each table, all of them successes, and `total` is the sum of their
/// rows.
pub proof fn lemma_finish_sums_rows(
    tables: Vec<Table>,
    outcomes: Seq<Result<u64, Error>>,
    total: u64,
)
    requires
        accepted(Archiver::initial(tables), outcomes),
        outcomes.len() > 0,
        steps(Archiver::initial(tables), outcomes).last() == Step::Finish(total),
    ensures
        outcomes.len() == tables@.len(),
        forall|j: int| 0 <= j < outcomes.len() ==> (#[trigger] outcomes[j]) is Ok,
        total == rows_of(outcomes),
{
    lemma_run_shape(tables, outcomes);
}

} // verus!
