//! Whole runs of the table copy, and what holds of them.
//!
//! A run is the sequence of replies that a copy was given, from its start.
//! The commands that the machine answered with follow from it.

use crate::copy::{CommandView, Phase, Reply, TableCopy};
use crate::error::Error;
use crate::tables::Table;
use crate::value::{adaptable, adapted_row, SourceValue};
use vstd::prelude::*;

verus! {

/// The machine `start` after it took `replies` one by one.
pub open spec fn after(start: TableCopy, replies: Seq<Reply>) -> TableCopy
    decreases replies.len(),
{
    if replies.len() == 0 {
        start
    } else {
        after(start, replies.drop_last()).next(replies.last()).0
    }
}

/// The commands that `start` answered `replies` with, one for each reply.
pub open spec fn answers(start: TableCopy, replies: Seq<Reply>) -> Seq<CommandView>
    decreases replies.len(),
{
    if replies.len() == 0 {
        Seq::empty()
    } else {
        answers(start, replies.drop_last()).push(
            after(start, replies.drop_last()).next(replies.last()).1,
        )
    }
}

/// Whether `start` accepted each of `replies` when it came.
pub open spec fn accepted(start: TableCopy, replies: Seq<Reply>) -> bool
    decreases replies.len(),
{
    replies.len() == 0 || (accepted(start, replies.drop_last()) && after(
        start,
        replies.drop_last(),
    ).accepts(replies.last()))
}

/// One more reply at the end of a run.
proof fn lemma_one_more(start: TableCopy, replies: Seq<Reply>, reply: Reply)
    ensures
        after(start, replies.push(reply)) == after(start, replies).next(reply).0,
        answers(start, replies.push(reply)) == answers(start, replies).push(
            after(start, replies).next(reply).1,
        ),
        accepted(start, replies.push(reply)) == (accepted(start, replies) && after(
            start,
            replies,
        ).accepts(reply)),
{
    assert(replies.push(reply).drop_last() =~= replies);
}

/// A run in two parts: the second part is a run of the machine that the
/// first part left.
proof fn lemma_then(start: TableCopy, first: Seq<Reply>, second: Seq<Reply>)
    ensures
        after(start, first + second) == after(after(start, first), second),
        answers(start, first + second) == answers(start, first) + answers(
            after(start, first),
            second,
        ),
        accepted(start, first + second) == (accepted(start, first) && accepted(
            after(start, first),
            second,
        )),
    decreases second.len(),
{
    if second.len() > 0 {
        let front = second.drop_last();
        lemma_then(start, first, front);
        assert(first + second =~= (first + front).push(second.last()));
        lemma_one_more(start, first + front, second.last());
        assert(answers(start, first + second) =~= answers(start, first) + answers(
            after(start, first),
            second,
        ));
    }
}

/// The replies of a source that yields `rows` to a sink that takes each of
/// them: every row is followed by the insert's success.
pub open spec fn row_replies(rows: Seq<Vec<SourceValue>>) -> Seq<Reply>
    decreases rows.len(),
{
    if rows.len() == 0 {
        Seq::empty()
    } else {
        row_replies(rows.drop_last()).push(Reply::Row(rows.last())).push(Reply::Done)
    }
}

/// The commands that copy `rows`: for every row, in order, the insert of its
/// adapted values and the fetch of the next.
pub open spec fn row_commands(rows: Seq<Vec<SourceValue>>) -> Seq<CommandView>
    decreases rows.len(),
{
    if rows.len() == 0 {
        Seq::empty()
    } else {
        row_commands(rows.drop_last()).push(
            CommandView::Insert(adapted_row(rows.last()@)->Ok_0),
        ).push(CommandView::Fetch)
    }
}

/// The replies of a copy in which nothing fails and the source yields `rows`.
pub open spec fn clean_replies(rows: Seq<Vec<SourceValue>>) -> Seq<Reply> {
    seq![Reply::Done, Reply::Done, Reply::Done, Reply::Done] + row_replies(rows) + seq![
        Reply::End,
        Reply::Done,
    ]
}

/// The commands of a copy of `table` in which nothing fails and the source
/// yields `rows`, but for the first, which asks for the transaction.
pub open spec fn clean_commands(table: Table, rows: Seq<Vec<SourceValue>>) -> Seq<CommandView> {
    seq![
        CommandView::Define(table.definition),
        CommandView::Prepare(table.insert_sql),
        CommandView::Select(table.select_sql),
        CommandView::Fetch,
    ] + row_commands(rows) + seq![CommandView::Commit, CommandView::Finish(rows.len() as u64)]
}

/// Whether each of `rows` can be copied into `table`: it has the table's
/// number of columns, and the sink can hold every value of it.
pub open spec fn rows_fit(table: Table, rows: Seq<Vec<SourceValue>>) -> bool {
    forall|i: int|
        0 <= i < rows.len() ==> (#[trigger] rows[i])@.len() == table.columns && adaptable(
            rows[i]@,
        )
}

/// A machine that fetches takes `rows` one after the other, inserts each and
/// counts it.
proof fn lemma_rows_streamed(table: Table, rows: Seq<Vec<SourceValue>>)
    requires
        rows.len() <= u64::MAX,
        rows_fit(table, rows),
    ensures
        accepted(TableCopy::initial(table).moved(Phase::Fetching), row_replies(rows)),
        after(TableCopy::initial(table).moved(Phase::Fetching), row_replies(rows)) == (TableCopy {
            table,
            phase: Phase::Fetching,
            rows: rows.len() as u64,
        }),
        answers(TableCopy::initial(table).moved(Phase::Fetching), row_replies(rows))
            == row_commands(rows),
    decreases rows.len(),
{
    let start = TableCopy::initial(table).moved(Phase::Fetching);
    if rows.len() > 0 {
        let front = rows.drop_last();
        let row = rows.last();
        assert(rows_fit(table, front));
        lemma_rows_streamed(table, front);
        lemma_one_more(start, row_replies(front), Reply::Row(row));
        lemma_one_more(start, row_replies(front).push(Reply::Row(row)), Reply::Done);
    }
}

/// A copy in which nothing fails returns the number of rows that the source
/// yields, whatever they hold: the machine accepts the whole run, inserts the
/// rows one by one in the order in which they come, commits once after the
/// last, and finishes with their count.
pub proof fn lemma_copy_counts_rows(table: Table, rows: Seq<Vec<SourceValue>>)
    requires
        rows.len() <= u64::MAX,
        rows_fit(table, rows),
    ensures
        accepted(TableCopy::initial(table), clean_replies(rows)),
        answers(TableCopy::initial(table), clean_replies(rows)) == clean_commands(table, rows),
        answers(TableCopy::initial(table), clean_replies(rows)).last() == CommandView::Finish(
            rows.len() as u64,
        ),
        after(TableCopy::initial(table), clean_replies(rows)) == (TableCopy {
            table,
            phase: Phase::Finished,
            rows: rows.len() as u64,
        }),
{
    let start = TableCopy::initial(table);
    let none = Seq::<Reply>::empty();
    let head = seq![Reply::Done, Reply::Done, Reply::Done, Reply::Done];
    let tail = seq![Reply::End, Reply::Done];
    lemma_one_more(start, none, Reply::Done);
    lemma_one_more(start, none.push(Reply::Done), Reply::Done);
    lemma_one_more(start, none.push(Reply::Done).push(Reply::Done), Reply::Done);
    lemma_one_more(start, none.push(Reply::Done).push(Reply::Done).push(Reply::Done), Reply::Done);
    assert(head =~= none.push(Reply::Done).push(Reply::Done).push(Reply::Done).push(Reply::Done));
    lemma_rows_streamed(table, rows);
    lemma_then(start, head, row_replies(rows));
    let streamed = after(start, head + row_replies(rows));
    lemma_one_more(streamed, none, Reply::End);
    lemma_one_more(streamed, none.push(Reply::End), Reply::Done);
    assert(tail =~= none.push(Reply::End).push(Reply::Done));
    lemma_then(start, head + row_replies(rows), tail);
}

/// A copy from a source without rows still creates the table, commits the
/// empty transaction and returns 0.
pub proof fn lemma_copy_of_nothing(table: Table)
    ensures
        accepted(TableCopy::initial(table), clean_replies(Seq::empty())),
        answers(TableCopy::initial(table), clean_replies(Seq::empty())) == seq![
            CommandView::Define(table.definition),
            CommandView::Prepare(table.insert_sql),
            CommandView::Select(table.select_sql),
            CommandView::Fetch,
            CommandView::Commit,
            CommandView::Finish(0),
        ],
{
    lemma_copy_counts_rows(table, Seq::empty());
    assert(clean_commands(table, Seq::empty()) =~= seq![
        CommandView::Define(table.definition),
        CommandView::Prepare(table.insert_sql),
        CommandView::Select(table.select_sql),
        CommandView::Fetch,
        CommandView::Commit,
        CommandView::Finish(0),
    ]);
}

/// Where the sink refuses to create the table, as it does when it holds one
/// of that name, the copy is given up with the sink's error before the source
/// is asked for anything: no row is fetched or inserted, nothing is
/// committed, and the machine takes no further reply.
pub proof fn lemma_refused_definition(table: Table, error: Error)
    ensures
        accepted(TableCopy::initial(table), seq![Reply::Done, Reply::Failed(error)]),
        answers(TableCopy::initial(table), seq![Reply::Done, Reply::Failed(error)]) == seq![
            CommandView::Define(table.definition),
            CommandView::Abort(error),
        ],
        after(TableCopy::initial(table), seq![Reply::Done, Reply::Failed(error)])
            == TableCopy::initial(table).moved(Phase::Aborted),
        forall|reply: Reply|
            !(#[trigger] TableCopy::initial(table).moved(Phase::Aborted).accepts(reply)),
{
    let start = TableCopy::initial(table);
    let none = Seq::<Reply>::empty();
    lemma_one_more(start, none, Reply::Done);
    lemma_one_more(start, none.push(Reply::Done), Reply::Failed(error));
    assert(seq![Reply::Done, Reply::Failed(error)] =~= none.push(Reply::Done).push(
        Reply::Failed(error),
    ));
    assert(answers(start, seq![Reply::Done, Reply::Failed(error)]) =~= seq![
        CommandView::Define(table.definition),
        CommandView::Abort(error),
    ]);
}

/// The error that `reply` ends a copy with, if it does: a failure, or a row
/// with a value that the sink cannot hold.
pub open spec fn fatal(reply: Reply) -> Option<Error> {
    match reply {
        Reply::Failed(error) => Some(error),
        Reply::Row(row) => match adapted_row(row@) {
            Ok(_) => None,
            Err(error) => Some(error),
        },
        _ => None,
    }
}

/// How many of `replies` are rows.
pub open spec fn rows_in(replies: Seq<Reply>) -> nat
    decreases replies.len(),
{
    if replies.len() == 0 {
        0
    } else if replies.last() is Row {
        rows_in(replies.drop_last()) + 1
    } else {
        rows_in(replies.drop_last())
    }
}

/// What a run that the machine accepted looks like.
proof fn lemma_run_shape(table: Table, replies: Seq<Reply>)
    requires
        accepted(TableCopy::initial(table), replies),
    ensures
        answers(TableCopy::initial(table), replies).len() == replies.len(),
        after(TableCopy::initial(table), replies).table == table,
        forall|j: int| 0 <= j < replies.len() - 1 ==> fatal(#[trigger] replies[j]) is None,
        after(TableCopy::initial(table), replies).phase == Phase::Aborted <==> replies.len() > 0
            && fatal(replies.last()) is Some,
        replies.len() > 0 && fatal(replies.last()) is Some ==> answers(
            TableCopy::initial(table),
            replies,
        ).last() == CommandView::Abort(fatal(replies.last())->Some_0),
        forall|j: int|
            0 <= j < replies.len() && (#[trigger] answers(
                TableCopy::initial(table),
                replies,
            )[j]) is Finish ==> j == replies.len() - 1 && after(
                TableCopy::initial(table),
                replies,
            ).phase == Phase::Finished,
        forall|j: int|
            0 <= j < replies.len() && (#[trigger] answers(
                TableCopy::initial(table),
                replies,
            )[j]) is Commit ==> {
                let phase = after(TableCopy::initial(table), replies).phase;
                ||| j == replies.len() - 1 && phase == Phase::Committing
                ||| j == replies.len() - 2 && (phase == Phase::Finished || phase == Phase::Aborted)
            },
        after(TableCopy::initial(table), replies).phase != Phase::Aborted ==> {
            let machine = after(TableCopy::initial(table), replies);
            rows_in(replies) == machine.rows + if machine.phase == Phase::Inserting {
                1int
            } else {
                0int
            }
        },
    decreases replies.len(),
{
    let start = TableCopy::initial(table);
    if replies.len() > 0 {
        let front = replies.drop_last();
        lemma_run_shape(table, front);
        assert forall|j: int| 0 <= j < replies.len() - 1 implies fatal(
            #[trigger] replies[j],
        ) is None by {
            assert(replies[j] == front[j]);
        }
        let commands = answers(start, replies);
        assert forall|j: int| 0 <= j < front.len() implies commands[j] == answers(
            start,
            front,
        )[j] by {}
    }
}

/// A failure ends the copy. In a run that the machine accepted, a reply that
/// fails, or a row that the sink cannot hold, is the last one: the machine
/// answers it by giving the copy up with that very error and takes nothing
/// more. Such a run never finishes, and it holds a commit only where the
/// commit itself is what failed.
pub proof fn lemma_failure_ends_copy(table: Table, replies: Seq<Reply>, i: int)
    requires
        accepted(TableCopy::initial(table), replies),
        0 <= i < replies.len(),
        fatal(replies[i]) is Some,
    ensures
        i == replies.len() - 1,
        answers(TableCopy::initial(table), replies).last() == CommandView::Abort(
            fatal(replies[i])->Some_0,
        ),
        after(TableCopy::initial(table), replies).phase == Phase::Aborted,
        forall|reply: Reply| !(#[trigger] after(TableCopy::initial(table), replies).accepts(reply)),
        forall|j: int|
            0 <= j < replies.len() ==> !((#[trigger] answers(
                TableCopy::initial(table),
                replies,
            )[j]) is Finish),
        forall|j: int|
            0 <= j < replies.len() && (#[trigger] answers(
                TableCopy::initial(table),
                replies,
            )[j]) is Commit ==> j == i - 1,
{
    lemma_run_shape(table, replies);
}

/// A copy that finishes returns the number of rows that the source yielded:
/// in a run that the machine accepted and answered at last with
/// `Finish(count)`, `count` is the number of rows among the replies, none of
/// the replies was a failure, and every row was one that the sink can hold.
pub proof fn lemma_finish_counts_rows(table: Table, replies: Seq<Reply>, count: u64)
    requires
        accepted(TableCopy::initial(table), replies),
        replies.len() > 0,
        answers(TableCopy::initial(table), replies).last() == CommandView::Finish(count),
    ensures
        count == rows_in(replies),
        forall|j: int| 0 <= j < replies.len() ==> fatal(#[trigger] replies[j]) is None,
{
    lemma_run_shape(table, replies);
    lemma_run_shape(table, replies.drop_last());
}

} // verus!
