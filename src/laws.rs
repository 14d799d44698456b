use vstd::prelude::*;

use crate::records::{deleted_text, inserted_text, row_entry, HandlerError};
use crate::session::{
    accepted, expects, initial, next, run, SessionModel, statement_text, ActionModel, Event, OperationModel, ParamModel, Phase,
    ResponseModel,
};
use crate::text::{decimal, digit_char};

verus! {

proof fn lemma_run_push(s: SessionModel, evs: Seq<Event>, e: Event)
    ensures
        run(s, evs.push(e)) == ({
            let (t, acts) = run(s, evs);
            let (u, a) = next(t, e);
            (u, acts.push(a))
        }),
        accepted(s, evs.push(e)) == (accepted(s, evs) && expects(run(s, evs).0, e)),
{
    assert(evs.push(e).drop_last() =~= evs);
}

/// Deleting by key, on an open database, prepares the delete, binds the key as
/// its only parameter, and reports success with the count of rows the store
/// removed, whatever it is: a key that matches nothing gives
/// "0 rows deleted", not an error.
pub proof fn law_delete_reports_count(id: i64, n: usize)
    ensures
        ({
            let evs = seq![Event::Opened, Event::Prepared, Event::Executed(n)];
            let (end, acts) = run(initial(OperationModel::Delete(id)), evs);
            &&& accepted(initial(OperationModel::Delete(id)), evs)
            &&& end.phase == Phase::Done
            &&& acts == seq![
                ActionModel::Prepare(statement_text(OperationModel::Delete(id))),
                ActionModel::Execute(ParamModel::Integer(id)),
                ActionModel::Reply(Ok(ResponseModel::Status(deleted_text(n as nat)))),
            ]
        }),
        n == 0 ==> deleted_text(n as nat) == "0 rows deleted"@,
{
    let s = initial(OperationModel::Delete(id));
    let e0 = Seq::<Event>::empty();
    lemma_run_push(s, e0, Event::Opened);
    lemma_run_push(s, e0.push(Event::Opened), Event::Prepared);
    lemma_run_push(s, e0.push(Event::Opened).push(Event::Prepared), Event::Executed(n));
    assert(seq![Event::Opened, Event::Prepared, Event::Executed(n)] =~= e0.push(Event::Opened).push(Event::Prepared).push(Event::Executed(n)));
    assert(run(s, e0.push(Event::Opened).push(Event::Prepared).push(Event::Executed(n))).1 =~= seq![
        ActionModel::Prepare(statement_text(OperationModel::Delete(id))),
        ActionModel::Execute(ParamModel::Integer(id)),
        ActionModel::Reply(Ok(ResponseModel::Status(deleted_text(n as nat)))),
    ]);
    if n == 0 {
        reveal_strlit("0 rows deleted");
        reveal_strlit(" rows deleted");
        assert(decimal(0) == seq![digit_char(0)]);
        assert(deleted_text(0) =~= "0 rows deleted"@);
    }
}

/// Inserting, on an open database, prepares the insert, binds the request's
/// text as its only parameter (the key is left to the store), runs it once,
/// and reports the count of rows the store added.
pub proof fn law_insert_binds_text(text: Seq<char>, n: usize)
    ensures
        ({
            let evs = seq![Event::Opened, Event::Prepared, Event::Executed(n)];
            let (end, acts) = run(initial(OperationModel::Insert(text)), evs);
            &&& accepted(initial(OperationModel::Insert(text)), evs)
            &&& end.phase == Phase::Done
            &&& acts == seq![
                ActionModel::Prepare(statement_text(OperationModel::Insert(text))),
                ActionModel::Execute(ParamModel::Text(text)),
                ActionModel::Reply(Ok(ResponseModel::Status(inserted_text(n as nat)))),
            ]
        }),
{
    let s = initial(OperationModel::Insert(text));
    let e0 = Seq::<Event>::empty();
    lemma_run_push(s, e0, Event::Opened);
    lemma_run_push(s, e0.push(Event::Opened), Event::Prepared);
    lemma_run_push(s, e0.push(Event::Opened).push(Event::Prepared), Event::Executed(n));
    assert(seq![Event::Opened, Event::Prepared, Event::Executed(n)] =~= e0.push(Event::Opened).push(Event::Prepared).push(Event::Executed(n)));
    assert(run(s, e0.push(Event::Opened).push(Event::Prepared).push(Event::Executed(n))).1 =~= seq![
        ActionModel::Prepare(statement_text(OperationModel::Insert(text))),
        ActionModel::Execute(ParamModel::Text(text)),
        ActionModel::Reply(Ok(ResponseModel::Status(inserted_text(n as nat)))),
    ]);
}

/// Every operation fails alike when the database cannot be opened, and alike
/// when its statement cannot be prepared; in both cases nothing is run.
pub proof fn law_setup_failures(op: OperationModel)
    ensures
        accepted(initial(op), seq![Event::OpenFailed]),
        run(initial(op), seq![Event::OpenFailed]).0.phase == Phase::Done,
        run(initial(op), seq![Event::OpenFailed]).1 == seq![ActionModel::Reply(Err(HandlerError::Connect))],
        accepted(initial(op), seq![Event::Opened, Event::PrepareFailed]),
        run(initial(op), seq![Event::Opened, Event::PrepareFailed]).0.phase == Phase::Done,
        run(initial(op), seq![Event::Opened, Event::PrepareFailed]).1 == seq![
            ActionModel::Prepare(statement_text(op)),
            ActionModel::Reply(Err(HandlerError::Prepare)),
        ],
{
    let s = initial(op);
    let e0 = Seq::<Event>::empty();
    lemma_run_push(s, e0, Event::OpenFailed);
    lemma_run_push(s, e0, Event::Opened);
    lemma_run_push(s, e0.push(Event::Opened), Event::PrepareFailed);
    assert(seq![Event::OpenFailed] =~= e0.push(Event::OpenFailed));
    assert(seq![Event::Opened, Event::PrepareFailed] =~= e0.push(Event::Opened).push(Event::PrepareFailed));
    assert(run(s, e0.push(Event::OpenFailed)).1 =~= seq![ActionModel::Reply(Err(HandlerError::Connect))]);
    assert(run(s, e0.push(Event::Opened).push(Event::PrepareFailed)).1 =~= seq![
        ActionModel::Prepare(statement_text(op)),
        ActionModel::Reply(Err(HandlerError::Prepare)),
    ]);
}

/// The events of a listing's rows, in order.
pub open spec fn row_events(rows: Seq<(Option<i64>, Option<String>)>) -> Seq<Event> {
    rows.map_values(|r: (Option<i64>, Option<String>)| Event::Row(r.0, r.1))
}

/// Whether every row maps to an entry.
pub open spec fn all_rows_map(rows: Seq<(Option<i64>, Option<String>)>) -> bool {
    forall|i: int| 0 <= i < rows.len() ==> (#[trigger] row_entry(rows[i].0, rows[i].1)) is Some
}

/// The entries of rows that all map.
pub open spec fn entries(rows: Seq<(Option<i64>, Option<String>)>) -> Seq<(i64, Seq<char>)> {
    rows.map_values(|r: (Option<i64>, Option<String>)| row_entry(r.0, r.1)->Some_0)
}

/// The events of a listing up to its first row.
pub open spec fn listing_start() -> Seq<Event> {
    seq![Event::Opened, Event::Prepared, Event::QueryStarted]
}

proof fn lemma_run_append(s: SessionModel, a: Seq<Event>, b: Seq<Event>)
    ensures
        run(s, a + b).0 == run(run(s, a).0, b).0,
        run(s, a + b).1 == run(s, a).1 + run(run(s, a).0, b).1,
        accepted(s, a + b) == (accepted(s, a) && accepted(run(s, a).0, b)),
    decreases b.len(),
{
    if b.len() == 0 {
        assert(a + b =~= a);
        assert(run(s, a).1 + run(run(s, a).0, b).1 =~= run(s, a).1);
    } else {
        lemma_run_append(s, a, b.drop_last());
        assert((a + b).drop_last() =~= a + b.drop_last());
        assert((a + b).last() == b.last());
        let t = run(s, a).0;
        assert(run(s, a + b).1 =~= run(s, a).1 + run(t, b).1);
    }
}

proof fn lemma_listing_start()
    ensures
        accepted(initial(OperationModel::Fetch), listing_start()),
        run(initial(OperationModel::Fetch), listing_start()).0 == (SessionModel {
            op: OperationModel::Fetch,
            phase: Phase::Reading,
            items: Seq::empty(),
        }),
        run(initial(OperationModel::Fetch), listing_start()).1.last() == ActionModel::NextRow,
{
    let s = initial(OperationModel::Fetch);
    let e0 = Seq::<Event>::empty();
    lemma_run_push(s, e0, Event::Opened);
    lemma_run_push(s, e0.push(Event::Opened), Event::Prepared);
    lemma_run_push(s, e0.push(Event::Opened).push(Event::Prepared), Event::QueryStarted);
    assert(listing_start() =~= e0.push(Event::Opened).push(Event::Prepared).push(Event::QueryStarted));
}

proof fn lemma_reading(s: SessionModel, rows: Seq<(Option<i64>, Option<String>)>)
    requires
        s.phase == Phase::Reading,
        all_rows_map(rows),
    ensures
        accepted(s, row_events(rows)),
        run(s, row_events(rows)).0 == (SessionModel { items: s.items + entries(rows), ..s }),
    decreases rows.len(),
{
    if rows.len() == 0 {
        assert(row_events(rows) =~= Seq::<Event>::empty());
        assert(s.items + entries(rows) =~= s.items);
    } else {
        let init = rows.drop_last();
        assert(all_rows_map(init)) by {
            assert forall|i: int| 0 <= i < init.len() implies (#[trigger] row_entry(init[i].0, init[i].1)) is Some by {
                assert(init[i] == rows[i]);
                assert(row_entry(rows[i].0, rows[i].1) is Some);
            }
        }
        lemma_reading(s, init);
        assert(row_events(rows) =~= row_events(init).push(Event::Row(rows.last().0, rows.last().1)));
        lemma_run_push(s, row_events(init), Event::Row(rows.last().0, rows.last().1));
        assert(row_entry(rows[rows.len() - 1].0, rows[rows.len() - 1].1) is Some);
        assert(s.items + entries(rows) =~= (s.items + entries(init)).push(
            row_entry(rows.last().0, rows.last().1)->Some_0,
        ));
    }
}

/// A listing whose rows all map replies with exactly their entries, in the
/// order the query gave them; with no rows at all, with an empty list.
pub proof fn law_listing_returns_every_row(rows: Seq<(Option<i64>, Option<String>)>)
    requires
        all_rows_map(rows),
    ensures
        ({
            let evs = listing_start() + row_events(rows) + seq![Event::RowsDone];
            let (end, acts) = run(initial(OperationModel::Fetch), evs);
            &&& accepted(initial(OperationModel::Fetch), evs)
            &&& end.phase == Phase::Done
            &&& acts.last() == ActionModel::Reply(Ok(ResponseModel::Items(entries(rows))))
        }),
        rows.len() == 0 ==> entries(rows) == Seq::<(i64, Seq<char>)>::empty(),
{
    let s = initial(OperationModel::Fetch);
    lemma_listing_start();
    let r = run(s, listing_start()).0;
    lemma_reading(r, rows);
    lemma_run_append(s, listing_start(), row_events(rows));
    lemma_run_push(s, listing_start() + row_events(rows), Event::RowsDone);
    assert(listing_start() + row_events(rows) + seq![Event::RowsDone] =~= (listing_start() + row_events(rows)).push(Event::RowsDone));
    assert(Seq::<(i64, Seq<char>)>::empty() + entries(rows) =~= entries(rows));
    if rows.len() == 0 {
        assert(entries(rows) =~= Seq::<(i64, Seq<char>)>::empty());
    }
}

/// A listing never replies with part of the table: at the first row that
/// does not map, it gives up with the collecting error and reads no further.
pub proof fn law_listing_all_or_nothing(rows: Seq<(Option<i64>, Option<String>)>, k: int)
    requires
        0 <= k < rows.len(),
        all_rows_map(rows.take(k)),
        row_entry(rows[k].0, rows[k].1) is None,
    ensures
        ({
            let evs = listing_start() + row_events(rows.take(k + 1));
            let (end, acts) = run(initial(OperationModel::Fetch), evs);
            &&& accepted(initial(OperationModel::Fetch), evs)
            &&& end.phase == Phase::Done
            &&& acts.last() == ActionModel::Reply(Err(HandlerError::Collect))
        }),
{
    let s = initial(OperationModel::Fetch);
    lemma_listing_start();
    let r = run(s, listing_start()).0;
    lemma_reading(r, rows.take(k));
    lemma_run_append(s, listing_start(), row_events(rows.take(k)));
    lemma_run_push(s, listing_start() + row_events(rows.take(k)), Event::Row(rows[k].0, rows[k].1));
    assert(row_events(rows.take(k + 1)) =~= row_events(rows.take(k)).push(Event::Row(rows[k].0, rows[k].1)));
    assert(listing_start() + row_events(rows.take(k + 1)) =~= (listing_start() + row_events(rows.take(k))).push(Event::Row(rows[k].0, rows[k].1)));
}

} // verus!
