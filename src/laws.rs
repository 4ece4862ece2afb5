use vstd::prelude::*;

use crate::change::{apply_edit, ChangeKind, ChangeModel};
use crate::editor::{EditorModel, EngineError};
use crate::history::HistoryModel;

verus! {

/// The document that the changes `cs`, oldest first, make of `doc`.
pub open spec fn perform(doc: Seq<char>, cs: Seq<ChangeModel>) -> Seq<char>
    decreases cs.len(),
{
    if cs.len() == 0 {
        doc
    } else {
        apply_edit(perform(doc, cs.drop_last()), cs.last().forward())
    }
}

/// Each change of `cs` is what a buffer reports for an edit made on the document
/// that the changes before it left, starting from `doc`.
pub open spec fn valid_run(doc: Seq<char>, cs: Seq<ChangeModel>) -> bool
    decreases cs.len(),
{
    cs.len() == 0 || (valid_run(doc, cs.drop_last()) && cs.last().valid_on(
        perform(doc, cs.drop_last()),
    ))
}

/// One `undo` on a buffer holding `doc`, with the edit it asks for carried out.
pub open spec fn undo_step(h: HistoryModel, doc: Seq<char>) -> (HistoryModel, Seq<char>) {
    match h.undo_result(doc.len()) {
        Ok(p) => (h.after_undo(doc.len()), apply_edit(doc, p.edit)),
        Err(_) => (h, doc),
    }
}

/// One `redo` on a buffer holding `doc`, with the edit it asks for carried out.
pub open spec fn redo_step(h: HistoryModel, doc: Seq<char>) -> (HistoryModel, Seq<char>) {
    match h.redo_result(doc.len()) {
        Ok(p) => (h.after_redo(doc.len()), apply_edit(doc, p.edit)),
        Err(_) => (h, doc),
    }
}

/// `n` steps of `undo_step`.
pub open spec fn undo_times(h: HistoryModel, doc: Seq<char>, n: nat) -> (HistoryModel, Seq<char>)
    decreases n,
{
    if n == 0 {
        (h, doc)
    } else {
        let s = undo_step(h, doc);
        undo_times(s.0, s.1, (n - 1) as nat)
    }
}

/// `n` steps of `redo_step`.
pub open spec fn redo_times(h: HistoryModel, doc: Seq<char>, n: nat) -> (HistoryModel, Seq<char>)
    decreases n,
{
    if n == 0 {
        (h, doc)
    } else {
        let s = redo_times(h, doc, (n - 1) as nat);
        redo_step(s.0, s.1)
    }
}

/// A change made on a document it is valid on is taken back by its backward edit,
/// and the inverse change does the same the other way round.
pub proof fn lemma_change_reverts(c: ChangeModel, doc: Seq<char>)
    requires
        c.valid_on(doc),
    ensures
        c.forward().fits(doc.len()),
        c.backward().fits(apply_edit(doc, c.forward()).len()),
        apply_edit(apply_edit(doc, c.forward()), c.backward()) == doc,
        c.inverse().inverse() == c,
        c.inverse().backward() == c.forward(),
{
    let d = apply_edit(doc, c.forward());
    let s = c.start as int;
    let e = c.end as int;
    match c.kind {
        ChangeKind::Insert => {
            assert(d.take(s) + d.skip(e) =~= doc);
        },
        ChangeKind::Delete => {
            assert(d.take(s) + c.text + d.skip(s) =~= doc);
        },
    }
}

/// Undoing the last `cs.len()` recorded changes, which were made in turn on `doc`,
/// gives back `doc`; redoing them all afterwards gives back the document they made,
/// with the stacks as they were before the undos.
pub proof fn lemma_undo_redo_round_trip(h: HistoryModel, doc: Seq<char>, cs: Seq<ChangeModel>)
    requires
        valid_run(doc, cs),
        cs.len() <= h.undo.len(),
        h.undo.skip(h.undo.len() - cs.len()) == cs,
    ensures
        undo_times(h, perform(doc, cs), cs.len()).1 == doc,
        undo_times(h, perform(doc, cs), cs.len()).0.undo == h.undo.take(
            h.undo.len() - cs.len(),
        ),
        redo_times(undo_times(h, perform(doc, cs), cs.len()).0, doc, cs.len()) == (
        h,
        perform(doc, cs),
        ),
    decreases cs.len(),
{
    if cs.len() == 0 {
        assert(h.undo.take(h.undo.len() as int) =~= h.undo);
    } else {
        let n = cs.len();
        let c = cs.last();
        let rest = cs.drop_last();
        let d = perform(doc, rest);
        let big = perform(doc, cs);
        assert(h.undo.last() == h.undo.skip(h.undo.len() - n)[n - 1]);
        lemma_change_reverts(c, d);
        let h1 = HistoryModel { undo: h.undo.drop_last(), redo: h.redo.push(c.inverse()) };
        assert(undo_step(h, big) == (h1, d));
        assert(h1.undo.skip(h1.undo.len() - rest.len()) =~= rest);
        lemma_undo_redo_round_trip(h1, doc, rest);
        let h2 = undo_times(h1, d, (n - 1) as nat).0;
        assert(undo_times(h, big, n) == undo_times(h1, d, (n - 1) as nat));
        assert(h2.undo =~= h.undo.take(h.undo.len() - n));
        assert(h1.redo.last() == c.inverse());
        assert(h1.undo.push(c.inverse().inverse()) =~= h.undo);
        assert(h1.redo.drop_last() =~= h.redo);
        assert(redo_step(h1, d) == (h, big));
    }
}

/// Once a user edit is recorded, after any number of undos, there is nothing to redo.
pub proof fn lemma_record_clears_redo(
    m: EditorModel,
    doc: Seq<char>,
    k: nat,
    c: ChangeModel,
    doc_len: nat,
)
    requires
        m.in_user_action,
    ensures
        (EditorModel { history: undo_times(m.history, doc, k).0, ..m }).notified(
            c,
        ).history.redo_result(doc_len) == Err::<crate::change::ReplayModel, EngineError>(
            EngineError::NothingToRedo,
        ),
{
}

} // verus!
