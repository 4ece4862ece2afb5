use vstd::prelude::*;

use crate::change::{Change, ChangeKind, ChangeModel, Replay, ReplayModel};
use crate::gate::UserActionGate;
use crate::history::{History, HistoryModel};

verus! {

/// Why an undo or a redo did nothing.
#[derive(Clone, Copy, Debug, PartialEq, Eq, Structural)]
pub enum EngineError {
    /// The undo stack is empty.
    NothingToUndo,
    /// The redo stack is empty.
    NothingToRedo,
    /// The record at the top of the stack reaches past the end of the document:
    /// the history and the buffer no longer agree.
    InvalidOffset,
}

/// What taking back `c` asks of a document of `doc_len` characters.
pub open spec fn revert_result(c: ChangeModel, doc_len: nat) -> Result<ReplayModel, EngineError> {
    if c.backward().fits(doc_len) {
        Ok(ReplayModel { edit: c.backward(), cursor: c.start })
    } else {
        Err(EngineError::InvalidOffset)
    }
}

impl HistoryModel {
    /// What `undo` asks of a document of `doc_len` characters.
    pub open spec fn undo_result(self, doc_len: nat) -> Result<ReplayModel, EngineError> {
        if self.undo.len() == 0 {
            Err(EngineError::NothingToUndo)
        } else {
            revert_result(self.undo.last(), doc_len)
        }
    }

    /// The stacks after `undo` on a document of `doc_len` characters: on success the
    /// top record moves, inverted, to the redo stack; on failure nothing changes.
    pub open spec fn after_undo(self, doc_len: nat) -> HistoryModel {
        if self.undo_result(doc_len) is Ok {
            HistoryModel {
                undo: self.undo.drop_last(),
                redo: self.redo.push(self.undo.last().inverse()),
            }
        } else {
            self
        }
    }

    /// What `redo` asks of a document of `doc_len` characters.
    pub open spec fn redo_result(self, doc_len: nat) -> Result<ReplayModel, EngineError> {
        if self.redo.len() == 0 {
            Err(EngineError::NothingToRedo)
        } else {
            revert_result(self.redo.last(), doc_len)
        }
    }

    /// The stacks after `redo` on a document of `doc_len` characters: on success the
    /// top record moves, inverted, back to the undo stack; on failure nothing changes.
    pub open spec fn after_redo(self, doc_len: nat) -> HistoryModel {
        if self.redo_result(doc_len) is Ok {
            HistoryModel {
                undo: self.undo.push(self.redo.last().inverse()),
                redo: self.redo.drop_last(),
            }
        } else {
            self
        }
    }
}

/// The view of a result of `undo` or `redo`.
pub open spec fn replay_view(r: Result<Replay, EngineError>) -> Result<ReplayModel, EngineError> {
    match r {
        Ok(p) => Ok(p@),
        Err(e) => Err(e),
    }
}

/// The state of an editor, as a mathematical value.
pub ghost struct EditorModel {
    pub history: HistoryModel,
    pub in_user_action: bool,
}

impl EditorModel {
    /// The state after the buffer reports `c`: recorded inside a user action,
    /// ignored outside one.
    pub open spec fn notified(self, c: ChangeModel) -> EditorModel {
        if self.in_user_action {
            EditorModel { history: self.history.record(c), ..self }
        } else {
            self
        }
    }
}

/// The record of an insertion that the buffer reports.
pub open spec fn insert_model(offset: nat, text: Seq<char>) -> ChangeModel {
    ChangeModel { kind: ChangeKind::Insert, start: offset, end: offset + text.len(), text }
}

/// The record of a deletion that the buffer reports.
pub open spec fn delete_model(start: nat, end: nat, text: Seq<char>) -> ChangeModel {
    ChangeModel { kind: ChangeKind::Delete, start, end, text }
}

/// The edit history of one document: it records what the buffer reports during
/// user actions and replays it backwards (undo) and forwards (redo).
pub struct Editor {
    history: History,
    gate: UserActionGate,
}

impl View for Editor {
    type V = EditorModel;

    closed spec fn view(&self) -> EditorModel {
        EditorModel { history: self.history@, in_user_action: self.gate@ }
    }
}

impl Editor {
    pub closed spec fn wf(&self) -> bool {
        self.history@.wf()
    }

    /// Empty history, outside any user action.
    pub fn new() -> (r: Editor)
        ensures
            r.wf(),
            r@.history.undo.len() == 0,
            r@.history.redo.len() == 0,
            !r@.in_user_action,
    {
        Editor { history: History::new(), gate: UserActionGate::new() }
    }

    /// Empty history with room reserved for `capacity` records on each stack,
    /// outside any user action.
    pub fn with_capacity(capacity: usize) -> (r: Editor)
        ensures
            r.wf(),
            r@.history.undo.len() == 0,
            r@.history.redo.len() == 0,
            !r@.in_user_action,
    {
        Editor { history: History::with_capacity(capacity), gate: UserActionGate::new() }
    }

    /// The buffer starts a user edit.
    pub fn begin_user_action(&mut self)
        requires
            old(self).wf(),
        ensures
            final(self).wf(),
            final(self)@ == (EditorModel { in_user_action: true, ..old(self)@ }),
    {
        self.gate.begin_user_action();
    }

    /// The buffer ends a user edit.
    pub fn end_user_action(&mut self)
        requires
            old(self).wf(),
        ensures
            final(self).wf(),
            final(self)@ == (EditorModel { in_user_action: false, ..old(self)@ }),
    {
        self.gate.end_user_action();
    }

    /// Whether a user edit is under way.
    pub fn is_user_action(&self) -> (r: bool)
        ensures
            r == self@.in_user_action,
    {
        self.gate.is_user_action()
    }

    /// The buffer reports `text` inserted at `offset`. Inside a user action the
    /// insertion is recorded and the redo stack cleared; outside one nothing changes.
    /// Returns whether it was recorded.
    pub fn notify_insert(&mut self, offset: usize, text: Vec<char>) -> (r: bool)
        requires
            old(self).wf(),
            offset + text@.len() <= usize::MAX,
        ensures
            final(self).wf(),
            r == old(self)@.in_user_action,
            final(self)@ == old(self)@.notified(insert_model(offset as nat, text@)),
            !old(self)@.in_user_action ==> final(self)@ == old(self)@,
    {
        if !self.gate.is_user_action() {
            return false;
        }
        self.history.push_undo(Change::insert(offset, text));
        true
    }

    /// The buffer reports that it is about to remove `text`, which stands in
    /// `[start, end)`. Inside a user action the deletion is recorded and the redo
    /// stack cleared; outside one nothing changes. Returns whether it was recorded.
    pub fn notify_delete(&mut self, start: usize, end: usize, text: Vec<char>) -> (r: bool)
        requires
            old(self).wf(),
            start <= end,
            text@.len() == end - start,
        ensures
            final(self).wf(),
            r == old(self)@.in_user_action,
            final(self)@ == old(self)@.notified(delete_model(start as nat, end as nat, text@)),
            !old(self)@.in_user_action ==> final(self)@ == old(self)@,
    {
        if !self.gate.is_user_action() {
            return false;
        }
        self.history.push_undo(Change::delete(start, end, text));
        true
    }

    /// Takes back the latest recorded change of a document of `doc_len` characters.
    /// Returns the edit and cursor placement that the buffer has to make, or an error
    /// and no change at all when the undo stack is empty or its top record does not
    /// fit the document.
    pub fn undo(&mut self, doc_len: usize) -> (r: Result<Replay, EngineError>)
        requires
            old(self).wf(),
        ensures
            final(self).wf(),
            replay_view(r) == old(self)@.history.undo_result(doc_len as nat),
            final(self)@.history == old(self)@.history.after_undo(doc_len as nat),
            final(self)@.in_user_action == old(self)@.in_user_action,
            r is Err ==> final(self)@ == old(self)@,
            old(self)@.history.undo.len() == 0 ==> r == Err::<Replay, EngineError>(
                EngineError::NothingToUndo,
            ),
            final(self)@.history.undo.len() <= old(self)@.history.undo.len(),
    {
        let ghost h = self.history@;
        match self.history.pop_undo() {
            None => Err(EngineError::NothingToUndo),
            Some(c) => {
                let fits = match c.kind {
                    ChangeKind::Insert => c.end <= doc_len,
                    ChangeKind::Delete => c.start <= doc_len,
                };
                if !fits {
                    self.history.push_undo_keep_redo(c);
                    assert(self.history@.undo =~= h.undo);
                    return Err(EngineError::InvalidOffset);
                }
                let replay = Replay { edit: c.backward(), cursor: c.start };
                self.history.push_redo(c.inverse());
                Ok(replay)
            },
        }
    }

    /// Replays the latest undone change on a document of `doc_len` characters.
    /// Returns the edit and cursor placement that the buffer has to make, or an error
    /// and no change at all when the redo stack is empty or its top record does not
    /// fit the document.
    pub fn redo(&mut self, doc_len: usize) -> (r: Result<Replay, EngineError>)
        requires
            old(self).wf(),
        ensures
            final(self).wf(),
            replay_view(r) == old(self)@.history.redo_result(doc_len as nat),
            final(self)@.history == old(self)@.history.after_redo(doc_len as nat),
            final(self)@.in_user_action == old(self)@.in_user_action,
            r is Err ==> final(self)@ == old(self)@,
            old(self)@.history.redo.len() == 0 ==> r == Err::<Replay, EngineError>(
                EngineError::NothingToRedo,
            ),
    {
        let ghost h = self.history@;
        match self.history.pop_redo() {
            None => Err(EngineError::NothingToRedo),
            Some(c) => {
                let fits = match c.kind {
                    ChangeKind::Insert => c.end <= doc_len,
                    ChangeKind::Delete => c.start <= doc_len,
                };
                if !fits {
                    self.history.push_redo(c);
                    assert(self.history@.redo =~= h.redo);
                    return Err(EngineError::InvalidOffset);
                }
                let replay = Replay { edit: c.backward(), cursor: c.start };
                self.history.push_undo_keep_redo(c.inverse());
                Ok(replay)
            },
        }
    }

    /// Whether there is something to undo.
    pub fn can_undo(&self) -> (r: bool)
        ensures
            r == (self@.history.undo.len() > 0),
    {
        self.history.can_undo()
    }

    /// Whether there is something to redo.
    pub fn can_redo(&self) -> (r: bool)
        ensures
            r == (self@.history.redo.len() > 0),
    {
        self.history.can_redo()
    }

    /// The undo and redo stacks.
    pub fn history(&self) -> (r: &History)
        ensures
            r@ == self@.history,
    {
        &self.history
    }
}

} // verus!
