use vstd::prelude::*;

use crate::change::{Change, ChangeModel};

verus! {

/// The two stacks of the history, as mathematical values; the last element is the top.
pub ghost struct HistoryModel {
    pub undo: Seq<ChangeModel>,
    pub redo: Seq<ChangeModel>,
}

impl HistoryModel {
    /// Every record on either stack spans exactly its text.
    pub open spec fn wf(self) -> bool {
        &&& forall|i: int| 0 <= i < self.undo.len() ==> (#[trigger] self.undo[i]).wf()
        &&& forall|i: int| 0 <= i < self.redo.len() ==> (#[trigger] self.redo[i]).wf()
    }

    /// A fresh edit is recorded: it goes on the undo stack and the redo stack is emptied.
    pub open spec fn record(self, c: ChangeModel) -> HistoryModel {
        HistoryModel { undo: self.undo.push(c), redo: Seq::empty() }
    }
}

/// The undo and redo stacks of one document.
pub struct History {
    undo_stack: Vec<Change>,
    redo_stack: Vec<Change>,
}

pub open spec fn models(s: Seq<Change>) -> Seq<ChangeModel> {
    s.map_values(|c: Change| c@)
}

impl View for History {
    type V = HistoryModel;

    closed spec fn view(&self) -> HistoryModel {
        HistoryModel { undo: models(self.undo_stack@), redo: models(self.redo_stack@) }
    }
}

proof fn lemma_models_push(s: Seq<Change>, c: Change)
    ensures
        models(s.push(c)) == models(s).push(c@),
{
    assert(models(s.push(c)) =~= models(s).push(c@));
}

proof fn lemma_models_drop_last(s: Seq<Change>)
    requires
        s.len() > 0,
    ensures
        models(s.drop_last()) == models(s).drop_last(),
        models(s).last() == s.last()@,
{
    assert(models(s.drop_last()) =~= models(s).drop_last());
}

impl History {
    /// Empty stacks.
    pub fn new() -> (r: History)
        ensures
            r@.undo.len() == 0,
            r@.redo.len() == 0,
            r@.wf(),
    {
        let r = History { undo_stack: Vec::new(), redo_stack: Vec::new() };
        assert(r@.undo =~= Seq::empty());
        r
    }

    /// Empty stacks with room reserved for `capacity` records each; the stacks
    /// still grow past it.
    pub fn with_capacity(capacity: usize) -> (r: History)
        ensures
            r@.undo.len() == 0,
            r@.redo.len() == 0,
            r@.wf(),
    {
        History {
            undo_stack: Vec::with_capacity(capacity),
            redo_stack: Vec::with_capacity(capacity),
        }
    }

    /// Records a fresh change: pushes it on the undo stack and clears the redo stack.
    pub fn push_undo(&mut self, c: Change)
        requires
            old(self)@.wf(),
            c@.wf(),
        ensures
            final(self)@ == old(self)@.record(c@),
            final(self)@.wf(),
    {
        proof {
            lemma_models_push(self.undo_stack@, c);
        }
        self.undo_stack.push(c);
        self.redo_stack.clear();
        assert(models(self.redo_stack@) =~= Seq::empty());
    }

    /// Removes and returns the top of the undo stack, or `None` when it is empty.
    pub fn pop_undo(&mut self) -> (r: Option<Change>)
        requires
            old(self)@.wf(),
        ensures
            final(self)@.wf(),
            final(self)@.redo == old(self)@.redo,
            match r {
                None => old(self)@.undo.len() == 0 && final(self)@ == old(self)@,
                Some(c) => {
                    &&& old(self)@.undo.len() > 0
                    &&& c@ == old(self)@.undo.last()
                    &&& c@.wf()
                    &&& final(self)@.undo == old(self)@.undo.drop_last()
                },
            },
    {
        if self.undo_stack.len() == 0 {
            return None;
        }
        proof {
            lemma_models_drop_last(self.undo_stack@);
        }
        let r = self.undo_stack.pop();
        proof {
            assert forall|i: int| 0 <= i < self@.undo.len() implies (#[trigger] self@.undo[i]).wf() by {
                assert(self@.undo[i] == old(self)@.undo[i]);
            }
            assert(self@.redo == old(self)@.redo);
            assert(self@.wf());
        }
        r
    }

    /// Pushes a change on the redo stack; the undo stack is left as it is.
    pub fn push_redo(&mut self, c: Change)
        requires
            old(self)@.wf(),
            c@.wf(),
        ensures
            final(self)@.undo == old(self)@.undo,
            final(self)@.redo == old(self)@.redo.push(c@),
            final(self)@.wf(),
    {
        proof {
            lemma_models_push(self.redo_stack@, c);
        }
        self.redo_stack.push(c);
    }

    /// Pushes a change on the undo stack and keeps the redo stack, as a redo does.
    pub fn push_undo_keep_redo(&mut self, c: Change)
        requires
            old(self)@.wf(),
            c@.wf(),
        ensures
            final(self)@.undo == old(self)@.undo.push(c@),
            final(self)@.redo == old(self)@.redo,
            final(self)@.wf(),
    {
        proof {
            lemma_models_push(self.undo_stack@, c);
        }
        self.undo_stack.push(c);
    }

    /// Removes and returns the top of the redo stack, or `None` when it is empty.
    pub fn pop_redo(&mut self) -> (r: Option<Change>)
        requires
            old(self)@.wf(),
        ensures
            final(self)@.wf(),
            final(self)@.undo == old(self)@.undo,
            match r {
                None => old(self)@.redo.len() == 0 && final(self)@ == old(self)@,
                Some(c) => {
                    &&& old(self)@.redo.len() > 0
                    &&& c@ == old(self)@.redo.last()
                    &&& c@.wf()
                    &&& final(self)@.redo == old(self)@.redo.drop_last()
                },
            },
    {
        if self.redo_stack.len() == 0 {
            return None;
        }
        proof {
            lemma_models_drop_last(self.redo_stack@);
        }
        let r = self.redo_stack.pop();
        proof {
            assert forall|i: int| 0 <= i < self@.redo.len() implies (#[trigger] self@.redo[i]).wf() by {
                assert(self@.redo[i] == old(self)@.redo[i]);
            }
            assert(self@.undo == old(self)@.undo);
            assert(self@.wf());
        }
        r
    }

    /// The undo stack, bottom first.
    pub fn undo_stack(&self) -> (r: &Vec<Change>)
        ensures
            models(r@) == self@.undo,
    {
        &self.undo_stack
    }

    /// The redo stack, bottom first.
    pub fn redo_stack(&self) -> (r: &Vec<Change>)
        ensures
            models(r@) == self@.redo,
    {
        &self.redo_stack
    }

    /// Whether there is something to undo.
    pub fn can_undo(&self) -> (r: bool)
        ensures
            r == (self@.undo.len() > 0),
    {
        self.undo_stack.len() > 0
    }

    /// Whether there is something to redo.
    pub fn can_redo(&self) -> (r: bool)
        ensures
            r == (self@.redo.len() > 0),
    {
        self.redo_stack.len() > 0
    }
}

} // verus!
