use vstd::prelude::*;

verus! {

/// Whether a change added text to the document or removed it.
#[derive(Clone, Copy, Debug, PartialEq, Eq, Structural)]
pub enum ChangeKind {
    Insert,
    Delete,
}

impl ChangeKind {
    /// The other kind: what takes a change of this kind back.
    pub open spec fn flipped(self) -> ChangeKind {
        match self {
            ChangeKind::Insert => ChangeKind::Delete,
            ChangeKind::Delete => ChangeKind::Insert,
        }
    }
}

/// An edit to hand to a text buffer, as a mathematical value.
pub ghost enum EditModel {
    Insert { offset: nat, text: Seq<char> },
    Delete { start: nat, end: nat },
}

impl EditModel {
    /// The edit stays inside a document of `len` characters.
    pub open spec fn fits(self, len: nat) -> bool {
        match self {
            EditModel::Insert { offset, .. } => offset <= len,
            EditModel::Delete { start, end } => start <= end <= len,
        }
    }

    /// The number of characters the edit adds.
    pub open spec fn added_len(self) -> nat {
        match self {
            EditModel::Insert { text, .. } => text.len(),
            EditModel::Delete { .. } => 0,
        }
    }
}

/// The document that results from applying `e` to `doc`.
pub open spec fn apply_edit(doc: Seq<char>, e: EditModel) -> Seq<char> {
    match e {
        EditModel::Insert { offset, text } => doc.take(offset as int) + text + doc.skip(
            offset as int,
        ),
        EditModel::Delete { start, end } => doc.take(start as int) + doc.skip(end as int),
    }
}

/// A recorded change, as a mathematical value.
pub ghost struct ChangeModel {
    pub kind: ChangeKind,
    pub start: nat,
    pub end: nat,
    pub text: Seq<char>,
}

impl ChangeModel {
    /// The range spans exactly the text.
    pub open spec fn wf(self) -> bool {
        self.start <= self.end && self.text.len() == self.end - self.start
    }

    /// The same range and text with the opposite kind.
    pub open spec fn inverse(self) -> ChangeModel {
        ChangeModel { kind: self.kind.flipped(), ..self }
    }

    /// The buffer edit that performs this change.
    pub open spec fn forward(self) -> EditModel {
        match self.kind {
            ChangeKind::Insert => EditModel::Insert { offset: self.start, text: self.text },
            ChangeKind::Delete => EditModel::Delete { start: self.start, end: self.end },
        }
    }

    /// The buffer edit that takes this change back.
    pub open spec fn backward(self) -> EditModel {
        self.inverse().forward()
    }

    /// The change is what a buffer holding `doc` reports for an edit it is about to make:
    /// an insertion inside the document, or a deletion of the text that stands in its range.
    pub open spec fn valid_on(self, doc: Seq<char>) -> bool {
        &&& self.wf()
        &&& match self.kind {
            ChangeKind::Insert => self.start <= doc.len(),
            ChangeKind::Delete => self.end <= doc.len() && doc.subrange(
                self.start as int,
                self.end as int,
            ) == self.text,
        }
    }
}

/// One recorded document mutation. For an insertion `text` is what was inserted;
/// for a deletion it is what was removed, captured before the removal.
/// `end - start` is the number of characters of `text`.
#[derive(Clone, Debug)]
pub struct Change {
    pub kind: ChangeKind,
    pub start: usize,
    pub end: usize,
    pub text: Vec<char>,
}

impl View for Change {
    type V = ChangeModel;

    open spec fn view(&self) -> ChangeModel {
        ChangeModel {
            kind: self.kind,
            start: self.start as nat,
            end: self.end as nat,
            text: self.text@,
        }
    }
}

/// An edit that the engine asks the text buffer to make.
#[derive(Clone, Debug)]
pub enum BufferEdit {
    Insert { offset: usize, text: Vec<char> },
    Delete { start: usize, end: usize },
}

impl View for BufferEdit {
    type V = EditModel;

    open spec fn view(&self) -> EditModel {
        match self {
            BufferEdit::Insert { offset, text } => EditModel::Insert {
                offset: *offset as nat,
                text: text@,
            },
            BufferEdit::Delete { start, end } => EditModel::Delete {
                start: *start as nat,
                end: *end as nat,
            },
        }
    }
}

/// What an undo or a redo asks of the buffer, as a mathematical value.
pub ghost struct ReplayModel {
    pub edit: EditModel,
    pub cursor: nat,
}

/// What an undo or a redo asks of the buffer: make `edit`, then place the cursor
/// at `cursor` and scroll it into view.
#[derive(Clone, Debug)]
pub struct Replay {
    pub edit: BufferEdit,
    pub cursor: usize,
}

impl View for Replay {
    type V = ReplayModel;

    open spec fn view(&self) -> ReplayModel {
        ReplayModel { edit: self.edit@, cursor: self.cursor as nat }
    }
}

/// A copy of a run of characters.
fn copy_text(text: &Vec<char>) -> (r: Vec<char>)
    ensures
        r@ == text@,
{
    let mut r: Vec<char> = Vec::with_capacity(text.len());
    let mut i: usize = 0;
    while i < text.len()
        invariant
            i <= text.len(),
            r@ == text@.take(i as int),
        decreases text.len() - i,
    {
        r.push(text[i]);
        i += 1;
        assert(r@ =~= text@.take(i as int));
    }
    assert(r@ =~= text@);
    r
}

impl Change {
    /// The record of `text` inserted at `offset`.
    pub fn insert(offset: usize, text: Vec<char>) -> (r: Change)
        requires
            offset + text@.len() <= usize::MAX,
        ensures
            r@ == (ChangeModel {
                kind: ChangeKind::Insert,
                start: offset as nat,
                end: (offset + text@.len()) as nat,
                text: text@,
            }),
            r@.wf(),
    {
        let end = offset + text.len();
        Change { kind: ChangeKind::Insert, start: offset, end, text }
    }

    /// The record of the removal of `text`, which stood in `[start, end)`.
    pub fn delete(start: usize, end: usize, text: Vec<char>) -> (r: Change)
        requires
            start <= end,
            text@.len() == end - start,
        ensures
            r@ == (ChangeModel { kind: ChangeKind::Delete, start: start as nat, end: end as nat, text: text@ }),
            r@.wf(),
    {
        Change { kind: ChangeKind::Delete, start, end, text }
    }

    /// The same range and text with the opposite kind.
    pub fn inverse(&self) -> (r: Change)
        ensures
            r@ == self@.inverse(),
    {
        let kind = match self.kind {
            ChangeKind::Insert => ChangeKind::Delete,
            ChangeKind::Delete => ChangeKind::Insert,
        };
        Change { kind, start: self.start, end: self.end, text: copy_text(&self.text) }
    }

    /// The buffer edit that takes this change back.
    pub fn backward(&self) -> (r: BufferEdit)
        ensures
            r@ == self@.backward(),
    {
        match self.kind {
            ChangeKind::Insert => BufferEdit::Delete { start: self.start, end: self.end },
            ChangeKind::Delete => BufferEdit::Insert {
                offset: self.start,
                text: copy_text(&self.text),
            },
        }
    }
}

} // verus!
