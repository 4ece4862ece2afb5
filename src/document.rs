use vstd::prelude::*;

use crate::change::{apply_edit, BufferEdit, Replay};
use crate::editor::EngineError;

verus! {

/// A plain text buffer held in memory: its characters and the cursor offset.
pub struct TextDocument {
    chars: Vec<char>,
    cursor: usize,
}

/// A text document as a mathematical value.
pub ghost struct DocumentModel {
    pub text: Seq<char>,
    pub cursor: nat,
}

impl View for TextDocument {
    type V = DocumentModel;

    closed spec fn view(&self) -> DocumentModel {
        DocumentModel { text: self.chars@, cursor: self.cursor as nat }
    }
}

impl TextDocument {
    /// An empty document with the cursor at its start.
    pub fn new() -> (r: TextDocument)
        ensures
            r@.text.len() == 0,
            r@.cursor == 0,
    {
        TextDocument { chars: Vec::new(), cursor: 0 }
    }

    /// A document holding `chars`, with the cursor at its start.
    pub fn from_chars(chars: Vec<char>) -> (r: TextDocument)
        ensures
            r@.text == chars@,
            r@.cursor == 0,
    {
        TextDocument { chars, cursor: 0 }
    }

    /// The characters of the document.
    pub fn chars(&self) -> (r: &Vec<char>)
        ensures
            r@ == self@.text,
    {
        &self.chars
    }

    /// The number of characters.
    pub fn len(&self) -> (r: usize)
        ensures
            r == self@.text.len(),
    {
        self.chars.len()
    }

    /// The cursor offset.
    pub fn cursor(&self) -> (r: usize)
        ensures
            r == self@.cursor,
    {
        self.cursor
    }

    /// Makes `edit`. An edit that reaches past the end of the document, or a
    /// deletion whose end comes before its start, is refused with `InvalidOffset`
    /// and changes nothing. The cursor stays where it was.
    pub fn apply_edit(&mut self, edit: &BufferEdit) -> (r: Result<(), EngineError>)
        requires
            old(self)@.text.len() + edit@.added_len() <= usize::MAX,
        ensures
            r is Ok <==> edit@.fits(old(self)@.text.len()),
            r is Err ==> r == Err::<(), EngineError>(EngineError::InvalidOffset) && final(self)@
                == old(self)@,
            r is Ok ==> final(self)@.text == apply_edit(old(self)@.text, edit@),
            final(self)@.cursor == old(self)@.cursor,
    {
        match edit {
            BufferEdit::Insert { offset, text } => {
                let offset = *offset;
                if offset > self.chars.len() {
                    return Err(EngineError::InvalidOffset);
                }
                let mut out: Vec<char> = Vec::with_capacity(self.chars.len() + text.len());
                let mut i: usize = 0;
                while i < offset
                    invariant
                        offset <= self.chars.len(),
                        i <= offset,
                        out@ == self.chars@.take(i as int),
                    decreases offset - i,
                {
                    out.push(self.chars[i]);
                    i += 1;
                    assert(out@ =~= self.chars@.take(i as int));
                }
                let mut j: usize = 0;
                while j < text.len()
                    invariant
                        offset <= self.chars.len(),
                        j <= text.len(),
                        out@ == self.chars@.take(offset as int) + text@.take(j as int),
                    decreases text.len() - j,
                {
                    out.push(text[j]);
                    j += 1;
                    assert(out@ =~= self.chars@.take(offset as int) + text@.take(j as int));
                }
                assert(text@.take(text.len() as int) =~= text@);
                let mut k: usize = offset;
                while k < self.chars.len()
                    invariant
                        offset <= k <= self.chars.len(),
                        out@ == self.chars@.take(offset as int) + text@ + self.chars@.subrange(
                            offset as int,
                            k as int,
                        ),
                    decreases self.chars.len() - k,
                {
                    out.push(self.chars[k]);
                    k += 1;
                    assert(out@ =~= self.chars@.take(offset as int) + text@
                        + self.chars@.subrange(offset as int, k as int));
                }
                assert(self.chars@.subrange(offset as int, self.chars.len() as int)
                    =~= self.chars@.skip(offset as int));
                self.chars = out;
                Ok(())
            },
            BufferEdit::Delete { start, end } => {
                let start = *start;
                let end = *end;
                if start > end || end > self.chars.len() {
                    return Err(EngineError::InvalidOffset);
                }
                let mut out: Vec<char> = Vec::with_capacity(self.chars.len() - (end - start));
                let mut i: usize = 0;
                while i < start
                    invariant
                        start <= end <= self.chars.len(),
                        i <= start,
                        out@ == self.chars@.take(i as int),
                    decreases start - i,
                {
                    out.push(self.chars[i]);
                    i += 1;
                    assert(out@ =~= self.chars@.take(i as int));
                }
                let mut k: usize = end;
                while k < self.chars.len()
                    invariant
                        start <= end <= k <= self.chars.len(),
                        out@ == self.chars@.take(start as int) + self.chars@.subrange(
                            end as int,
                            k as int,
                        ),
                    decreases self.chars.len() - k,
                {
                    out.push(self.chars[k]);
                    k += 1;
                    assert(out@ =~= self.chars@.take(start as int) + self.chars@.subrange(
                        end as int,
                        k as int,
                    ));
                }
                assert(self.chars@.subrange(end as int, self.chars.len() as int)
                    =~= self.chars@.skip(end as int));
                self.chars = out;
                Ok(())
            },
        }
    }

    /// Carries out what an undo or a redo asks: makes the edit, then places the
    /// cursor. An edit that does not fit is refused with `InvalidOffset` and
    /// changes nothing, the cursor included.
    pub fn apply_replay(&mut self, replay: &Replay) -> (r: Result<(), EngineError>)
        requires
            old(self)@.text.len() + replay.edit@.added_len() <= usize::MAX,
        ensures
            r is Ok <==> replay.edit@.fits(old(self)@.text.len()),
            r is Err ==> r == Err::<(), EngineError>(EngineError::InvalidOffset) && final(self)@
                == old(self)@,
            r is Ok ==> final(self)@.text == apply_edit(old(self)@.text, replay.edit@)
                && final(self)@.cursor == replay.cursor,
    {
        match self.apply_edit(&replay.edit) {
            Ok(()) => {
                self.cursor = replay.cursor;
                Ok(())
            },
            Err(e) => Err(e),
        }
    }
}

} // verus!
