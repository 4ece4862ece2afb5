use edit_history::change::{BufferEdit, Change, ChangeKind, Replay};
use edit_history::document::TextDocument;
use edit_history::editor::{Editor, EngineError};
use edit_history::gate::UserActionGate;
use edit_history::history::History;

fn chars(s: &str) -> Vec<char> {
    s.chars().collect()
}

fn text(doc: &TextDocument) -> String {
    doc.chars().iter().collect()
}

fn is_change(c: &Change, kind: ChangeKind, start: usize, end: usize, t: &str) -> bool {
    c.kind == kind && c.start == start && c.end == end && c.text == chars(t)
}

/// Inserts `t` at `offset` as one user action, as a buffer does.
fn user_insert(ed: &mut Editor, doc: &mut TextDocument, offset: usize, t: &str) {
    ed.begin_user_action();
    assert!(ed.notify_insert(offset, chars(t)));
    doc.apply_edit(&BufferEdit::Insert { offset, text: chars(t) }).unwrap();
    ed.end_user_action();
}

/// Deletes `[start, end)` as one user action, as a buffer does.
fn user_delete(ed: &mut Editor, doc: &mut TextDocument, start: usize, end: usize) {
    ed.begin_user_action();
    let removed: Vec<char> = doc.chars()[start..end].to_vec();
    assert!(ed.notify_delete(start, end, removed));
    doc.apply_edit(&BufferEdit::Delete { start, end }).unwrap();
    ed.end_user_action();
}

fn undo_on(ed: &mut Editor, doc: &mut TextDocument) -> Result<Replay, EngineError> {
    let r = ed.undo(doc.len());
    if let Ok(p) = &r {
        doc.apply_replay(p).unwrap();
    }
    r
}

fn redo_on(ed: &mut Editor, doc: &mut TextDocument) -> Result<Replay, EngineError> {
    let r = ed.redo(doc.len());
    if let Ok(p) = &r {
        doc.apply_replay(p).unwrap();
    }
    r
}

#[test]
fn insert_hello_then_undo() {
    let mut ed = Editor::new();
    let mut doc = TextDocument::new();
    user_insert(&mut ed, &mut doc, 0, "hello");
    let undo = ed.history().undo_stack();
    assert_eq!(undo.len(), 1);
    assert!(is_change(&undo[0], ChangeKind::Insert, 0, 5, "hello"));

    let p = ed.undo(doc.len()).unwrap();
    assert!(matches!(p.edit, BufferEdit::Delete { start: 0, end: 5 }));
    assert_eq!(p.cursor, 0);
    assert!(ed.history().undo_stack().is_empty());
    let redo = ed.history().redo_stack();
    assert_eq!(redo.len(), 1);
    assert!(is_change(&redo[0], ChangeKind::Delete, 0, 5, "hello"));
    doc.apply_replay(&p).unwrap();
    assert_eq!(text(&doc), "");
    assert_eq!(doc.cursor(), 0);
}

#[test]
fn insert_hello_undo_then_redo() {
    let mut ed = Editor::new();
    let mut doc = TextDocument::new();
    user_insert(&mut ed, &mut doc, 0, "hello");
    undo_on(&mut ed, &mut doc).unwrap();

    let p = ed.redo(doc.len()).unwrap();
    match &p.edit {
        BufferEdit::Insert { offset, text } => {
            assert_eq!(*offset, 0);
            assert_eq!(*text, chars("hello"));
        }
        BufferEdit::Delete { .. } => panic!("redo of an undone insertion must insert"),
    }
    assert_eq!(p.cursor, 0);
    let undo = ed.history().undo_stack();
    assert_eq!(undo.len(), 1);
    assert!(is_change(&undo[0], ChangeKind::Insert, 0, 5, "hello"));
    assert!(ed.history().redo_stack().is_empty());
    doc.apply_replay(&p).unwrap();
    assert_eq!(text(&doc), "hello");
}

#[test]
fn insert_then_delete_undone_in_turn() {
    let mut ed = Editor::new();
    let mut doc = TextDocument::new();
    user_insert(&mut ed, &mut doc, 0, "abc");
    user_delete(&mut ed, &mut doc, 1, 2);
    assert_eq!(text(&doc), "ac");
    let undo = ed.history().undo_stack();
    assert_eq!(undo.len(), 2);
    assert!(is_change(&undo[0], ChangeKind::Insert, 0, 3, "abc"));
    assert!(is_change(&undo[1], ChangeKind::Delete, 1, 2, "b"));

    let p = undo_on(&mut ed, &mut doc).unwrap();
    assert!(matches!(&p.edit, BufferEdit::Insert { offset: 1, text } if *text == chars("b")));
    assert_eq!(text(&doc), "abc");
    assert_eq!(doc.cursor(), 1);

    let p = undo_on(&mut ed, &mut doc).unwrap();
    assert!(matches!(p.edit, BufferEdit::Delete { start: 0, end: 3 }));
    assert_eq!(text(&doc), "");
    assert_eq!(doc.cursor(), 0);
}

#[test]
fn undo_all_then_redo_all_round_trip() {
    let mut ed = Editor::new();
    let mut doc = TextDocument::from_chars(chars("start"));
    user_insert(&mut ed, &mut doc, 5, " here");
    user_delete(&mut ed, &mut doc, 0, 2);
    user_insert(&mut ed, &mut doc, 3, "XY");
    user_delete(&mut ed, &mut doc, 5, 9);
    user_insert(&mut ed, &mut doc, 0, "é—");
    let edited = text(&doc);
    assert_eq!(edited, "é—artXYe");
    for _ in 0..5 {
        undo_on(&mut ed, &mut doc).unwrap();
    }
    assert_eq!(text(&doc), "start");
    assert_eq!(undo_on(&mut ed, &mut doc).unwrap_err(), EngineError::NothingToUndo);
    for _ in 0..5 {
        redo_on(&mut ed, &mut doc).unwrap();
    }
    assert_eq!(text(&doc), edited);
    assert_eq!(redo_on(&mut ed, &mut doc).unwrap_err(), EngineError::NothingToRedo);
    assert_eq!(ed.history().undo_stack().len(), 5);
}

#[test]
fn new_edit_after_undos_clears_redo() {
    let mut ed = Editor::new();
    let mut doc = TextDocument::new();
    user_insert(&mut ed, &mut doc, 0, "one");
    user_insert(&mut ed, &mut doc, 3, "two");
    undo_on(&mut ed, &mut doc).unwrap();
    undo_on(&mut ed, &mut doc).unwrap();
    assert!(ed.can_redo());
    user_insert(&mut ed, &mut doc, 0, "x");
    assert!(!ed.can_redo());
    assert_eq!(ed.redo(doc.len()).unwrap_err(), EngineError::NothingToRedo);

    undo_on(&mut ed, &mut doc).unwrap();
    assert!(ed.can_redo());
    user_delete(&mut ed, &mut doc, 0, 0);
    assert_eq!(ed.redo(doc.len()).unwrap_err(), EngineError::NothingToRedo);
}

#[test]
fn undo_on_empty_history() {
    let mut ed = Editor::new();
    let mut doc = TextDocument::from_chars(chars("keep"));
    assert!(!ed.can_undo());
    assert_eq!(undo_on(&mut ed, &mut doc).unwrap_err(), EngineError::NothingToUndo);
    assert_eq!(text(&doc), "keep");
    assert!(ed.history().undo_stack().is_empty());
    assert!(ed.history().redo_stack().is_empty());
    assert_eq!(ed.redo(4).unwrap_err(), EngineError::NothingToRedo);
}

#[test]
fn notifications_outside_user_action_are_ignored() {
    let mut ed = Editor::new();
    assert!(!ed.is_user_action());
    assert!(!ed.notify_insert(0, chars("abc")));
    assert!(!ed.notify_delete(0, 1, chars("a")));
    assert!(!ed.can_undo());

    let mut doc = TextDocument::new();
    user_insert(&mut ed, &mut doc, 0, "abc");
    // The buffer reports the edits of an undo, made outside any user action.
    let p = ed.undo(doc.len()).unwrap();
    assert!(!ed.notify_delete(0, 3, chars("abc")));
    doc.apply_replay(&p).unwrap();
    assert!(ed.history().undo_stack().is_empty());
    assert_eq!(ed.history().redo_stack().len(), 1);
    let p = ed.redo(doc.len()).unwrap();
    assert!(!ed.notify_insert(0, chars("abc")));
    doc.apply_replay(&p).unwrap();
    assert_eq!(ed.history().undo_stack().len(), 1);
    assert!(ed.history().redo_stack().is_empty());
}

#[test]
fn gate_last_call_wins() {
    let mut g = UserActionGate::new();
    assert!(!g.is_user_action());
    g.begin_user_action();
    g.begin_user_action();
    assert!(g.is_user_action());
    g.end_user_action();
    assert!(!g.is_user_action());
    g.end_user_action();
    assert!(!g.is_user_action());
}

#[test]
fn undo_past_document_end_is_invalid_offset() {
    let mut ed = Editor::new();
    ed.begin_user_action();
    ed.notify_insert(2, chars("xyz"));
    ed.notify_delete(4, 6, chars("pq"));
    ed.end_user_action();
    // The deletion at 4 needs a document of at least 4 characters.
    assert_eq!(ed.undo(3).unwrap_err(), EngineError::InvalidOffset);
    assert_eq!(ed.history().undo_stack().len(), 2);
    assert!(ed.history().redo_stack().is_empty());
    ed.undo(4).unwrap();
    // The insertion spans [2, 5): a document of 4 characters is too short.
    assert_eq!(ed.undo(4).unwrap_err(), EngineError::InvalidOffset);
    assert_eq!(ed.history().undo_stack().len(), 1);
    let p = ed.undo(5).unwrap();
    assert!(matches!(p.edit, BufferEdit::Delete { start: 2, end: 5 }));
    assert_eq!(p.cursor, 2);
    // Redo of the insertion inserts at 2.
    assert_eq!(ed.redo(1).unwrap_err(), EngineError::InvalidOffset);
    assert_eq!(ed.history().redo_stack().len(), 2);
    let p = ed.redo(2).unwrap();
    assert!(matches!(&p.edit, BufferEdit::Insert { offset: 2, text } if *text == chars("xyz")));
}

#[test]
fn document_refuses_edits_out_of_bounds() {
    let mut doc = TextDocument::from_chars(chars("abc"));
    let e = doc.apply_edit(&BufferEdit::Insert { offset: 4, text: chars("z") });
    assert_eq!(e, Err(EngineError::InvalidOffset));
    let e = doc.apply_edit(&BufferEdit::Delete { start: 2, end: 4 });
    assert_eq!(e, Err(EngineError::InvalidOffset));
    let e = doc.apply_edit(&BufferEdit::Delete { start: 2, end: 1 });
    assert_eq!(e, Err(EngineError::InvalidOffset));
    let r = Replay { edit: BufferEdit::Delete { start: 1, end: 9 }, cursor: 1 };
    assert_eq!(doc.apply_replay(&r), Err(EngineError::InvalidOffset));
    assert_eq!(text(&doc), "abc");
    assert_eq!(doc.cursor(), 0);
    doc.apply_edit(&BufferEdit::Insert { offset: 3, text: chars("de") }).unwrap();
    assert_eq!(text(&doc), "abcde");
    doc.apply_edit(&BufferEdit::Delete { start: 0, end: 2 }).unwrap();
    assert_eq!(text(&doc), "cde");
    let r = Replay { edit: BufferEdit::Insert { offset: 1, text: chars("-") }, cursor: 1 };
    doc.apply_replay(&r).unwrap();
    assert_eq!(text(&doc), "c-de");
    assert_eq!(doc.cursor(), 1);
}

#[test]
fn history_stacks_directly() {
    let mut h = History::with_capacity(4);
    assert!(h.pop_undo().is_none());
    assert!(h.pop_redo().is_none());
    h.push_redo(Change::delete(0, 1, chars("a")));
    h.push_undo(Change::insert(0, chars("ab")));
    assert!(!h.can_redo());
    h.push_redo(Change::delete(1, 2, chars("q")));
    assert!(h.can_undo());
    assert!(h.can_redo());
    let c = h.pop_undo().unwrap();
    assert!(is_change(&c, ChangeKind::Insert, 0, 2, "ab"));
    assert!(!h.can_undo());
    let c = h.pop_redo().unwrap();
    assert!(is_change(&c, ChangeKind::Delete, 1, 2, "q"));
    assert!(h.pop_redo().is_none());
}

#[test]
fn change_inverse_and_backward_edit() {
    let c = Change::insert(3, chars("hey"));
    assert!(is_change(&c, ChangeKind::Insert, 3, 6, "hey"));
    let inv = c.inverse();
    assert!(is_change(&inv, ChangeKind::Delete, 3, 6, "hey"));
    assert!(matches!(c.backward(), BufferEdit::Delete { start: 3, end: 6 }));
    assert!(matches!(inv.backward(), BufferEdit::Insert { offset: 3, text } if text == chars("hey")));
    let ed = Editor::with_capacity(16);
    assert!(!ed.can_undo());
    assert!(!ed.is_user_action());
}
