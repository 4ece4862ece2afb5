//! An edit history for a text buffer: it records the insertions and deletions
//! that the buffer reports during user actions, and replays them backwards
//! (undo) and forwards (redo) as edits for the buffer to make.

pub mod change;
pub mod document;
pub mod editor;
pub mod gate;
pub mod history;
pub mod laws;
