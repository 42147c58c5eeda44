//! Descriptors of command-line flags: a name, the spellings that select the
//! flag, a description, optional notes and an optional default value, with a
//! textual rendering of the whole; plus two small diagnostic notes.
pub mod flag;
pub mod note;
pub mod err_note;
