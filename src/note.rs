//! A plain informational note.
use vstd::prelude::*;

verus! {

/// An informational note that renders as `[NOTE]: <text>`.
pub struct Note<'a> {
    note: &'a str,
}

/// The rendering of a note with the given text.
pub open spec fn note_text(note: Seq<char>) -> Seq<char> {
    "[NOTE]: "@ + note
}

impl<'a> Note<'a> {
    /// The note's text, as given at construction.
    pub closed spec fn text(&self) -> Seq<char> {
        self.note@
    }

    pub fn new(note: &'a str) -> (r: Self)
        ensures
            r.text() == note@,
    {
        Self { note }
    }

    /// Renders the note as `[NOTE]: <text>`.
    pub fn render(&self) -> (r: String)
        ensures
            r@ == note_text(self.text()),
    {
        let mut out = String::from_str("[NOTE]: ");
        out.append(self.note);
        out
    }
}

} // verus!
