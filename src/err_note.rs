//! A diagnostic note for a failure, with its severity and whether reporting
//! it should end the process. Printing, exiting and panicking are left to the
//! caller, which reads the rendered message and the exit request from here.
use vstd::prelude::*;

verus! {

/// The severity of an error note.
#[derive(PartialEq, Eq, Structural, Clone, Copy, Debug)]
pub enum ErrType {
    Exit,
    Assertion,
}

/// The label of each severity.
pub open spec fn err_type_label(t: ErrType) -> Seq<char> {
    match t {
        ErrType::Exit => "EXIT"@,
        ErrType::Assertion => "ASSERTION"@,
    }
}

impl ErrType {
    /// The label of the severity: `EXIT` or `ASSERTION`.
    pub fn label(&self) -> (r: &'static str)
        ensures
            r@ == err_type_label(*self),
    {
        match self {
            ErrType::Exit => "EXIT",
            ErrType::Assertion => "ASSERTION",
        }
    }
}

/// The rendering of an error note: `[<severity> ERROR]: <text>`.
pub open spec fn err_note_text(t: ErrType, note: Seq<char>) -> Seq<char> {
    "["@ + err_type_label(t) + " ERROR]: "@ + note
}

/// An error note: its text, its severity, and whether reporting it should
/// end the process.
pub struct ErrNote<'a> {
    err_note: &'a str,
    type_: ErrType,
    exit: bool,
}

impl<'a> ErrNote<'a> {
    /// The note's text.
    pub closed spec fn text(&self) -> Seq<char> {
        self.err_note@
    }

    /// The note's severity.
    pub closed spec fn severity(&self) -> ErrType {
        self.type_
    }

    /// Whether reporting the note should end the process.
    pub closed spec fn ends_process(&self) -> bool {
        self.exit
    }

    pub fn new(err_note: &'a str, type_: ErrType, exit: bool) -> (r: Self)
        ensures
            r.text() == err_note@,
            r.severity() == type_,
            r.ends_process() == exit,
    {
        Self { err_note, type_, exit }
    }

    /// Renders the note as `[<severity> ERROR]: <text>`.
    pub fn render(&self) -> (r: String)
        ensures
            r@ == err_note_text(self.severity(), self.text()),
    {
        let mut out = String::from_str("[");
        out.append(self.type_.label());
        out.append(" ERROR]: ");
        out.append(self.err_note);
        out
    }

    /// The message to print before ending the process, when the note asks
    /// for that; `None` when it does not.
    pub fn exit_message(&self) -> (r: Option<String>)
        ensures
            match r {
                Some(m) => self.ends_process() && m@ == err_note_text(self.severity(), self.text()),
                None => !self.ends_process(),
            },
    {
        if self.exit {
            Some(self.render())
        } else {
            None
        }
    }
}

} // verus!
