//! The error taxonomy shared by the whole crate.
//!
//! A failure is local: it becomes a system entry in the transcript or a
//! rejected message, never a crash of the verified code.

use vstd::prelude::*;

verus! {

/// What went wrong, by family.
#[derive(Clone, Copy, PartialEq, Eq, Structural, Debug)]
pub enum ErrorKind {
    /// Malformed bytes on the wire; fatal to one message only.
    ProtocolDecode,
    /// A connect or send failure at the transport.
    Transport,
    /// Bad arguments or quoting in a typed command.
    CommandParse,
    /// The command prefix matched but no handler has that name.
    UnknownCommand,
    /// The file of a transfer is missing, unreadable or empty.
    FileAccess,
}

/// An error value: a family together with a display text.
#[derive(Debug)]
pub struct Error {
    pub kind: ErrorKind,
    pub text: String,
}

impl Error {
    pub fn new(kind: ErrorKind, text: String) -> (r: Error)
        ensures
            r.kind == kind,
            r.text@ == text@,
    {
        Error { kind, text }
    }

    /// The display text, for transcripts and logs.
    pub fn message(&self) -> (r: &String)
        ensures
            r@ == self.text@,
    {
        &self.text
    }
}

} // verus!
