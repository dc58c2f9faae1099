//! The error type shared by every conversion in this crate.
//!
//! Every failure carries a kind that tells the caller which stage went wrong
//! (I/O, decoding or encoding), a human-readable description, and a trace of
//! the locations the error passed through on its way up.

use vstd::prelude::*;

verus! {

/// The stage at which a conversion failed.
#[derive(Clone, Copy, Debug, PartialEq, Eq, Structural)]
pub enum ErrorKind {
    /// A file or stream could not be opened, read or written.
    IoFailure,
    /// Text or a structured value could not be decoded.
    DecodeFailure,
    /// A value could not be encoded.
    EncodeFailure,
}

/// A conversion failure: a kind, a description of the cause, and the trace
/// of locations it was propagated through.
#[derive(Debug)]
pub struct Error {
    /// The stage at which the conversion failed.
    pub kind: ErrorKind,
    /// A human-readable description of the underlying cause.
    pub message: String,
    /// The locations this error passed through, oldest first.
    pub trace: Vec<String>,
}

impl Error {
    /// Builds an error of the given kind with an empty trace.
    pub fn new(kind: ErrorKind, message: String) -> (r: Error)
        ensures
            r.kind == kind,
            r.message@ == message@,
            r.trace@ =~= Seq::<String>::empty(),
    {
        Error { kind, message, trace: Vec::new() }
    }

    /// Builds an I/O-kind error.
    pub fn io(message: String) -> (r: Error)
        ensures
            r.kind == ErrorKind::IoFailure,
            r.message@ == message@,
            r.trace@ =~= Seq::<String>::empty(),
    {
        Error::new(ErrorKind::IoFailure, message)
    }

    /// Builds a decode-kind error.
    pub fn decode(message: String) -> (r: Error)
        ensures
            r.kind == ErrorKind::DecodeFailure,
            r.message@ == message@,
            r.trace@ =~= Seq::<String>::empty(),
    {
        Error::new(ErrorKind::DecodeFailure, message)
    }

    /// Builds an encode-kind error.
    pub fn encode(message: String) -> (r: Error)
        ensures
            r.kind == ErrorKind::EncodeFailure,
            r.message@ == message@,
            r.trace@ =~= Seq::<String>::empty(),
    {
        Error::new(ErrorKind::EncodeFailure, message)
    }

    /// The stage at which the conversion failed.
    pub fn kind(&self) -> (r: ErrorKind)
        ensures
            r == self.kind,
    {
        self.kind
    }

    /// Appends a location to the propagation trace; the kind and the
    /// description are kept as they are.
    pub fn track(&mut self, location: String)
        ensures
            final(self).kind == old(self).kind,
            final(self).message@ == old(self).message@,
            final(self).trace@ =~= old(self).trace@.push(location),
    {
        self.trace.push(location);
    }
}

} // verus!
