//! The uniform error type of the generator: a kind, a message, and an
//! optional wrapped cause, accumulated one layer of context at a time.

use vstd::prelude::*;

verus! {

/// The taxonomy of generator failures.
#[derive(Clone, Copy, PartialEq, Eq, Structural, Debug)]
pub enum ErrorKind {
    /// A contract violation between the upstream signature deriver and the
    /// conversion engine; never a user input error.
    InternalConsistency,
    /// A file open/create/read/write/rename/remove or traversal failure.
    InputOutput,
    /// A spawn failure or non-zero exit of an external build tool.
    ExternalProcess,
    /// A path or string not representable in the platform text encoding.
    Encoding,
}

/// An error with its chain of wrapped causes.
#[derive(Debug)]
pub struct GenError {
    pub kind: ErrorKind,
    pub message: String,
    pub cause: Option<Box<GenError>>,
}

/// The printable chain of an error: each layer's message joined by ": ".
pub open spec fn chain_text(e: GenError) -> Seq<char>
    decreases e,
{
    match e.cause {
        Option::Some(inner) => e.message@ + ": "@ + chain_text(*inner),
        Option::None => e.message@,
    }
}

impl GenError {
    /// An internal-consistency error.
    pub fn internal(message: String) -> (r: GenError)
        ensures
            r.kind == ErrorKind::InternalConsistency,
            r.message@ == message@,
            r.cause is None,
    {
        GenError { kind: ErrorKind::InternalConsistency, message, cause: None }
    }

    /// An I/O error.
    pub fn input_output(message: String) -> (r: GenError)
        ensures
            r.kind == ErrorKind::InputOutput,
            r.message@ == message@,
            r.cause is None,
    {
        GenError { kind: ErrorKind::InputOutput, message, cause: None }
    }

    /// An external-process error.
    pub fn external_process(message: String) -> (r: GenError)
        ensures
            r.kind == ErrorKind::ExternalProcess,
            r.message@ == message@,
            r.cause is None,
    {
        GenError { kind: ErrorKind::ExternalProcess, message, cause: None }
    }

    /// An encoding error.
    pub fn encoding(message: String) -> (r: GenError)
        ensures
            r.kind == ErrorKind::Encoding,
            r.message@ == message@,
            r.cause is None,
    {
        GenError { kind: ErrorKind::Encoding, message, cause: None }
    }

    /// Wraps the error in one more layer of context, keeping its kind.
    pub fn context(self, message: String) -> (r: GenError)
        ensures
            r.kind == self.kind,
            r.message@ == message@,
            r.cause == Option::Some(Box::new(self)),
    {
        GenError { kind: self.kind, message, cause: Some(Box::new(self)) }
    }

    /// The whole chain of messages, outermost first, joined by ": ".
    pub fn describe(&self) -> (r: String)
        ensures
            r@ == chain_text(*self),
        decreases self,
    {
        let mut r = self.message.clone();
        match &self.cause {
            Some(inner) => {
                r.append(": ");
                let rest = inner.describe();
                r.append(rest.as_str());
                r
            },
            None => r,
        }
    }
}

} // verus!
