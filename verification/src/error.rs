//! The error type shared by every fallible operation of the library.

use vstd::prelude::*;

verus! {

/// The class of a failure.
#[derive(Clone, Copy, Debug, PartialEq, Eq, Structural)]
pub enum ErrorKind {
    /// A malformed document, or a value that fails structural validation.
    InvalidArgument,
    /// A capability that the operation needs is not available.
    DependencyError,
    /// The merged state as a whole is inconsistent.
    ValidationError,
}

/// The mathematical value of an [`NmstateError`].
pub struct NmstateErrorView {
    pub kind: ErrorKind,
    pub msg: Seq<char>,
}

/// A failure: its class and a message for the operator.
#[derive(Debug, PartialEq, Eq)]
pub struct NmstateError {
    kind: ErrorKind,
    msg: String,
}

impl View for NmstateError {
    type V = NmstateErrorView;

    closed spec fn view(&self) -> NmstateErrorView {
        NmstateErrorView { kind: self.kind, msg: self.msg@ }
    }
}

impl Clone for NmstateError {
    fn clone(&self) -> (r: Self)
        ensures
            r@ == self@,
    {
        NmstateError { kind: self.kind, msg: self.msg.clone() }
    }
}

impl NmstateError {
    /// An error of class `kind` that carries `msg`.
    pub fn new(kind: ErrorKind, msg: String) -> (e: Self)
        ensures
            e@.kind == kind,
            e@.msg == msg@,
    {
        NmstateError { kind, msg }
    }

    /// The class of this error.
    pub fn kind(&self) -> (k: ErrorKind)
        ensures
            k == self@.kind,
    {
        self.kind
    }

    /// The message of this error.
    pub fn msg(&self) -> (m: &str)
        ensures
            m@ == self@.msg,
    {
        self.msg.as_str()
    }
}

} // verus!
