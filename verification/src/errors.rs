//! The failure taxonomy of the client.
use vstd::prelude::*;

verus! {

/// What went wrong: a transport failure, a malformed provider response,
/// an authentication problem, a lookup that found nothing, or a storage
/// problem.
#[derive(Clone, Copy, PartialEq, Eq, Structural, Debug)]
pub enum ErrorKind {
    Network,
    Protocol,
    Auth,
    NotFound,
    Persistence,
}

/// An error of the client: its kind together with a human-readable message.
#[derive(Debug)]
pub struct XTVError {
    kind: ErrorKind,
    message: String,
}

/// The mathematical content of an [`XTVError`].
pub struct XTVErrorView {
    pub kind: ErrorKind,
    pub message: Seq<char>,
}

impl View for XTVError {
    type V = XTVErrorView;

    closed spec fn view(&self) -> XTVErrorView {
        XTVErrorView { kind: self.kind, message: self.message@ }
    }
}

impl Clone for XTVError {
    fn clone(&self) -> (r: Self)
        ensures
            r@ == self@,
    {
        XTVError { kind: self.kind, message: self.message.clone() }
    }
}

impl XTVError {
    pub fn new(kind: ErrorKind, message: String) -> (e: XTVError)
        ensures
            e@.kind == kind,
            e@.message == message@,
    {
        XTVError { kind, message }
    }

    pub fn kind(&self) -> (k: ErrorKind)
        ensures
            k == self@.kind,
    {
        self.kind
    }

    pub fn message(&self) -> (m: &String)
        ensures
            m@ == self@.message,
    {
        &self.message
    }
}

} // verus!
