//! The error value that every fallible operation of the crate returns.

use vstd::prelude::*;
use vstd::string::*;

verus! {

/// What went wrong, independent of the wording of the message.
#[derive(Clone, Copy, Debug, PartialEq, Eq, Structural)]
pub enum ErrorKind {
    /// An exception that the engine reported while it ran or compiled script code.
    Script,
    /// The worker that owns the engine has terminated.
    EngineUnavailable,
    /// No loader of the chain claimed the requested path.
    ModuleNotFound,
    /// The loader that claimed a path could not supply the module.
    ModuleLoadFailed,
    /// The loader that claimed a module could not populate its exports.
    ModuleInitFailed,
    /// A reference count would have dropped below zero or left its range.
    RefcountViolation,
    /// An operation named a context id that the registry does not hold.
    ContextNotFound,
    /// A context was to be created under an id that the registry already holds.
    ContextExists,
    /// One pending job failed; the jobs after it are not affected.
    PendingJobFailed,
    /// A failure that none of the other kinds describes.
    Other,
}

/// An error with its kind, a human-readable message and, for exceptions that
/// the engine raised, the text of the stack trace.
#[derive(Debug)]
pub struct EsError {
    kind: ErrorKind,
    message: String,
    stack: String,
}

/// The mathematical content of an [`EsError`].
pub struct EsErrorView {
    pub kind: ErrorKind,
    pub message: Seq<char>,
    pub stack: Seq<char>,
}

impl View for EsError {
    type V = EsErrorView;

    closed spec fn view(&self) -> EsErrorView {
        EsErrorView { kind: self.kind, message: self.message@, stack: self.stack@ }
    }
}

/// The text that [`EsError::to_text`] renders: the message, followed by
/// `" at"` and the stack trace where there is one.
pub open spec fn error_text(e: EsErrorView) -> Seq<char> {
    if e.stack.len() == 0 {
        e.message
    } else {
        e.message + " at"@ + e.stack
    }
}

impl EsError {
    /// An error of the given kind with the given message and no stack trace.
    pub fn new(kind: ErrorKind, message: String) -> (e: EsError)
        ensures
            e@ == (EsErrorView { kind, message: message@, stack: Seq::<char>::empty() }),
    {
        EsError { kind, message, stack: String::new() }
    }

    /// An engine exception with its message and stack trace.
    pub fn new_exception(message: String, stack: String) -> (e: EsError)
        ensures
            e@ == (EsErrorView { kind: ErrorKind::Script, message: message@, stack: stack@ }),
    {
        EsError { kind: ErrorKind::Script, message, stack }
    }

    /// An error of kind [`ErrorKind::Other`] with the given message.
    pub fn new_str(message: &str) -> (e: EsError)
        ensures
            e@ == (EsErrorView {
                kind: ErrorKind::Other,
                message: message@,
                stack: Seq::<char>::empty(),
            }),
    {
        EsError::new(ErrorKind::Other, String::from_str(message))
    }

    /// An error of kind [`ErrorKind::Other`] with the given message.
    pub fn new_string(message: String) -> (e: EsError)
        ensures
            e@ == (EsErrorView {
                kind: ErrorKind::Other,
                message: message@,
                stack: Seq::<char>::empty(),
            }),
    {
        EsError::new(ErrorKind::Other, message)
    }

    /// The same message and stack trace under another kind.
    pub fn with_kind(self, kind: ErrorKind) -> (e: EsError)
        ensures
            e@ == (EsErrorView { kind, ..self@ }),
    {
        EsError { kind, message: self.message, stack: self.stack }
    }

    pub fn get_kind(&self) -> (kind: ErrorKind)
        ensures
            kind == self@.kind,
    {
        self.kind
    }

    pub fn get_message(&self) -> (message: &str)
        ensures
            message@ == self@.message,
    {
        self.message.as_str()
    }

    pub fn get_stack(&self) -> (stack: &str)
        ensures
            stack@ == self@.stack,
    {
        self.stack.as_str()
    }

    /// The error as one line of text, see [`error_text`].
    pub fn to_text(&self) -> (text: String)
        ensures
            text@ == error_text(self@),
    {
        if self.stack.as_str().is_empty() {
            self.message.clone()
        } else {
            let text = self.message.clone();
            let text = text.concat(" at");
            text.concat(self.stack.as_str())
        }
    }
}

impl Clone for EsError {
    fn clone(&self) -> (e: EsError)
        ensures
            e@ == self@,
    {
        EsError { kind: self.kind, message: self.message.clone(), stack: self.stack.clone() }
    }
}

} // verus!
