use vstd::prelude::*;

verus! {

/// An underlying cause of failure, carried behind a dynamically dispatched handle.
pub trait Cause {
    /// What the cause says of itself.
    spec fn describe(&self) -> Seq<char>;

    /// Returns the text that `describe` gives.
    fn description(&self) -> (r: String)
        ensures
            r@ == self.describe(),
    ;
}

/// A cause that is a plain message.
#[derive(Debug, PartialEq, Eq)]
pub struct Message {
    pub text: String,
}

impl Cause for Message {
    open spec fn describe(&self) -> Seq<char> {
        self.text@
    }

    fn description(&self) -> (r: String) {
        self.text.clone()
    }
}

/// Holds a cause of a known type, so that what it says stays known behind `dyn`.
struct Carried<C>(C);

impl<C: Cause> Cause for Carried<C> {
    closed spec fn describe(&self) -> Seq<char> {
        self.0.describe()
    }

    fn description(&self) -> (r: String) {
        self.0.description()
    }
}

/// The classification of an [`Error`].
#[derive(Clone, Copy, Debug, PartialEq, Eq, Structural)]
pub enum ErrorKind {
    /// A body failed while producing its bytes.
    Body,
}

/// The single error type of erased bodies: a classification and the cause it carries.
pub struct Error {
    kind: ErrorKind,
    cause: Box<dyn Cause>,
}

impl Error {
    /// The classification of this error.
    pub closed spec fn spec_kind(&self) -> ErrorKind {
        self.kind
    }

    /// What the carried cause says of itself.
    pub closed spec fn cause_text(&self) -> Seq<char> {
        self.cause.describe()
    }

    /// A body error that carries `cause`.
    pub fn new_body<C: Cause + 'static>(cause: C) -> (r: Self)
        ensures
            r.spec_kind() == ErrorKind::Body,
            r.cause_text() == cause.describe(),
    {
        Error { kind: ErrorKind::Body, cause: Box::new(Carried(cause)) }
    }

    /// Returns the classification of this error.
    pub fn kind(&self) -> (r: ErrorKind)
        ensures
            r == self.spec_kind(),
    {
        self.kind
    }

    /// Returns the carried cause.
    pub fn cause(&self) -> (r: &Box<dyn Cause>)
        ensures
            r.describe() == self.cause_text(),
    {
        &self.cause
    }
}

impl Cause for Error {
    open spec fn describe(&self) -> Seq<char> {
        self.cause_text()
    }

    fn description(&self) -> (r: String) {
        self.cause.description()
    }
}

} // verus!
