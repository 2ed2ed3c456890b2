use vstd::prelude::*;

verus! {

/// How many bytes a body will still produce, as far as it knows.
#[derive(Clone, Copy, Debug, PartialEq, Eq, Structural)]
pub enum BodySize {
    /// No bytes at all.
    Empty,
    /// Exactly this many bytes.
    Sized(u64),
    /// Unknown until the body ends.
    Unsized,
}

impl BodySize {
    /// Whether the body is known to produce no bytes.
    pub open spec fn spec_is_eof(self) -> bool {
        match self {
            BodySize::Empty | BodySize::Sized(0) => true,
            _ => false,
        }
    }

    /// Returns true when the body is known to produce no bytes.
    pub fn is_eof(&self) -> (r: bool)
        ensures
            r == self.spec_is_eof(),
    {
        match self {
            BodySize::Empty | BodySize::Sized(0) => true,
            _ => false,
        }
    }
}

} // verus!
