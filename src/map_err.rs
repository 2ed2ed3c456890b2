use vstd::prelude::*;

use crate::body::{flatten, size_fits, MessageBody, Next};
use crate::chunk::bytes_content;
use crate::error::{Cause, Error, ErrorKind};
use crate::size::BodySize;

verus! {

/// The body contract with the error fixed to [`Error`]; it can stand behind `dyn`.
pub trait ErasedBody {
    /// The chunks still to come, in order.
    spec fn chunks(&self) -> Seq<Seq<u8>>;

    /// What the failure after the last chunk says of itself.
    spec fn failure(&self) -> Option<Seq<char>>;

    /// The size category that `size` reports.
    spec fn spec_size(&self) -> BodySize;

    /// Whether all bytes are already held as one buffer.
    spec fn complete(&self) -> bool;

    /// Whether the body has reported its end or its failure.
    spec fn finished(&self) -> bool;

    /// Returns the size category of what is still to come.
    fn size(&self) -> (r: BodySize)
        ensures
            r == self.spec_size(),
            size_fits(r, self.chunks()),
    ;

    /// Pulls the next chunk; a failure comes as a body [`Error`].
    fn poll_next(&mut self) -> (r: Next<Error>)
        ensures
            old(self).finished() ==> r is End,
            final(self).finished() ==> final(self).chunks().len() == 0 && final(self).failure() is None,
            match r {
                Next::Pending => final(self).chunks() == old(self).chunks()
                    && final(self).failure() == old(self).failure(),
                Next::Chunk(b) => old(self).chunks().len() > 0
                    && bytes_content(b) == old(self).chunks()[0]
                    && final(self).chunks() == old(self).chunks().drop_first()
                    && final(self).failure() == old(self).failure(),
                Next::End => old(self).chunks().len() == 0
                    && old(self).failure() is None
                    && final(self).finished(),
                Next::Failed(e) => old(self).chunks().len() == 0
                    && old(self).failure() == Some(e.cause_text())
                    && e.spec_kind() == ErrorKind::Body
                    && final(self).finished(),
            },
    ;

    /// Returns true when all bytes are already held as one buffer.
    fn is_complete_body(&self) -> (r: bool)
        ensures
            r == self.complete(),
            r ==> self.failure() is None,
    ;

    /// Takes all bytes at once from a complete body; what is left is empty.
    fn take_complete_body(&mut self) -> (r: bytes::Bytes)
        requires
            old(self).complete(),
        ensures
            bytes_content(r) == flatten(old(self).chunks()),
            final(self).chunks().len() == 0,
            final(self).failure() is None,
            final(self).complete(),
    ;
}

/// Wraps a body and turns each of its errors into a body [`Error`] that carries
/// it as the cause; chunks pass through untouched.
pub struct MessageBodyMapErr<B> {
    body: B,
}

impl<B: MessageBody> MessageBodyMapErr<B> {
    /// The wrapped body.
    pub closed spec fn inner(&self) -> B {
        self.body
    }

    /// Wraps `body`.
    pub fn new(body: B) -> (r: Self)
        ensures
            r.inner() == body,
    {
        MessageBodyMapErr { body }
    }
}

impl<B: MessageBody + 'static> ErasedBody for MessageBodyMapErr<B> {
    open spec fn chunks(&self) -> Seq<Seq<u8>> {
        self.inner().chunks()
    }

    open spec fn failure(&self) -> Option<Seq<char>> {
        self.inner().failure()
    }

    open spec fn spec_size(&self) -> BodySize {
        self.inner().spec_size()
    }

    open spec fn complete(&self) -> bool {
        self.inner().complete()
    }

    open spec fn finished(&self) -> bool {
        self.inner().finished()
    }

    fn size(&self) -> (r: BodySize) {
        self.body.size()
    }

    fn poll_next(&mut self) -> (r: Next<Error>) {
        match self.body.poll_next() {
            Next::Pending => Next::Pending,
            Next::Chunk(b) => Next::Chunk(b),
            Next::End => Next::End,
            Next::Failed(e) => Next::Failed(Error::new_body(e)),
        }
    }

    fn is_complete_body(&self) -> (r: bool) {
        self.body.is_complete_body()
    }

    fn take_complete_body(&mut self) -> (r: bytes::Bytes) {
        self.body.take_complete_body()
    }
}

} // verus!
