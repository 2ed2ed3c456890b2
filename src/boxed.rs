use vstd::prelude::*;

use crate::body::{IntoBoxBody, MessageBody, Next};
use crate::error::{Cause, Error};
use crate::map_err::{ErasedBody, MessageBodyMapErr};
use crate::size::BodySize;

verus! {

/// A body of any kind behind one heap allocation, with its errors turned into [`Error`].
pub struct BoxBody(Box<dyn ErasedBody>);

impl BoxBody {
    /// Whether this wrapper presents exactly the state of `body`: the same
    /// chunks, failure, size, completeness and end.
    pub open spec fn erases<B: MessageBody>(self, body: B) -> bool {
        &&& self.chunks() == body.chunks()
        &&& self.failure() == body.failure()
        &&& self.spec_size() == body.spec_size()
        &&& self.complete() == body.complete()
        &&& self.finished() == body.finished()
    }

    /// Erases `body`, boxing its errors as causes.
    ///
    /// Where `body` may already be a `BoxBody`, [`IntoBoxBody::boxed`] avoids a second layer.
    pub fn new<B: MessageBody + 'static>(body: B) -> (r: Self)
        ensures
            r.erases(body),
    {
        let body = MessageBodyMapErr::new(body);
        BoxBody(Box::new(body))
    }

    /// Erasing a value that is already erased hands it back as it is: no
    /// second adapter and no second allocation.
    pub fn boxed(self) -> (r: BoxBody)
        ensures
            r == self,
    {
        self
    }

    /// Returns a mutable reference to the inner body; what is done through it
    /// is what the wrapper's state shows once the borrow ends.
    pub fn as_pin_mut(&mut self) -> (r: &mut Box<dyn ErasedBody>)
        ensures
            r.chunks() == old(self).chunks(),
            r.failure() == old(self).failure(),
            r.spec_size() == old(self).spec_size(),
            r.complete() == old(self).complete(),
            r.finished() == old(self).finished(),
            final(self).chunks() == final(r).chunks(),
            final(self).failure() == final(r).failure(),
            final(self).spec_size() == final(r).spec_size(),
            final(self).complete() == final(r).complete(),
            final(self).finished() == final(r).finished(),
    {
        &mut self.0
    }

    /// Returns the text that names this value for debugging.
    pub fn debug_string(&self) -> (r: String)
        ensures
            r@ == "BoxBody(dyn MessageBody)"@,
    {
        "BoxBody(dyn MessageBody)".to_owned()
    }
}

impl MessageBody for BoxBody {
    type Error = Error;

    closed spec fn chunks(&self) -> Seq<Seq<u8>> {
        self.0.chunks()
    }

    closed spec fn failure(&self) -> Option<Seq<char>> {
        self.0.failure()
    }

    closed spec fn spec_size(&self) -> BodySize {
        self.0.spec_size()
    }

    closed spec fn complete(&self) -> bool {
        self.0.complete()
    }

    closed spec fn finished(&self) -> bool {
        self.0.finished()
    }

    fn size(&self) -> (r: BodySize) {
        self.0.size()
    }

    fn poll_next(&mut self) -> (r: Next<Self::Error>) {
        match self.0.poll_next() {
            Next::Pending => Next::Pending,
            Next::Chunk(b) => Next::Chunk(b),
            Next::End => Next::End,
            Next::Failed(e) => {
                assert(e.describe() == e.cause_text());
                Next::Failed(e)
            },
        }
    }

    fn is_complete_body(&self) -> (r: bool) {
        self.0.is_complete_body()
    }

    fn take_complete_body(&mut self) -> (r: bytes::Bytes) {
        self.0.take_complete_body()
    }
}

impl IntoBoxBody for BoxBody {
    fn boxed(self) -> (r: BoxBody) {
        BoxBody::boxed(self)
    }
}

} // verus!
