use vstd::prelude::*;

use crate::body::{IntoBoxBody, MessageBody, Next};
use crate::boxed::BoxBody;
use crate::chunk::bytes_content;
use crate::error::Cause;
use crate::size::BodySize;

verus! {

/// The bytes of each buffer, in order.
pub open spec fn contents(bufs: Seq<bytes::Bytes>) -> Seq<Seq<u8>> {
    bufs.map_values(|b: bytes::Bytes| bytes_content(b))
}

/// What an optional cause says of itself.
pub open spec fn described<E: Cause>(e: Option<E>) -> Option<Seq<char>> {
    match e {
        Some(c) => Some(c.describe()),
        None => None,
    }
}

/// A streamed body that yields a list of chunks one by one, and then ends or
/// fails with a given cause.
pub struct ChunkedBody<E> {
    /// The chunks still to come, last one first.
    rest: Vec<bytes::Bytes>,
    failure: Option<E>,
    done: bool,
}

impl<E: Cause> ChunkedBody<E> {
    /// A body that yields `chunks` in order, then fails with `failure` if it is `Some`.
    pub fn new(chunks: Vec<bytes::Bytes>, failure: Option<E>) -> (r: Self)
        ensures
            r.chunks() == contents(chunks@),
            r.failure() == described(failure),
            !r.finished(),
    {
        let mut chunks = chunks;
        let ghost all = chunks@;
        let mut rest: Vec<bytes::Bytes> = Vec::new();
        while chunks.len() > 0
            invariant
                chunks@.len() + rest@.len() == all.len(),
                chunks@ == all.subrange(0, chunks@.len() as int),
                forall|i: int| 0 <= i < rest@.len() ==> rest@[i] == all[all.len() - 1 - i],
            decreases chunks@.len(),
        {
            let b = chunks.pop().unwrap();
            rest.push(b);
        }
        let r = ChunkedBody { rest, failure, done: false };
        assert(r.chunks() =~= contents(all));
        r
    }
}

impl<E: Cause + 'static> MessageBody for ChunkedBody<E> {
    type Error = E;

    closed spec fn chunks(&self) -> Seq<Seq<u8>> {
        if self.done {
            Seq::empty()
        } else {
            Seq::new(self.rest@.len(), |i: int| bytes_content(self.rest@[self.rest@.len() - 1 - i]))
        }
    }

    closed spec fn failure(&self) -> Option<Seq<char>> {
        if self.done {
            None
        } else {
            described(self.failure)
        }
    }

    closed spec fn spec_size(&self) -> BodySize {
        if self.done || self.rest@.len() == 0 {
            BodySize::Empty
        } else {
            BodySize::Unsized
        }
    }

    closed spec fn complete(&self) -> bool {
        false
    }

    closed spec fn finished(&self) -> bool {
        self.done
    }

    fn size(&self) -> (r: BodySize) {
        if self.done || self.rest.len() == 0 {
            assert(self.chunks() =~= Seq::empty());
            BodySize::Empty
        } else {
            BodySize::Unsized
        }
    }

    fn poll_next(&mut self) -> (r: Next<Self::Error>) {
        if self.done {
            return Next::End;
        }
        match self.rest.pop() {
            Some(b) => {
                assert(self.chunks() =~= old(self).chunks().drop_first());
                Next::Chunk(b)
            },
            None => {
                self.done = true;
                match self.failure.take() {
                    Some(e) => Next::Failed(e),
                    None => Next::End,
                }
            },
        }
    }

    fn is_complete_body(&self) -> (r: bool) {
        false
    }

    fn take_complete_body(&mut self) -> (r: bytes::Bytes) {
        bytes::Bytes::new()
    }
}

impl<E: Cause + 'static> IntoBoxBody for ChunkedBody<E> {
    fn boxed(self) -> (r: BoxBody) {
        BoxBody::new(self)
    }
}

} // verus!
