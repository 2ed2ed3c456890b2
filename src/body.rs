use vstd::prelude::*;

use crate::boxed::BoxBody;
use crate::chunk::bytes_content;
use crate::error::{Cause, Error};
use crate::size::BodySize;

verus! {

/// What one pull of a body gives.
pub enum Next<E> {
    /// Nothing yet: pull again once woken.
    Pending,
    /// The next chunk, in order.
    Chunk(bytes::Bytes),
    /// No chunk will ever come again.
    End,
    /// The body failed; this ends it.
    Failed(E),
}

/// All the given chunks, one after another.
pub open spec fn flatten(chunks: Seq<Seq<u8>>) -> Seq<u8>
    decreases chunks.len(),
{
    if chunks.len() == 0 {
        Seq::empty()
    } else {
        chunks[0] + flatten(chunks.drop_first())
    }
}

/// Whether `size` describes a body that will still produce exactly `chunks`.
pub open spec fn size_fits(size: BodySize, chunks: Seq<Seq<u8>>) -> bool {
    match size {
        BodySize::Empty => flatten(chunks).len() == 0,
        BodySize::Sized(n) => flatten(chunks).len() == n,
        BodySize::Unsized => true,
    }
}

/// A producer of a byte sequence, consumed once, chunk by chunk.
///
/// Its state is modelled by the chunks it will still yield, the failure (if
/// any) it will report after them, whether it is complete (all of its bytes
/// are held in one buffer), and whether it has ended.
pub trait MessageBody {
    type Error: Cause + 'static;

    /// The chunks still to come, in order.
    spec fn chunks(&self) -> Seq<Seq<u8>>;

    /// What the failure after the last chunk says of itself; `None` when the body ends cleanly.
    spec fn failure(&self) -> Option<Seq<char>>;

    /// The size category that `size` reports.
    spec fn spec_size(&self) -> BodySize;

    /// Whether all bytes are already held as one buffer.
    spec fn complete(&self) -> bool;

    /// Whether the body has reported its end or its failure.
    spec fn finished(&self) -> bool;

    /// Returns the size category of what is still to come.
    fn size(&self) -> (r: BodySize)
        ensures
            r == self.spec_size(),
            size_fits(r, self.chunks()),
    ;

    /// Pulls the next chunk.
    fn poll_next(&mut self) -> (r: Next<Self::Error>)
        ensures
            old(self).finished() ==> r is End,
            final(self).finished() ==> final(self).chunks().len() == 0 && final(self).failure() is None,
            match r {
                Next::Pending => final(self).chunks() == old(self).chunks()
                    && final(self).failure() == old(self).failure(),
                Next::Chunk(b) => old(self).chunks().len() > 0
                    && bytes_content(b) == old(self).chunks()[0]
                    && final(self).chunks() == old(self).chunks().drop_first()
                    && final(self).failure() == old(self).failure(),
                Next::End => old(self).chunks().len() == 0
                    && old(self).failure() is None
                    && final(self).finished(),
                Next::Failed(e) => old(self).chunks().len() == 0
                    && old(self).failure() == Some(e.describe())
                    && final(self).finished(),
            },
    ;

    /// Returns true when all bytes are already held as one buffer.
    fn is_complete_body(&self) -> (r: bool)
        ensures
            r == self.complete(),
            r ==> self.failure() is None,
    ;

    /// Takes all bytes at once from a complete body; what is left is empty.
    fn take_complete_body(&mut self) -> (r: bytes::Bytes)
        requires
            old(self).complete(),
        ensures
            bytes_content(r) == flatten(old(self).chunks()),
            final(self).chunks().len() == 0,
            final(self).failure() is None,
            final(self).complete(),
    ;
}

/// A body that can be erased into a [`BoxBody`].
pub trait IntoBoxBody: MessageBody + Sized {
    /// Erases this body; a value that is already erased is handed back as it is.
    fn boxed(self) -> (r: BoxBody)
        ensures
            r.erases(self),
    ;
}

/// A buffer is a body of at most one chunk.
impl MessageBody for bytes::Bytes {
    type Error = Error;

    open spec fn chunks(&self) -> Seq<Seq<u8>> {
        if bytes_content(*self).len() == 0 {
            Seq::empty()
        } else {
            seq![bytes_content(*self)]
        }
    }

    open spec fn failure(&self) -> Option<Seq<char>> {
        None
    }

    open spec fn spec_size(&self) -> BodySize {
        BodySize::Sized(bytes_content(*self).len() as u64)
    }

    open spec fn complete(&self) -> bool {
        true
    }

    open spec fn finished(&self) -> bool {
        bytes_content(*self).len() == 0
    }

    fn size(&self) -> (r: BodySize) {
        let n = self.len();
        proof {
            if bytes_content(*self).len() > 0 {
                assert(flatten(self.chunks().drop_first()) =~= Seq::<u8>::empty());
                assert(flatten(self.chunks()) =~= bytes_content(*self));
            }
        }
        BodySize::Sized(n as u64)
    }

    fn poll_next(&mut self) -> (r: Next<Self::Error>) {
        if self.is_empty() {
            Next::End
        } else {
            let mut taken = bytes::Bytes::new();
            std::mem::swap(self, &mut taken);
            Next::Chunk(taken)
        }
    }

    fn is_complete_body(&self) -> (r: bool) {
        true
    }

    fn take_complete_body(&mut self) -> (r: bytes::Bytes) {
        let mut taken = bytes::Bytes::new();
        std::mem::swap(self, &mut taken);
        proof {
            if bytes_content(taken).len() > 0 {
                assert(flatten(old(self).chunks().drop_first()) =~= Seq::<u8>::empty());
                assert(flatten(old(self).chunks()) =~= bytes_content(taken));
            }
        }
        taken
    }
}

impl IntoBoxBody for bytes::Bytes {
    fn boxed(self) -> (r: BoxBody) {
        BoxBody::new(self)
    }
}

} // verus!
