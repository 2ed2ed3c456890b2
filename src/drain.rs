use vstd::prelude::*;

use crate::body::{flatten, MessageBody, Next};
use crate::chunk::{bytes_content, bytes_to_vec};
use crate::error::Cause;

verus! {

/// How a drain stopped.
pub enum DrainEnd<E> {
    /// The body had nothing more ready; pull again once woken.
    Pending,
    /// The body ended cleanly.
    End,
    /// The body failed.
    Failed(E),
}

/// Pulls every chunk that is ready and gathers their bytes, until the body
/// ends, fails, or has nothing ready.
pub fn drain_ready<B: MessageBody>(body: &mut B) -> (r: (Vec<u8>, DrainEnd<B::Error>))
    ensures
        old(body).finished() ==> r.1 is End,
        match r.1 {
            DrainEnd::Pending => r.0@ + flatten(final(body).chunks()) == flatten(old(body).chunks())
                && final(body).failure() == old(body).failure(),
            DrainEnd::End => r.0@ == flatten(old(body).chunks())
                && old(body).failure() is None
                && final(body).finished(),
            DrainEnd::Failed(e) => r.0@ == flatten(old(body).chunks())
                && old(body).failure() == Some(e.describe())
                && final(body).finished(),
        },
{
    let mut acc: Vec<u8> = Vec::new();
    loop
        invariant
            acc@ + flatten(body.chunks()) == flatten(old(body).chunks()),
            body.failure() == old(body).failure(),
            old(body).finished() ==> body.finished(),
        decreases body.chunks().len(),
    {
        let ghost before = body.chunks();
        match body.poll_next() {
            Next::Pending => {
                return (acc, DrainEnd::Pending);
            },
            Next::End => {
                assert(flatten(before) =~= Seq::<u8>::empty());
                assert(acc@ + Seq::<u8>::empty() =~= acc@);
                return (acc, DrainEnd::End);
            },
            Next::Failed(e) => {
                assert(flatten(before) =~= Seq::<u8>::empty());
                assert(acc@ + Seq::<u8>::empty() =~= acc@);
                return (acc, DrainEnd::Failed(e));
            },
            Next::Chunk(b) => {
                let mut piece = bytes_to_vec(&b);
                proof {
                    assert(piece@ == before[0]);
                    assert(flatten(before) == before[0] + flatten(before.drop_first()));
                    assert(acc@ + piece@ + flatten(body.chunks()) =~= acc@ + flatten(before));
                }
                acc.append(&mut piece);
            },
        }
    }
}

} // verus!
