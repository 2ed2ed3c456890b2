use vstd::prelude::*;

use crate::body::{flatten, MessageBody};
use crate::boxed::BoxBody;
use crate::error::{Cause, Error};

verus! {

/// Erasing a body twice presents the same state as erasing it once: the same
/// bytes, the same size, and the same failure with no further layer on it.
pub proof fn lemma_collapse_idempotent<B: MessageBody>(body: B, once: BoxBody, twice: BoxBody)
    requires
        once.erases(body),
        twice.erases(once),
    ensures
        twice.erases(body),
        flatten(twice.chunks()) == flatten(once.chunks()),
        twice.failure() == once.failure(),
{
}

/// Draining a wrapper yields exactly the concatenation of the chunks that the
/// wrapped body would yield, and then the same end or failure.
pub proof fn lemma_drain_equivalence<B: MessageBody>(body: B, wrapper: BoxBody)
    requires
        wrapper.erases(body),
    ensures
        wrapper.chunks() == body.chunks(),
        flatten(wrapper.chunks()) == flatten(body.chunks()),
        wrapper.failure() == body.failure(),
{
}

/// A wrapper reports the size category of the body it wraps.
pub proof fn lemma_size_passthrough<B: MessageBody>(body: B, wrapper: BoxBody)
    requires
        wrapper.erases(body),
    ensures
        wrapper.spec_size() == body.spec_size(),
{
}

/// When the wrapped body fails with `cause`, the error that the wrapper
/// reports carries that cause, saying what it said.
pub proof fn lemma_error_cause_preserved<B: MessageBody>(
    body: B,
    wrapper: BoxBody,
    cause: B::Error,
    reported: Error,
)
    requires
        wrapper.erases(body),
        body.failure() == Some(cause.describe()),
        wrapper.failure() == Some(reported.describe()),
    ensures
        reported.cause_text() == cause.describe(),
{
}

} // verus!
