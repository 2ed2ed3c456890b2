//! A type-erased, heap-allocated message body with a single error type.

mod body;
mod boxed;
mod chunk;
mod chunked;
mod drain;
mod error;
mod laws;
mod map_err;
mod size;

pub use body::{flatten, size_fits, IntoBoxBody, MessageBody, Next};
pub use boxed::BoxBody;
pub use chunk::bytes_content;
pub use chunked::{contents, described, ChunkedBody};
pub use drain::{drain_ready, DrainEnd};
pub use error::{Cause, Error, ErrorKind, Message};
pub use laws::{
    lemma_collapse_idempotent, lemma_drain_equivalence, lemma_error_cause_preserved,
    lemma_size_passthrough,
};
pub use map_err::{ErasedBody, MessageBodyMapErr};
pub use size::BodySize;
