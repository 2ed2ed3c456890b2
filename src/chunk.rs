use vstd::prelude::*;

verus! {

#[verifier::external_type_specification]
#[verifier::external_body]
pub struct ExBytes(bytes::Bytes);

/// The bytes held by a `Bytes` buffer.
pub uninterp spec fn bytes_content(b: bytes::Bytes) -> Seq<u8>;

/// Relies on `Bytes::new`: a new buffer holds no bytes.
pub assume_specification[ bytes::Bytes::new ]() -> (r: bytes::Bytes)
    ensures
        bytes_content(r).len() == 0,
;

/// Relies on `Bytes::len`: the number of bytes held.
pub assume_specification[ bytes::Bytes::len ](b: &bytes::Bytes) -> (r: usize)
    ensures
        r == bytes_content(*b).len(),
;

/// Relies on `Bytes::is_empty`: whether no bytes are held.
pub assume_specification[ bytes::Bytes::is_empty ](b: &bytes::Bytes) -> (r: bool)
    ensures
        r == (bytes_content(*b).len() == 0),
;

/// Relies on `Bytes::to_vec` (through its `Deref` to `[u8]`): a copy of the bytes held.
#[verifier::external_body]
pub(crate) fn bytes_to_vec(b: &bytes::Bytes) -> (r: Vec<u8>)
    ensures
        r@ == bytes_content(*b),
{
    b.to_vec()
}

} // verus!
