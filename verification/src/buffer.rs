//! The fixed-capacity buffer that carries the payload of a bus write: a
//! register address and one or two register bytes.

use vstd::prelude::*;

verus! {

/// `heapless::Vec`: a vector of at most `N` items that lives in place.
/// Nothing of its inside is visible to proofs.
#[verifier::external_type_specification]
#[verifier::external_body]
#[verifier::reject_recursive_types(T)]
pub struct ExHeaplessVec<T, const N: usize>(heapless::Vec<T, N>);

/// The bytes that a buffer holds, in the order in which they were pushed:
/// what `heapless::Vec::as_slice` shows of it.
pub uninterp spec fn buffer_bytes(buffer: heapless::Vec<u8, 3>) -> Seq<u8>;

/// `heapless::Vec::new`: a buffer that holds nothing.
#[verifier::external_body]
pub(crate) fn buffer_new() -> (buffer: heapless::Vec<u8, 3>)
    ensures
        buffer_bytes(buffer) == Seq::<u8>::empty(),
{
    heapless::Vec::new()
}

/// `heapless::Vec::push`: while the buffer holds fewer than three bytes the
/// byte is appended and `Ok` returned; once it holds three it stays as it
/// is and the byte comes back in `Err`.
#[verifier::external_body]
pub(crate) fn buffer_push(buffer: &mut heapless::Vec<u8, 3>, byte: u8) -> (result: Result<(), u8>)
    ensures
        result is Ok <==> buffer_bytes(*old(buffer)).len() < 3,
        result matches Err(rejected) ==> rejected == byte,
        buffer_bytes(*final(buffer)) == if result is Ok {
            buffer_bytes(*old(buffer)).push(byte)
        } else {
            buffer_bytes(*old(buffer))
        },
{
    buffer.push(byte)
}

} // verus!
