use vstd::prelude::*;
use crate::registers::FIFO_SIZE_BYTES;

verus! {

/// heapless::Vec, the fixed-capacity vector, held opaque.
#[verifier::external_type_specification]
#[verifier::external_body]
#[verifier::reject_recursive_types(T)]
pub struct ExHeaplessVec<T, const N: usize>(heapless::Vec<T, N>);

/// A fixed-capacity buffer of FIFO bytes, at most one full FIFO.
pub type Batch = heapless::Vec<u8, FIFO_SIZE_BYTES>;

/// The bytes that a batch holds, in order.
pub uninterp spec fn batch_bytes(v: heapless::Vec<u8, FIFO_SIZE_BYTES>) -> Seq<u8>;

/// Relies on heapless::Vec::new: a new vector holds nothing.
#[verifier::external_body]
pub(crate) fn empty_batch() -> (r: Batch)
    ensures
        batch_bytes(r) == Seq::<u8>::empty(),
{
    heapless::Vec::new()
}

/// Relies on heapless::Vec::extend_from_slice: when the bytes fit in the
/// remaining capacity they are appended and `Ok` comes back; otherwise the
/// vector is left as it was and `Err` comes back.
#[verifier::external_body]
pub(crate) fn append_bytes(v: &mut Batch, bytes: &[u8]) -> (r: Result<(), ()>)
    ensures
        batch_bytes(*old(v)).len() + bytes@.len() <= FIFO_SIZE_BYTES ==> r is Ok && batch_bytes(
            *final(v),
        ) == batch_bytes(*old(v)) + bytes@,
        batch_bytes(*old(v)).len() + bytes@.len() > FIFO_SIZE_BYTES ==> r is Err && batch_bytes(
            *final(v),
        ) == batch_bytes(*old(v)),
{
    v.extend_from_slice(bytes)
}

} // verus!
