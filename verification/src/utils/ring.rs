use rb::RbConsumer;
use vstd::prelude::*;

verus! {

#[verifier::external_type_specification]
#[verifier::external_body]
#[verifier::reject_recursive_types(T)]
/// The consumer view of an rb single-producer/single-consumer ring buffer.
/// A streamed source reads decoded samples from it on the audio thread
/// while a decoder worker fills it; the contents are not modeled, since the
/// producer writes concurrently.
pub struct ExRbConsumer<T>(rb::Consumer<T>);

/// Relies on rb::RbConsumer::read: fills `out[..r]` with up to `max`
/// pending values and returns how many were read (0 when the ring is
/// empty, leaving `out` unmodified). Values at and beyond the returned
/// count are untouched.
#[verifier::external_body]
pub fn ring_read<T: Clone + Copy>(
    consumer: &rb::Consumer<T>,
    out: &mut Vec<T>,
    max: usize,
) -> (r: usize)
    requires
        max <= old(out)@.len(),
    ensures
        r <= max,
        final(out)@.len() == old(out)@.len(),
        forall|j: int| r <= j < old(out)@.len() ==> final(out)@[j] == old(out)@[j],
{
    consumer.read(&mut out[..max]).unwrap_or(0)
}

} // verus!
