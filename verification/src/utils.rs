pub mod channels;
pub mod clock;
pub mod fader;
pub mod ring;

use vstd::prelude::*;

verus! {

/// A value beyond `a / b` exceeds `a` after scaling by `b`.
pub proof fn lemma_div_mul_gt(x: int, a: int, b: int)
    requires
        b > 0,
        0 <= a,
        x > a / b,
    ensures
        x * b > a,
{
    vstd::arithmetic::div_mod::lemma_fundamental_div_mod(a, b);
    vstd::arithmetic::mul::lemma_mul_inequality(a / b + 1, x, b);
    vstd::arithmetic::mul::lemma_mul_is_distributive_add_other_way(b, a / b, 1);
    vstd::arithmetic::mul::lemma_mul_is_commutative(a / b, b);
}

/// A value at most `a / b` stays at most `a` after scaling back by `b`.
pub proof fn lemma_div_mul_le(x: int, a: int, b: int)
    requires
        b > 0,
        0 <= a,
        0 <= x,
        x <= a / b,
    ensures
        x * b <= a,
{
    vstd::arithmetic::div_mod::lemma_fundamental_div_mod(a, b);
    vstd::arithmetic::mul::lemma_mul_inequality(x, a / b, b);
    vstd::arithmetic::mul::lemma_mul_is_commutative(a / b, b);
}

/// Allocator for process-wide unique playback ids: counts upwards from 1,
/// so every id it ever hands out is distinct and non-zero.
#[derive(Debug, Clone, PartialEq, Eq, Structural)]
pub struct UniqueIdSource {
    /// The next id that will be handed out.
    pub next_id: usize,
}

impl UniqueIdSource {
    /// A fresh id source, starting to count at 1.
    pub fn new() -> (r: UniqueIdSource)
        ensures
            r.next_id == 1,
    {
        UniqueIdSource { next_id: 1 }
    }
}

/// Generates a unique usize number by simply counting upwards from 1: the
/// returned id is strictly smaller than every id handed out afterwards,
/// so ids are never reused.
pub fn unique_usize_id(ids: &mut UniqueIdSource) -> (r: usize)
    requires
        old(ids).next_id < usize::MAX,
    ensures
        r == old(ids).next_id,
        final(ids).next_id == old(ids).next_id + 1,
{
    let id = ids.next_id;
    ids.next_id = ids.next_id + 1;
    id
}

} // verus!
