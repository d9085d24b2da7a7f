use vstd::prelude::*;

verus! {

/// Sentinel returned by [`find_zero_frequency`] when the frequency axis holds no zero.
pub const NO_ZERO_FREQUENCY: usize = usize::MAX;

/// `i` is the first position of the axis whose frequency is zero.
pub open spec fn is_first_zero(is_zero: Seq<bool>, i: int) -> bool {
    &&& 0 <= i < is_zero.len()
    &&& is_zero[i]
    &&& forall|j: int| 0 <= j < i ==> !is_zero[j]
}

/// The position of the first zero frequency, or the sentinel where there is none.
///
/// `is_zero[i]` tells whether the `i`-th frequency of the axis equals zero.
pub open spec fn first_zero_index(is_zero: Seq<bool>) -> int {
    if exists|i: int| 0 <= i < is_zero.len() && is_zero[i] {
        choose|i: int| is_first_zero(is_zero, i)
    } else {
        NO_ZERO_FREQUENCY as int
    }
}

/// Index of the first zero frequency, or [`NO_ZERO_FREQUENCY`] if there is none.
///
/// `is_zero[i]` holds exactly when the `i`-th frequency equals zero.
pub fn find_zero_frequency(is_zero: &Vec<bool>) -> (index: usize)
    ensures
        index == NO_ZERO_FREQUENCY <==> (forall|i: int| 0 <= i < is_zero@.len() ==> !is_zero@[i]),
        index != NO_ZERO_FREQUENCY ==> is_first_zero(is_zero@, index as int),
        index == first_zero_index(is_zero@),
{
    let mut i: usize = 0;
    while i < is_zero.len()
        invariant
            i <= is_zero@.len(),
            forall|j: int| 0 <= j < i ==> !is_zero@[j],
        decreases is_zero@.len() - i,
    {
        if is_zero[i] {
            proof {
                assert(is_first_zero(is_zero@, i as int));
                let k = choose|k: int| is_first_zero(is_zero@, k);
                if k < i {
                } else if k > i {
                    assert(!is_zero@[i as int]);
                }
                assert(k == i);
            }
            return i;
        }
        i = i + 1;
    }
    NO_ZERO_FREQUENCY
}

} // verus!
