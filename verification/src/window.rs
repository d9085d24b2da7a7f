use vstd::prelude::*;

use crate::zero_frequency::NO_ZERO_FREQUENCY;

verus! {

/// Where one weight of a Konno-Ohmachi window comes from.
#[derive(Clone, Copy, Debug, PartialEq, Eq, Structural)]
pub enum WeightSource {
    /// The smoothing kernel `(sin(x) / x)^4` with `x = b * log10(f / f_c)`.
    Kernel,
    /// One: the removable singularity of the kernel at the corner frequency itself.
    Unit,
    /// Zero: the zero frequency contributes nothing.
    Zero,
}

/// Where weight `j` of the window centred on frequency `index_frequency` comes
/// from, on an axis whose first zero frequency is at `zero_frequency_index`
/// ([`NO_ZERO_FREQUENCY`] where there is none). The zero frequency is forced to
/// zero after the corner is set to one, so a zero corner frequency gets weight zero.
pub open spec fn weight_source(index_frequency: int, zero_frequency_index: int, j: int) -> WeightSource {
    if zero_frequency_index != NO_ZERO_FREQUENCY as int && j == zero_frequency_index {
        WeightSource::Zero
    } else if j == index_frequency {
        WeightSource::Unit
    } else {
        WeightSource::Kernel
    }
}

/// The plan of the window centred on frequency `index_frequency`, for an axis of
/// `n_frequencies` frequencies whose first zero frequency is at
/// `zero_frequency_index` ([`NO_ZERO_FREQUENCY`] where there is none): for each
/// frequency of the axis, where its weight comes from.
pub fn window_plan(n_frequencies: usize, index_frequency: usize, zero_frequency_index: usize) -> (plan:
    Vec<WeightSource>)
    requires
        index_frequency < n_frequencies,
        zero_frequency_index == NO_ZERO_FREQUENCY || zero_frequency_index < n_frequencies,
    ensures
        plan@.len() == n_frequencies,
        forall|j: int|
            0 <= j < n_frequencies ==> #[trigger] plan@[j] == weight_source(
                index_frequency as int,
                zero_frequency_index as int,
                j,
            ),
{
    let mut plan: Vec<WeightSource> = Vec::with_capacity(n_frequencies);
    let mut j: usize = 0;
    while j < n_frequencies
        invariant
            j <= n_frequencies,
            plan@.len() == j,
            forall|k: int| 0 <= k < j ==> #[trigger] plan@[k] == WeightSource::Kernel,
        decreases n_frequencies - j,
    {
        plan.push(WeightSource::Kernel);
        j = j + 1;
    }
    plan.set(index_frequency, WeightSource::Unit);
    if zero_frequency_index != NO_ZERO_FREQUENCY {
        plan.set(zero_frequency_index, WeightSource::Zero);
    }
    plan
}

/// The zero frequency of the axis gets weight zero in every window, its own
/// window included: the zero wins over the unit weight of the corner.
pub proof fn zero_frequency_is_silenced(index_frequency: int, zero_frequency_index: int)
    requires
        zero_frequency_index != NO_ZERO_FREQUENCY as int,
    ensures
        weight_source(index_frequency, zero_frequency_index, zero_frequency_index)
            == WeightSource::Zero,
{
}

/// Every window gives the corner frequency weight one, unless the corner is
/// the zero frequency; every other frequency of the axis, but the zero
/// frequency, is weighted by the kernel.
pub proof fn corner_is_unit_elsewhere_kernel(index_frequency: int, zero_frequency_index: int, j: int)
    ensures
        index_frequency != zero_frequency_index ==> weight_source(
            index_frequency,
            zero_frequency_index,
            index_frequency,
        ) == WeightSource::Unit,
        j != index_frequency && j != zero_frequency_index ==> weight_source(
            index_frequency,
            zero_frequency_index,
            j,
        ) == WeightSource::Kernel,
{
}

} // verus!
