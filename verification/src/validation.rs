use vstd::prelude::*;

verus! {

/// What the input checks read of an n-dimensional array: its number of elements
/// (the product of its extents) and its number of axes.
#[derive(Clone, Copy, Debug, PartialEq, Eq, Structural)]
pub struct ArrayShape {
    pub len: usize,
    pub ndim: usize,
}

/// Why a pair of spectra, or a bandwidth, is refused.
#[derive(Clone, Copy, Debug, PartialEq, Eq, Structural)]
pub enum InputError {
    /// The frequencies and the amplitudes differ in their number of elements.
    LengthMismatch,
    /// The bandwidth is not greater than zero.
    NonPositiveBandwidth,
    /// The frequencies are not a one-dimensional array.
    FrequenciesNotOneDimensional,
    /// The amplitudes are not a one-dimensional array.
    AmplitudesNotOneDimensional,
}

impl InputError {
    /// The message that accompanies the error.
    pub fn message(&self) -> (text: &'static str)
        ensures
            *self == InputError::LengthMismatch ==> text@
                == "amplitudes and frequencies have to have equal length."@,
            *self == InputError::NonPositiveBandwidth ==> text@
                == "bandwidth has to be greater than 0."@,
            *self == InputError::FrequenciesNotOneDimensional ==> text@
                == "frequencies have to be one-dimensional."@,
            *self == InputError::AmplitudesNotOneDimensional ==> text@
                == "amplitudes have to be one-dimensional."@,
    {
        match self {
            InputError::LengthMismatch => "amplitudes and frequencies have to have equal length.",
            InputError::NonPositiveBandwidth => "bandwidth has to be greater than 0.",
            InputError::FrequenciesNotOneDimensional => "frequencies have to be one-dimensional.",
            InputError::AmplitudesNotOneDimensional => "amplitudes have to be one-dimensional.",
        }
    }
}

/// The verdict on a one-shot smoothing request: the lengths are compared first,
/// then the bandwidth, then the dimensionality of the frequencies and of the
/// amplitudes. On success, the number of frequencies.
pub open spec fn smooth_inputs_verdict(
    frequencies: ArrayShape,
    amplitudes: ArrayShape,
    bandwidth_positive: bool,
) -> Result<usize, InputError> {
    if frequencies.len != amplitudes.len {
        Err(InputError::LengthMismatch)
    } else if !bandwidth_positive {
        Err(InputError::NonPositiveBandwidth)
    } else if frequencies.ndim != 1 {
        Err(InputError::FrequenciesNotOneDimensional)
    } else if amplitudes.ndim != 1 {
        Err(InputError::AmplitudesNotOneDimensional)
    } else {
        Ok(frequencies.len)
    }
}

/// The verdict on building a cache of windows: the bandwidth is checked first,
/// then the dimensionality of the frequencies. On success, the number of frequencies.
pub open spec fn smoother_inputs_verdict(frequencies: ArrayShape, bandwidth_positive: bool) -> Result<
    usize,
    InputError,
> {
    if !bandwidth_positive {
        Err(InputError::NonPositiveBandwidth)
    } else if frequencies.ndim != 1 {
        Err(InputError::FrequenciesNotOneDimensional)
    } else {
        Ok(frequencies.len)
    }
}

/// The verdict on amplitudes handed to a cache built for `n_frequencies`
/// frequencies: the dimensionality is checked first, then the length.
pub open spec fn smoother_amplitudes_verdict(amplitudes: ArrayShape, n_frequencies: usize) -> Result<
    usize,
    InputError,
> {
    if amplitudes.ndim != 1 {
        Err(InputError::AmplitudesNotOneDimensional)
    } else if amplitudes.len != n_frequencies {
        Err(InputError::LengthMismatch)
    } else {
        Ok(amplitudes.len)
    }
}

/// Checks a one-shot smoothing request (frequencies, amplitudes, bandwidth).
///
/// `bandwidth_positive` tells whether the bandwidth is greater than zero.
pub fn check_smooth_inputs(
    frequencies: ArrayShape,
    amplitudes: ArrayShape,
    bandwidth_positive: bool,
) -> (verdict: Result<usize, InputError>)
    ensures
        verdict == smooth_inputs_verdict(frequencies, amplitudes, bandwidth_positive),
        frequencies.len != amplitudes.len ==> verdict == Err::<usize, InputError>(
            InputError::LengthMismatch,
        ),
        frequencies.len == amplitudes.len && !bandwidth_positive ==> verdict == Err::<
            usize,
            InputError,
        >(InputError::NonPositiveBandwidth),
        frequencies.len == amplitudes.len && bandwidth_positive && frequencies.ndim != 1
            ==> verdict == Err::<usize, InputError>(InputError::FrequenciesNotOneDimensional),
        frequencies.len == amplitudes.len && bandwidth_positive && frequencies.ndim == 1
            && amplitudes.ndim != 1 ==> verdict == Err::<usize, InputError>(
            InputError::AmplitudesNotOneDimensional,
        ),
        verdict is Ok <==> (frequencies.len == amplitudes.len && bandwidth_positive
            && frequencies.ndim == 1 && amplitudes.ndim == 1),
        verdict is Ok ==> verdict->Ok_0 == frequencies.len,
{
    if frequencies.len != amplitudes.len {
        Err(InputError::LengthMismatch)
    } else if !bandwidth_positive {
        Err(InputError::NonPositiveBandwidth)
    } else if frequencies.ndim != 1 {
        Err(InputError::FrequenciesNotOneDimensional)
    } else if amplitudes.ndim != 1 {
        Err(InputError::AmplitudesNotOneDimensional)
    } else {
        Ok(frequencies.len)
    }
}

/// Checks the frequency axis and bandwidth from which a cache of windows is built.
///
/// `bandwidth_positive` tells whether the bandwidth is greater than zero.
pub fn check_smoother_inputs(frequencies: ArrayShape, bandwidth_positive: bool) -> (verdict: Result<
    usize,
    InputError,
>)
    ensures
        verdict == smoother_inputs_verdict(frequencies, bandwidth_positive),
        !bandwidth_positive ==> verdict == Err::<usize, InputError>(
            InputError::NonPositiveBandwidth,
        ),
        bandwidth_positive && frequencies.ndim != 1 ==> verdict == Err::<usize, InputError>(
            InputError::FrequenciesNotOneDimensional,
        ),
        bandwidth_positive && frequencies.ndim == 1 ==> verdict == Ok::<usize, InputError>(
            frequencies.len,
        ),
{
    if !bandwidth_positive {
        Err(InputError::NonPositiveBandwidth)
    } else if frequencies.ndim != 1 {
        Err(InputError::FrequenciesNotOneDimensional)
    } else {
        Ok(frequencies.len)
    }
}

/// Checks amplitudes handed to a cache of windows built for `n_frequencies` frequencies.
pub fn check_smoother_amplitudes(amplitudes: ArrayShape, n_frequencies: usize) -> (verdict: Result<
    usize,
    InputError,
>)
    ensures
        verdict == smoother_amplitudes_verdict(amplitudes, n_frequencies),
        amplitudes.ndim != 1 ==> verdict == Err::<usize, InputError>(
            InputError::AmplitudesNotOneDimensional,
        ),
        amplitudes.ndim == 1 && amplitudes.len != n_frequencies ==> verdict == Err::<
            usize,
            InputError,
        >(InputError::LengthMismatch),
        amplitudes.ndim == 1 && amplitudes.len == n_frequencies ==> verdict == Ok::<
            usize,
            InputError,
        >(n_frequencies),
{
    if amplitudes.ndim != 1 {
        Err(InputError::AmplitudesNotOneDimensional)
    } else if amplitudes.len != n_frequencies {
        Err(InputError::LengthMismatch)
    } else {
        Ok(amplitudes.len)
    }
}

/// The one-shot path and the cached path accept exactly the same requests:
/// a request passes the one-shot checks if and only if its frequency axis and
/// bandwidth pass the checks of the cache and its amplitudes then pass the
/// checks of that cache, and both give the same number of frequencies.
/// Only which error is reported first may differ.
pub proof fn cached_and_one_shot_accept_alike(
    frequencies: ArrayShape,
    amplitudes: ArrayShape,
    bandwidth_positive: bool,
)
    ensures
        smooth_inputs_verdict(frequencies, amplitudes, bandwidth_positive) is Ok <==> ({
            &&& smoother_inputs_verdict(frequencies, bandwidth_positive) is Ok
            &&& smoother_amplitudes_verdict(
                amplitudes,
                smoother_inputs_verdict(frequencies, bandwidth_positive)->Ok_0,
            ) is Ok
        }),
        smooth_inputs_verdict(frequencies, amplitudes, bandwidth_positive) is Ok ==> {
            &&& smooth_inputs_verdict(frequencies, amplitudes, bandwidth_positive)->Ok_0
                == smoother_inputs_verdict(frequencies, bandwidth_positive)->Ok_0
            &&& smooth_inputs_verdict(frequencies, amplitudes, bandwidth_positive)->Ok_0
                == smoother_amplitudes_verdict(amplitudes, frequencies.len)->Ok_0
        },
{
}

/// A one-shot request is judged by the first check it fails, in the order:
/// equal numbers of elements, positive bandwidth, one-dimensional frequencies,
/// one-dimensional amplitudes. Arrays of different lengths are always refused
/// as a length mismatch, whatever the bandwidth and the dimensionalities; a
/// request that fails no check is accepted with its number of frequencies.
pub proof fn one_shot_reports_first_failing_check(
    frequencies: ArrayShape,
    amplitudes: ArrayShape,
    bandwidth_positive: bool,
)
    ensures
        frequencies.len != amplitudes.len ==> smooth_inputs_verdict(
            frequencies,
            amplitudes,
            bandwidth_positive,
        ) == Err::<usize, InputError>(InputError::LengthMismatch),
        frequencies.len == amplitudes.len && !bandwidth_positive ==> smooth_inputs_verdict(
            frequencies,
            amplitudes,
            bandwidth_positive,
        ) == Err::<usize, InputError>(InputError::NonPositiveBandwidth),
        frequencies.len == amplitudes.len && bandwidth_positive && frequencies.ndim != 1
            ==> smooth_inputs_verdict(frequencies, amplitudes, bandwidth_positive) == Err::<
            usize,
            InputError,
        >(InputError::FrequenciesNotOneDimensional),
        frequencies.len == amplitudes.len && bandwidth_positive && frequencies.ndim == 1
            && amplitudes.ndim != 1 ==> smooth_inputs_verdict(
            frequencies,
            amplitudes,
            bandwidth_positive,
        ) == Err::<usize, InputError>(InputError::AmplitudesNotOneDimensional),
        frequencies.len == amplitudes.len && bandwidth_positive && frequencies.ndim == 1
            && amplitudes.ndim == 1 ==> smooth_inputs_verdict(
            frequencies,
            amplitudes,
            bandwidth_positive,
        ) == Ok::<usize, InputError>(frequencies.len),
{
}

/// Building a cache refuses a non-positive bandwidth as such, whatever the
/// shape of the frequencies; with a positive bandwidth it refuses only a
/// frequency axis that is not one-dimensional, and otherwise accepts it with
/// its number of frequencies.
pub proof fn cache_refuses_bandwidth_first(frequencies: ArrayShape, bandwidth_positive: bool)
    ensures
        !bandwidth_positive ==> smoother_inputs_verdict(frequencies, bandwidth_positive)
            == Err::<usize, InputError>(InputError::NonPositiveBandwidth),
        bandwidth_positive && frequencies.ndim != 1 ==> smoother_inputs_verdict(
            frequencies,
            bandwidth_positive,
        ) == Err::<usize, InputError>(InputError::FrequenciesNotOneDimensional),
        bandwidth_positive && frequencies.ndim == 1 ==> smoother_inputs_verdict(
            frequencies,
            bandwidth_positive,
        ) == Ok::<usize, InputError>(frequencies.len),
{
}

/// Amplitudes handed to a cache are refused as not one-dimensional exactly
/// when they have another number of axes than one; one-dimensional amplitudes
/// of another length than the axis are refused as a length mismatch, and
/// one-dimensional amplitudes of the axis' length are accepted.
pub proof fn cache_amplitudes_refused_for_their_fault(amplitudes: ArrayShape, n_frequencies: usize)
    ensures
        smoother_amplitudes_verdict(amplitudes, n_frequencies) == Err::<usize, InputError>(
            InputError::AmplitudesNotOneDimensional,
        ) <==> amplitudes.ndim != 1,
        amplitudes.ndim == 1 && amplitudes.len != n_frequencies ==> smoother_amplitudes_verdict(
            amplitudes,
            n_frequencies,
        ) == Err::<usize, InputError>(InputError::LengthMismatch),
        amplitudes.ndim == 1 && amplitudes.len == n_frequencies ==> smoother_amplitudes_verdict(
            amplitudes,
            n_frequencies,
        ) == Ok::<usize, InputError>(n_frequencies),
{
}

} // verus!
