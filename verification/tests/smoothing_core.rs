use konnoohmachi::smoother::Smoother;
use konnoohmachi::validation::{
    check_smooth_inputs, check_smoother_amplitudes, check_smoother_inputs, ArrayShape, InputError,
};
use konnoohmachi::window::{window_plan, WeightSource};
use konnoohmachi::zero_frequency::{find_zero_frequency, NO_ZERO_FREQUENCY};

fn one_d(len: usize) -> ArrayShape {
    ArrayShape { len, ndim: 1 }
}

#[test]
fn first_zero_frequency_is_found() {
    assert_eq!(find_zero_frequency(&vec![false, true, false, true]), 1);
    assert_eq!(find_zero_frequency(&vec![true, false]), 0);
}

#[test]
fn axis_without_zero_gives_the_sentinel() {
    assert_eq!(find_zero_frequency(&vec![false, false, false]), NO_ZERO_FREQUENCY);
    assert_eq!(find_zero_frequency(&vec![]), NO_ZERO_FREQUENCY);
    assert_eq!(NO_ZERO_FREQUENCY, usize::MAX);
}

#[test]
fn zero_flags_of_a_linspace_starting_at_zero() {
    // The axis of the original tests: 128 points from 0 to 10.
    let flags: Vec<bool> = (0..128).map(|i| (i as f64) * 10.0 / 127.0 == 0.0).collect();
    assert_eq!(find_zero_frequency(&flags), 0);
    let flags: Vec<bool> = (0..128).map(|i| 1.0 + (i as f64) * 9.0 / 127.0 == 0.0).collect();
    assert_eq!(find_zero_frequency(&flags), NO_ZERO_FREQUENCY);
}

#[test]
fn corner_weight_is_one_without_zero_frequency() {
    assert_eq!(window_plan(4, 1, NO_ZERO_FREQUENCY), vec![WeightSource::Kernel, WeightSource::Unit, WeightSource::Kernel, WeightSource::Kernel]);
    assert_eq!(window_plan(1, 0, NO_ZERO_FREQUENCY), vec![WeightSource::Unit]);
}

#[test]
fn zero_frequency_is_silenced_in_every_window() {
    assert_eq!(window_plan(4, 2, 0), vec![WeightSource::Zero, WeightSource::Kernel, WeightSource::Unit, WeightSource::Kernel]);
    assert_eq!(window_plan(4, 3, 1), vec![WeightSource::Kernel, WeightSource::Zero, WeightSource::Kernel, WeightSource::Unit]);
}

#[test]
fn zero_corner_frequency_gets_weight_zero() {
    assert_eq!(window_plan(3, 0, 0), vec![WeightSource::Zero, WeightSource::Kernel, WeightSource::Kernel]);
}

#[test]
fn one_shot_request_is_accepted() {
    assert_eq!(check_smooth_inputs(one_d(10), one_d(10), true), Ok(10));
    assert_eq!(check_smooth_inputs(one_d(0), one_d(0), true), Ok(0));
}

#[test]
fn length_is_checked_before_anything_else() {
    let two_d = ArrayShape { len: 8, ndim: 2 };
    assert_eq!(
        check_smooth_inputs(two_d, one_d(9), false),
        Err(InputError::LengthMismatch)
    );
}

#[test]
fn bandwidth_is_checked_before_dimensions() {
    let two_d = ArrayShape { len: 8, ndim: 2 };
    assert_eq!(
        check_smooth_inputs(two_d, two_d, false),
        Err(InputError::NonPositiveBandwidth)
    );
}

#[test]
fn frequencies_are_checked_before_amplitudes() {
    let two_d = ArrayShape { len: 8, ndim: 2 };
    let zero_d = ArrayShape { len: 8, ndim: 0 };
    assert_eq!(
        check_smooth_inputs(two_d, zero_d, true),
        Err(InputError::FrequenciesNotOneDimensional)
    );
    assert_eq!(
        check_smooth_inputs(one_d(8), zero_d, true),
        Err(InputError::AmplitudesNotOneDimensional)
    );
}

#[test]
fn smoother_refuses_non_positive_bandwidth_first() {
    let two_d = ArrayShape { len: 8, ndim: 2 };
    assert_eq!(check_smoother_inputs(two_d, false), Err(InputError::NonPositiveBandwidth));
    assert_eq!(
        check_smoother_inputs(two_d, true),
        Err(InputError::FrequenciesNotOneDimensional)
    );
    assert_eq!(check_smoother_inputs(one_d(8), true), Ok(8));
}

#[test]
fn smoother_refuses_amplitudes_of_other_length() {
    // Eight frequencies, nine amplitudes.
    assert_eq!(check_smoother_amplitudes(one_d(9), 8), Err(InputError::LengthMismatch));
    let two_d = ArrayShape { len: 9, ndim: 2 };
    assert_eq!(
        check_smoother_amplitudes(two_d, 8),
        Err(InputError::AmplitudesNotOneDimensional)
    );
    assert_eq!(check_smoother_amplitudes(one_d(8), 8), Ok(8));
}

#[test]
fn cached_and_one_shot_checks_accept_alike() {
    let shapes = [one_d(3), one_d(4), ArrayShape { len: 3, ndim: 2 }];
    for &f in &shapes {
        for &a in &shapes {
            for &b in &[true, false] {
                let one_shot = check_smooth_inputs(f, a, b);
                let cached = check_smoother_inputs(f, b)
                    .and_then(|n| check_smoother_amplitudes(a, n));
                assert_eq!(one_shot.is_ok(), cached.is_ok());
                if let Ok(n) = one_shot {
                    assert_eq!(cached, Ok(n));
                }
            }
        }
    }
}

#[test]
fn error_messages() {
    assert_eq!(
        InputError::LengthMismatch.message(),
        "amplitudes and frequencies have to have equal length."
    );
    assert_eq!(InputError::NonPositiveBandwidth.message(), "bandwidth has to be greater than 0.");
    assert_eq!(
        InputError::FrequenciesNotOneDimensional.message(),
        "frequencies have to be one-dimensional."
    );
    assert_eq!(
        InputError::AmplitudesNotOneDimensional.message(),
        "amplitudes have to be one-dimensional."
    );
    assert!(InputError::LengthMismatch.message().contains("equal length"));
}

#[test]
fn smoother_keeps_windows_row_by_row() {
    let smoother = Smoother::from_windows(2, vec![0.75f64, 0.25, 0.5, 0.5]).unwrap();
    assert_eq!(smoother.len(), 2);
    assert!(!smoother.is_empty());
    assert_eq!(smoother.window(0), &[0.75, 0.25]);
    assert_eq!(smoother.window(1), &[0.5, 0.5]);
}

#[test]
fn smoother_refuses_storage_that_is_not_square() {
    assert!(Smoother::from_windows(2, vec![1.0f64, 0.0, 0.0]).is_none());
    assert!(Smoother::from_windows(1, vec![1.0f64, 0.0]).is_none());
    assert!(Smoother::from_windows(usize::MAX, Vec::<f64>::new()).is_none());
}

#[test]
fn empty_smoother() {
    let smoother = Smoother::from_windows(0, Vec::<f64>::new()).unwrap();
    assert!(smoother.is_empty());
    assert_eq!(smoother.len(), 0);
    assert_eq!(smoother.nbytes(), 0);
}

#[test]
fn nbytes_of_dense_hundred_by_hundred_cache() {
    let smoother = Smoother::from_windows(100, vec![0.01f64; 100 * 100]).unwrap();
    assert_eq!(smoother.len(), 100);
    assert_eq!(smoother.nbytes(), 100 * 100 * 8);
}

#[test]
fn nbytes_follows_the_weight_size() {
    let smoother = Smoother::from_windows(3, vec![0u8; 9]).unwrap();
    assert_eq!(smoother.nbytes(), 9);
    let smoother = Smoother::from_windows(3, vec![0u32; 9]).unwrap();
    assert_eq!(smoother.nbytes(), 36);
}
