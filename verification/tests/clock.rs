//! The grain clock: index arithmetic, live-window classification, and
//! the runtime artefact names.

use mxl::clock::{classify_grain_index, compute_index_at, current_index, GrainRate};
use mxl::config::{get_mxl_fabrics_ofi_so_path, get_mxl_repo_root, get_mxl_so_path};
use mxl::Error;

fn rate_25() -> GrainRate {
    GrainRate {
        numerator: 25,
        denominator: 1,
    }
}

#[test]
fn index_advances_at_the_grain_rate() {
    // 25 grains per second: two seconds in, the producer writes grain
    // 50.
    assert_eq!(compute_index_at(0, &rate_25()), 0);
    assert_eq!(compute_index_at(2_000_000_000, &rate_25()), 50);
    // Partial grains truncate.
    assert_eq!(compute_index_at(1_999_999_999, &rate_25()), 49);
    // A rational rate: 30000/1001 (29.97 Hz) after ten seconds.
    let ntsc = GrainRate {
        numerator: 30_000,
        denominator: 1_001,
    };
    assert_eq!(compute_index_at(10_000_000_000, &ntsc), 299);
}

#[test]
fn index_saturates_rather_than_overflowing() {
    let fast = GrainRate {
        numerator: u64::MAX,
        denominator: 1,
    };
    assert_eq!(compute_index_at(u64::MAX, &fast), u64::MAX);
}

/// With a rate of 25 grains per second and a buffer depth of 8
/// grains, an index more than 8 behind the live index is gone for
/// good, and an index ahead of it has not been produced yet.
#[test]
fn window_classification_against_depth() {
    let depth = 8;
    let current = compute_index_at(2_000_000_000, &rate_25());
    assert_eq!(current, 50);

    assert_eq!(
        classify_grain_index(current - depth - 1, current, depth),
        Err(Error::OutOfRangeTooLate)
    );
    assert_eq!(
        classify_grain_index(current + 1, current, depth),
        Err(Error::OutOfRangeTooEarly)
    );
    assert_eq!(classify_grain_index(current, current, depth), Ok(()));
    assert_eq!(
        classify_grain_index(current - depth, current, depth),
        Ok(())
    );
}

#[test]
fn window_classification_edge_cases() {
    // The very first grain, shallow buffer.
    assert_eq!(classify_grain_index(0, 0, 0), Ok(()));
    assert_eq!(classify_grain_index(1, 0, 0), Err(Error::OutOfRangeTooEarly));
    assert_eq!(classify_grain_index(0, 1, 0), Err(Error::OutOfRangeTooLate));
    // The largest indices.
    assert_eq!(classify_grain_index(u64::MAX, u64::MAX, 0), Ok(()));
    assert_eq!(
        classify_grain_index(0, u64::MAX, u64::MAX - 1),
        Err(Error::OutOfRangeTooLate)
    );
    assert_eq!(classify_grain_index(0, u64::MAX, u64::MAX), Ok(()));
}

#[test]
fn live_index_comes_from_the_wall_clock() {
    // One grain per second since the Unix epoch: far past one grain by
    // now, far short of saturation.
    let rate = GrainRate {
        numerator: 1,
        denominator: 1,
    };
    let index = current_index(&rate);
    assert!(index > 1_000_000_000);
    assert!(index < u64::MAX);
}

#[test]
fn runtime_artefact_names() {
    assert_eq!(get_mxl_so_path(), "libmxl.so");
    assert_eq!(get_mxl_fabrics_ofi_so_path(), "libmxl-fabrics.so");
    assert_eq!(get_mxl_repo_root(), ".");
}
