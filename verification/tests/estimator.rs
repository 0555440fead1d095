//! Sanity checks on the estimator math.

use jpeg2000_decoder::estimator::{
    calc_discard_level, estimate_file_read_budget, estimate_initial_read_size, estimate_read_size,
    EstimatorConfig,
};

/// The tuning the controller uses by default.
fn default_config() -> EstimatorConfig {
    EstimatorConfig::default()
}

/// An alternate tuning with a one-page floor and a wide ceiling.
fn wide_config() -> EstimatorConfig {
    EstimatorConfig {
        bytes_per_pixel: 4,
        compression_numer: 9,
        compression_denom: 10,
        minimum_read: 4096,
        largest_dimension: u32::MAX / 2,
    }
}

#[test]
fn test_calc_discard_level() {
    assert_eq!(calc_discard_level(1), 0);
    assert_eq!(calc_discard_level(2), 1);
    assert_eq!(calc_discard_level(3), 2);
    assert_eq!(calc_discard_level(4), 2);
    assert_eq!(calc_discard_level(5), 3);
    assert_eq!(calc_discard_level(8), 3);
    assert_eq!(calc_discard_level(16), 4);
    assert_eq!(calc_discard_level(17), 5);
    assert_eq!(calc_discard_level(63), 6);
    assert_eq!(calc_discard_level(64), 6);
    assert_eq!(calc_discard_level(65), 7);
}

#[test]
fn decode_test_calc_discard_level() {
    assert_eq!(calc_discard_level(1), 0);
    assert_eq!(calc_discard_level(2), 1);
    assert_eq!(calc_discard_level(3), 2);
    assert_eq!(calc_discard_level(4), 2);
    assert_eq!(calc_discard_level(5), 3);
    assert_eq!(calc_discard_level(8), 3);
    assert_eq!(calc_discard_level(16), 4);
    assert_eq!(calc_discard_level(17), 5);
    assert_eq!(calc_discard_level(63), 6);
    assert_eq!(calc_discard_level(64), 6);
    assert_eq!(calc_discard_level(65), 7);
}

#[test]
fn test_estimate_read_size() {
    let cfg = default_config();
    //  Don't know size of the image yet.
    assert_eq!(estimate_initial_read_size(&cfg, 1), cfg.minimum_read);
    assert_eq!(estimate_initial_read_size(&cfg, 64), 14745);
    assert_eq!(estimate_initial_read_size(&cfg, 32), cfg.minimum_read.max(3686));
    //  Know size of the image.
    assert_eq!(estimate_read_size(&cfg, (64, 64), 4, 64), (u32::MAX, 0));
    // 2:1 reduction
    assert_eq!(estimate_read_size(&cfg, (64, 64), 4, 32), (cfg.minimum_read.max(3686), 1));
    // 16:1 reduction, discard level 4
    assert_eq!(estimate_read_size(&cfg, (512, 512), 4, 32), (cfg.minimum_read.max(3686), 4));
    // 8:1 reduction, discard level 3
    assert_eq!(estimate_read_size(&cfg, (512, 512), 4, 64), (14745, 3));
    // 8:1 reduction, discard level 3
    assert_eq!(estimate_read_size(&cfg, (512, 256), 4, 64), (7372, 3));
    // no reduction, full size
    assert_eq!(estimate_read_size(&cfg, (512, 256), 4, 512), (u32::MAX, 0));
}

#[test]
fn decode_test_estimate_read_size() {
    let cfg = wide_config();
    //  Don't know size of the image yet.
    assert_eq!(estimate_initial_read_size(&cfg, 1), 4096);
    assert_eq!(estimate_initial_read_size(&cfg, 64), 14745);
    assert_eq!(estimate_initial_read_size(&cfg, 32), 4096);
    //  Know size of the image.
    assert_eq!(estimate_read_size(&cfg, (64, 64), 4, 64), (u32::MAX, 0));
    // 2:1 reduction
    assert_eq!(estimate_read_size(&cfg, (64, 64), 4, 32), (4096, 1));
    // 16:1 reduction, discard level 4
    assert_eq!(estimate_read_size(&cfg, (512, 512), 4, 32), (4096, 4));
    // 8:1 reduction, discard level 3
    assert_eq!(estimate_read_size(&cfg, (512, 512), 4, 64), (14745, 3));
    // 8:1 reduction, discard level 3
    assert_eq!(estimate_read_size(&cfg, (512, 256), 4, 64), (7372, 3));
    // no reduction, full size
    assert_eq!(estimate_read_size(&cfg, (512, 256), 4, 512), (u32::MAX, 0));
}

#[test]
fn initial_estimate_is_unbounded_above_ceiling() {
    let cfg = default_config();
    assert_eq!(cfg.largest_dimension, 8192);
    assert_eq!(estimate_initial_read_size(&cfg, 8193), u32::MAX);
    assert_eq!(estimate_initial_read_size(&cfg, u32::MAX), u32::MAX);
    // At the ceiling itself the estimate is still bounded arithmetic.
    assert_eq!(estimate_initial_read_size(&cfg, 8192), 241591910);
}

#[test]
fn small_reduction_reads_everything() {
    let cfg = default_config();
    // Ratio below two: unbounded read at full resolution, whatever the
    // other arguments say.
    assert_eq!(estimate_read_size(&cfg, (64, 64), 4, 64), (u32::MAX, 0));
    assert_eq!(estimate_read_size(&cfg, (100, 50), 255, 51), (u32::MAX, 0));
    assert_eq!(estimate_read_size(&cfg, (1, 1), 4, 1), (u32::MAX, 0));
}

#[test]
fn budget_shrinks_with_requested_dimension() {
    let cfg = wide_config();
    let dims = (512u32, 512u32);
    // Walking the requested dimension down never increases the budget.
    let b512: u32 = estimate_read_size(&cfg, dims, 4, 512).0;
    let b256: u32 = estimate_read_size(&cfg, dims, 4, 256).0;
    let b128: u32 = estimate_read_size(&cfg, dims, 4, 128).0;
    let b64: u32 = estimate_read_size(&cfg, dims, 4, 64).0;
    let b32: u32 = estimate_read_size(&cfg, dims, 4, 32).0;
    let b1: u32 = estimate_read_size(&cfg, dims, 4, 1).0;
    assert!(b256 <= b512);
    assert!(b128 <= b256);
    assert!(b64 <= b128);
    assert!(b32 <= b64);
    assert!(b1 <= b32);
}

#[test]
fn default_tuning_is_the_documented_one() {
    let cfg = EstimatorConfig::default();
    assert_eq!(cfg.bytes_per_pixel, 4);
    assert_eq!(cfg.compression_numer, 9);
    assert_eq!(cfg.compression_denom, 10);
    assert_eq!(cfg.minimum_read, 1024);
    assert_eq!(cfg.largest_dimension, 8192);
}

#[test]
fn file_read_budget_is_generous_and_clamped() {
    // 4 bytes per requested pixel plus framing room.
    assert_eq!(estimate_file_read_budget(0), 200);
    assert_eq!(estimate_file_read_budget(64), 64 * 64 * 4 + 200);
    assert_eq!(estimate_file_read_budget(1000), 4000200);
    // Absurd requests clamp instead of overflowing.
    assert_eq!(estimate_file_read_budget(usize::MAX), usize::MAX);
}

#[test]
fn end_to_end_estimate_for_known_source() {
    // A known 512x512 source shrunk to 64 pixels: discard level 3 and a
    // 14745-byte budget under the documented constants.
    let cfg = wide_config();
    let (max_bytes, discard_level) = estimate_read_size(&cfg, (512, 512), 4, 64);
    assert_eq!(discard_level, 3);
    assert_eq!(max_bytes, 14745);
}
