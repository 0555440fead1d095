//! Byte-budget estimation: given a requested maximum output dimension (and,
//! when known, the true image dimensions), decide how many bytes of the
//! remote file to request and which codec discard level that corresponds to.
//!
//! The estimates deliberately overestimate: an under-read forces a second
//! round trip, so the compression factor is conservative and results are
//! never rounded below a minimum floor under which the codestream framing
//! cannot be parsed.

use vstd::prelude::*;

verus! {

use vstd::arithmetic::power2::pow2;
use vstd::arithmetic::power2::lemma_pow2_strictly_increases;
use vstd::arithmetic::power2::lemma2_to64;
use vstd::arithmetic::power2::lemma2_to64_rest;
use vstd::arithmetic::mul::lemma_mul_inequality;
use vstd::arithmetic::mul::lemma_mul_nonnegative;
use vstd::arithmetic::mul::lemma_mul_upper_bound;
use vstd::arithmetic::div_mod::lemma_div_is_ordered;
use vstd::arithmetic::div_mod::lemma_div_is_ordered_by_denominator;

/// Sentinel byte budget meaning "no limit: read the whole asset".
pub const UNBOUNDED_READ: u32 = u32::MAX;

/// Tuning constants for the estimator. They live in one structure, passed
/// into each estimating function, so alternate tunings can be exercised
/// without touching the logic.
#[derive(Clone, Copy, Debug, PartialEq, Eq, Structural)]
pub struct EstimatorConfig {
    /// Bytes per pixel assumed when nothing is known about the asset.
    pub bytes_per_pixel: u32,
    /// Numerator of the assumed compression factor.
    pub compression_numer: u32,
    /// Denominator of the assumed compression factor. The factor is kept
    /// conservative (close to one) so that reads overestimate.
    pub compression_denom: u32,
    /// Never request fewer bytes than this: below it the codestream framing
    /// tends to be unparsable.
    pub minimum_read: u32,
    /// Requested dimensions above this ceiling just read the whole asset.
    pub largest_dimension: u32,
}

impl EstimatorConfig {
    /// The estimator divides by the compression denominator.
    pub open spec fn wf(&self) -> bool {
        self.compression_denom >= 1
    }
}

impl Default for EstimatorConfig {
    /// Assume RGBA at 8 bits per channel, compression that only saves a
    /// tenth, a one-packet floor, and a ceiling of 8192 pixels.
    fn default() -> (cfg: Self)
        ensures
            cfg == (EstimatorConfig {
                bytes_per_pixel: 4,
                compression_numer: 9,
                compression_denom: 10,
                minimum_read: 1024,
                largest_dimension: 8192,
            }),
            cfg.wf(),
    {
        EstimatorConfig {
            bytes_per_pixel: 4,
            compression_numer: 9,
            compression_denom: 10,
            minimum_read: 1024,
            largest_dimension: 8192,
        }
    }
}

/// Number of doublings needed to take `from` up to at least `to`
/// (zero when `from` is nonpositive or already reaches `to`).
pub open spec fn spec_level_between(from: int, to: int) -> nat
    decreases to - from,
{
    if from <= 0 || from >= to {
        0
    } else if 2 * from >= to {
        1
    } else {
        1 + spec_level_between(2 * from, to)
    }
}

/// The discard level for a reduction ratio: the smallest `i` with
/// `2^i >= ratio`, that is, the ceiling of its base-two logarithm.
pub open spec fn spec_discard_level(ratio: int) -> nat {
    spec_level_between(1, ratio)
}

/// `spec_level_between(from, to)` is exactly the smallest count of doublings
/// that takes `from` to at least `to`.
pub proof fn lemma_level_between_correct(from: int, to: int)
    requires
        1 <= from,
    ensures
        from * pow2(spec_level_between(from, to)) >= to,
        spec_level_between(from, to) > 0 ==> from * pow2(
            (spec_level_between(from, to) - 1) as nat,
        ) < to,
    decreases to - from,
{
    let l = spec_level_between(from, to);
    if from >= to {
        assert(pow2(0) == 1) by {
            lemma2_to64();
        }
        assert(from * pow2(0) == from);
    } else if 2 * from >= to {
        assert(pow2(0) == 1 && pow2(1) == 2) by {
            lemma2_to64();
        }
        assert(l == 1);
        assert(from * pow2(1) == 2 * from);
        assert(from * pow2(0) == from);
    } else {
        lemma_level_between_correct(2 * from, to);
        let l2 = spec_level_between(2 * from, to);
        assert(l2 >= 1);
        assert(l == 1 + l2);
        let p2 = pow2(l2) as int;
        assert(pow2(l) == 2 * p2) by {
            vstd::arithmetic::power2::lemma_pow2_unfold((l2 + 1) as nat);
        }
        assert(from * (2 * p2) == (2 * from) * p2) by (nonlinear_arith);
        assert((2 * from) * p2 >= to);
        assert(from * pow2(l) >= to);
        let p1 = pow2((l2 - 1) as nat) as int;
        assert(pow2(l2) == 2 * p1) by {
            vstd::arithmetic::power2::lemma_pow2_unfold(l2);
        }
        assert(from * (2 * p1) == (2 * from) * p1) by (nonlinear_arith);
        assert((2 * from) * p1 < to);
        assert((l - 1) as nat == l2);
        assert(from * pow2((l - 1) as nat) < to);
    }
}

/// Discard level for a known reduction ratio. Level 0 keeps full
/// resolution; each further level halves each decoded dimension.
///
/// The result is the ceiling of the base-two logarithm of the ratio: the
/// smallest level whose power of two reaches the ratio, so the decode is
/// never given less resolution than the caller asked for.
pub fn calc_discard_level(reduction_ratio: u32) -> (level: u32)
    requires
        reduction_ratio >= 1,
    ensures
        level == spec_discard_level(reduction_ratio as int),
        pow2(level as nat) >= reduction_ratio,
        level == 0 || pow2((level - 1) as nat) < reduction_ratio,
        level <= 32,
{
    let ghost target = reduction_ratio as int;
    let mut level: u32 = 0;
    let mut doubled: u64 = 1;
    proof {
        lemma2_to64();
    }
    while doubled < reduction_ratio as u64
        invariant
            1 <= doubled,
            doubled == pow2(level as nat),
            level <= 32,
            level + spec_level_between(doubled as int, target) == spec_level_between(1, target),
            target == reduction_ratio as int,
        decreases
                (if doubled >= target {
                    0int
                } else {
                    target - doubled
                }),
    {
        proof {
            if level >= 32 {
                if level > 32 {
                    lemma_pow2_strictly_increases(32, level as nat);
                }
                lemma2_to64();
                lemma2_to64_rest();
            }
            assert(level < 32);
            vstd::arithmetic::power2::lemma_pow2_unfold((level + 1) as nat);
        }
        doubled = doubled * 2;
        level = level + 1;
    }
    proof {
        lemma_level_between_correct(1, target);
        assert(1 * pow2(spec_discard_level(target)) == pow2(spec_discard_level(target)));
        if level > 0 {
            assert(1 * pow2((level - 1) as nat) == pow2((level - 1) as nat));
        }
    }
    level
}

/// Ratio of the larger known dimension to the requested maximum dimension,
/// rounded down.
pub open spec fn spec_reduction_ratio(image_size: (u32, u32), max_dim: u32) -> int {
    let larger: u32 = if image_size.0 >= image_size.1 {
        image_size.0
    } else {
        image_size.1
    };
    larger as int / max_dim as int
}

/// Cap a raw byte estimate to the unbounded sentinel and raise it to the
/// configured minimum floor.
pub open spec fn spec_clamped_bytes(raw: int, minimum_read: u32) -> int {
    let capped = if raw > u32::MAX as int {
        u32::MAX as int
    } else {
        raw
    };
    if capped < minimum_read as int {
        minimum_read as int
    } else {
        capped
    }
}

/// Byte budget when the true image dimensions are known: unbounded when no
/// meaningful reduction is possible, otherwise the output pixel count times
/// bytes per pixel, scaled by the compression factor and clamped.
pub open spec fn spec_read_budget(
    cfg: EstimatorConfig,
    image_size: (u32, u32),
    bytes_per_pixel: u32,
    max_dim: u32,
) -> int
    recommends
        max_dim > 0,
        cfg.wf(),
{
    let ratio = spec_reduction_ratio(image_size, max_dim);
    if ratio < 2 {
        UNBOUNDED_READ as int
    } else {
        let out_pixels = (image_size.0 as int * image_size.1 as int) / (ratio * ratio);
        spec_clamped_bytes(
            out_pixels * bytes_per_pixel as int * cfg.compression_numer as int
                / cfg.compression_denom as int,
            cfg.minimum_read,
        )
    }
}

/// Byte budget when nothing is known about the asset: worst case is an
/// image of exactly the requested size, so size the read for that.
pub open spec fn spec_initial_read_budget(cfg: EstimatorConfig, max_dim: u32) -> int
    recommends
        cfg.wf(),
{
    if max_dim > cfg.largest_dimension {
        UNBOUNDED_READ as int
    } else {
        spec_clamped_bytes(
            max_dim as int * max_dim as int * cfg.bytes_per_pixel as int
                * cfg.compression_numer as int / cfg.compression_denom as int,
            cfg.minimum_read,
        )
    }
}

/// Byte guess for reading a whole local file when only the requested
/// output size is known: room for the requested pixels at four bytes
/// each, plus a little framing, clamped to the address space.
pub open spec fn spec_file_read_budget(max_size: int) -> int {
    let raw = max_size * max_size * 4 + 200;
    if raw > usize::MAX as int {
        usize::MAX as int
    } else {
        raw
    }
}

/// How many bytes of a local file are worth reading for a requested
/// output size. Deliberately generous: cutting a progressive file short
/// only loses detail that the requested size cannot show anyway.
pub fn estimate_file_read_budget(max_size: usize) -> (bytes: usize)
    ensures
        bytes == spec_file_read_budget(max_size as int),
{
    proof {
        lemma_mul_upper_bound(
            max_size as int,
            u64::MAX as int,
            max_size as int,
            u64::MAX as int,
        );
    }
    let cap: u128 = usize::MAX as u128;
    let squared: u128 = (max_size as u128) * (max_size as u128);
    if squared >= cap {
        return usize::MAX;
    }
    let raw: u128 = squared * 4 + 200;
    if raw > cap {
        usize::MAX
    } else {
        raw as usize
    }
}

/// Law: for fixed known dimensions, a smaller requested maximum dimension
/// never yields a strictly larger byte budget. Asking for less resolution
/// never reads more.
pub proof fn lemma_read_budget_monotonic(
    cfg: EstimatorConfig,
    image_size: (u32, u32),
    bytes_per_pixel: u32,
    max_dim_small: u32,
    max_dim_large: u32,
)
    requires
        cfg.wf(),
        0 < max_dim_small <= max_dim_large,
    ensures
        spec_read_budget(cfg, image_size, bytes_per_pixel, max_dim_small) <= spec_read_budget(
            cfg,
            image_size,
            bytes_per_pixel,
            max_dim_large,
        ),
{
    let larger: u32 = if image_size.0 >= image_size.1 {
        image_size.0
    } else {
        image_size.1
    };
    let r1 = spec_reduction_ratio(image_size, max_dim_small);
    let r2 = spec_reduction_ratio(image_size, max_dim_large);
    lemma_div_is_ordered_by_denominator(larger as int, max_dim_small as int, max_dim_large as int);
    assert(r2 <= r1);
    if r2 < 2 {
        // The larger request reads the whole asset; no bounded budget can
        // exceed the sentinel.
    } else {
        let p = image_size.0 as int * image_size.1 as int;
        lemma_mul_nonnegative(image_size.0 as int, image_size.1 as int);
        lemma_mul_inequality(r2, r1, r2);
        lemma_mul_inequality(r2, r1, r1);
        lemma_mul_nonnegative(r2, r2);
        assert(1 <= r2 * r2) by (nonlinear_arith)
            requires
                r2 >= 2,
        ;
        lemma_div_is_ordered_by_denominator(p, r2 * r2, r1 * r1);
        let out1 = p / (r1 * r1);
        let out2 = p / (r2 * r2);
        assert(out1 <= out2);
        vstd::arithmetic::div_mod::lemma_div_pos_is_pos(p, r1 * r1);
        lemma_mul_inequality(out1, out2, bytes_per_pixel as int);
        lemma_mul_inequality(
            out1 * bytes_per_pixel as int,
            out2 * bytes_per_pixel as int,
            cfg.compression_numer as int,
        );
        lemma_div_is_ordered(
            out1 * bytes_per_pixel as int * cfg.compression_numer as int,
            out2 * bytes_per_pixel as int * cfg.compression_numer as int,
            cfg.compression_denom as int,
        );
    }
}

/// Estimate how many bytes to read, and which discard level to decode at,
/// for an asset whose true dimensions are known.
///
/// Returns `(max_bytes, discard_level)`. When the larger dimension is less
/// than twice the requested maximum, no reduction is worthwhile and the
/// whole asset is read at full resolution.
pub fn estimate_read_size(
    cfg: &EstimatorConfig,
    image_size: (u32, u32),
    bytes_per_pixel: u32,
    max_dim: u32,
) -> (r: (u32, u32))
    requires
        max_dim > 0,
        cfg.wf(),
    ensures
        r.0 == spec_read_budget(*cfg, image_size, bytes_per_pixel, max_dim),
        spec_reduction_ratio(image_size, max_dim) >= 2 ==> r.1 == spec_discard_level(
            spec_reduction_ratio(image_size, max_dim),
        ),
        spec_reduction_ratio(image_size, max_dim) < 2 ==> r == (UNBOUNDED_READ, 0u32),
{
    let larger: u32 = if image_size.0 >= image_size.1 {
        image_size.0
    } else {
        image_size.1
    };
    let reduction_ratio: u32 = larger / max_dim;
    if reduction_ratio < 2 {
        return (UNBOUNDED_READ, 0);
    }
    proof {
        lemma_mul_upper_bound(
            image_size.0 as int,
            u32::MAX as int,
            image_size.1 as int,
            u32::MAX as int,
        );
        lemma_mul_upper_bound(
            reduction_ratio as int,
            u32::MAX as int,
            reduction_ratio as int,
            u32::MAX as int,
        );
        lemma_mul_inequality(1, reduction_ratio as int, reduction_ratio as int);
    }
    let in_pixels: u64 = (image_size.0 as u64) * (image_size.1 as u64);
    let squared_ratio: u64 = (reduction_ratio as u64) * (reduction_ratio as u64);
    let out_pixels: u64 = in_pixels / squared_ratio;
    proof {
        lemma_mul_upper_bound(
            out_pixels as int,
            u64::MAX as int,
            bytes_per_pixel as int,
            u32::MAX as int,
        );
        lemma_mul_upper_bound(
            out_pixels as int * bytes_per_pixel as int,
            u64::MAX as int * u32::MAX as int,
            cfg.compression_numer as int,
            u32::MAX as int,
        );
    }
    let raw: u128 = (out_pixels as u128) * (bytes_per_pixel as u128)
        * (cfg.compression_numer as u128) / (cfg.compression_denom as u128);
    let capped: u32 = if raw > u32::MAX as u128 {
        u32::MAX
    } else {
        raw as u32
    };
    let max_bytes: u32 = if capped < cfg.minimum_read {
        cfg.minimum_read
    } else {
        capped
    };
    let discard_level = calc_discard_level(reduction_ratio);
    (max_bytes, discard_level)
}

/// Estimate how many bytes to read before anything is known about the
/// asset. Requests above the configured ceiling read the whole asset.
pub fn estimate_initial_read_size(cfg: &EstimatorConfig, max_dim: u32) -> (max_bytes: u32)
    requires
        cfg.wf(),
    ensures
        max_bytes == spec_initial_read_budget(*cfg, max_dim),
        max_dim > cfg.largest_dimension ==> max_bytes == UNBOUNDED_READ,
{
    if max_dim > cfg.largest_dimension {
        return UNBOUNDED_READ;
    }
    proof {
        lemma_mul_upper_bound(max_dim as int, u32::MAX as int, max_dim as int, u32::MAX as int);
        lemma_mul_upper_bound(
            max_dim as int * max_dim as int,
            u32::MAX as int * u32::MAX as int,
            cfg.bytes_per_pixel as int,
            u32::MAX as int,
        );
        lemma_mul_upper_bound(
            max_dim as int * max_dim as int * cfg.bytes_per_pixel as int,
            u32::MAX as int * u32::MAX as int * u32::MAX as int,
            cfg.compression_numer as int,
            u32::MAX as int,
        );
    }
    let raw: u128 = (max_dim as u128) * (max_dim as u128) * (cfg.bytes_per_pixel as u128)
        * (cfg.compression_numer as u128) / (cfg.compression_denom as u128);
    let capped: u32 = if raw > u32::MAX as u128 {
        u32::MAX
    } else {
        raw as u32
    };
    if capped < cfg.minimum_read {
        cfg.minimum_read
    } else {
        capped
    }
}

} // verus!
