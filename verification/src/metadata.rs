//! The plain values the codec reports about a decoded asset, the sanity
//! bounds that guard against corrupt or hostile metadata, and the
//! statistics derived from what was reported.

use vstd::prelude::*;

verus! {

use vstd::arithmetic::power2::pow2;
use vstd::arithmetic::power2::lemma_pow2_strictly_increases;
use vstd::arithmetic::power2::lemma2_to64;
use crate::estimator::spec_level_between;
use crate::errors::ContentError;

/// Largest believable image dimension. A reported dimension above this
/// indicates a corrupt header or a hostile response, not a real image.
pub const LARGEST_IMAGE_DIMENSION: u32 = 8192;

/// What the codec reports about a decoded asset, held as plain values so
/// the validation and statistics logic can be checked.
#[derive(Clone, Debug)]
pub struct ImageMetadata {
    /// Reported full-resolution width.
    pub width: u32,
    /// Reported full-resolution height.
    pub height: u32,
    /// Width actually decoded, after whatever reduction the codec applied.
    pub decoded_width: u32,
    /// Height actually decoded.
    pub decoded_height: u32,
    /// Reported bit depth of each colour component.
    pub precisions: Vec<u32>,
}

/// Statistics about a decoded asset, derived from the reported metadata
/// and never invented.
#[derive(Clone, Copy, Debug, PartialEq, Eq)]
pub struct ImageStats {
    /// Sum of the component bit depths, rounded up to whole bytes.
    pub bytes_per_pixel: u8,
    /// Reported full-resolution dimensions.
    pub dimensions: (u32, u32),
    /// Reduction steps between the decoded resolution and the full one,
    /// read off the codec's decoded-resolution indicator.
    pub discard_levels: u32,
}

/// First reported component depth outside `[1, 16]`, if any.
pub open spec fn spec_first_bad_precision(ps: Seq<u32>) -> Option<u32>
    decreases ps.len(),
{
    if ps.len() == 0 {
        None
    } else if ps[0] < 1 || ps[0] > 16 {
        Some(ps[0])
    } else {
        spec_first_bad_precision(ps.drop_first())
    }
}

/// Sum of the reported bit depths. The sum saturates at the accumulator
/// ceiling, which real metadata never approaches.
pub open spec fn spec_bits_total(ps: Seq<u32>) -> int
    decreases ps.len(),
{
    if ps.len() == 0 {
        0
    } else {
        let rest = spec_bits_total(ps.drop_last());
        if rest + ps.last() > u64::MAX {
            u64::MAX as int
        } else {
            rest + ps.last()
        }
    }
}

/// Bytes per pixel: the summed bit depths rounded up to whole bytes,
/// saturated to the field's range (valid metadata stays far below it).
pub open spec fn spec_bytes_per_pixel(ps: Seq<u32>) -> u8 {
    let bytes = (spec_bits_total(ps) + 7) / 8;
    if bytes > 255 {
        255u8
    } else {
        bytes as u8
    }
}

impl ImageMetadata {
    /// The sanity bounds: dimensions and component count believable, every
    /// component depth in range.
    pub open spec fn valid(&self) -> bool {
        &&& 1 <= self.width <= LARGEST_IMAGE_DIMENSION
        &&& 1 <= self.height <= LARGEST_IMAGE_DIMENSION
        &&& 1 <= self.precisions@.len() <= 4
        &&& forall|i: int|
            0 <= i < self.precisions@.len() ==> 1 <= #[trigger] self.precisions@[i] <= 16
    }

    /// The content error describing this metadata, for when it fails the
    /// sanity bounds: it names every reported value.
    pub open spec fn spec_violation(&self) -> ContentError {
        ContentError::InvalidMetadata {
            width: self.width,
            height: self.height,
            components: self.precisions@.len() as usize,
            bad_precision: spec_first_bad_precision(self.precisions@),
        }
    }

    /// The statistics this metadata yields.
    pub open spec fn spec_stats(&self) -> ImageStats {
        ImageStats {
            bytes_per_pixel: spec_bytes_per_pixel(self.precisions@),
            dimensions: (self.width, self.height),
            discard_levels: spec_level_between(
                self.decoded_width as int,
                self.width as int,
            ) as u32,
        }
    }

    /// Check the reported metadata against the sanity bounds. Returns the
    /// offending values when any bound is violated.
    pub fn validate(&self) -> (r: Result<(), ContentError>)
        ensures
            self.valid() <==> r is Ok,
            !self.valid() ==> r == Result::<(), ContentError>::Err(self.spec_violation()),
    {
        let dims_ok = 1 <= self.width && self.width <= LARGEST_IMAGE_DIMENSION && 1 <= self.height
            && self.height <= LARGEST_IMAGE_DIMENSION;
        let count_ok = 1 <= self.precisions.len() && self.precisions.len() <= 4;
        let bad_precision = first_bad_precision(&self.precisions);
        if dims_ok && count_ok && bad_precision.is_none() {
            Ok(())
        } else {
            Err(ContentError::InvalidMetadata {
                width: self.width,
                height: self.height,
                components: self.precisions.len(),
                bad_precision,
            })
        }
    }

    /// Statistics about the asset: bytes per pixel from the summed
    /// component depths, the reported dimensions, and the reduction steps
    /// between decoded and full resolution.
    pub fn stats(&self) -> (r: ImageStats)
        ensures
            r == self.spec_stats(),
    {
        let bits = total_bits(&self.precisions);
        let bytes_per_pixel: u8 = if bits >= 2041 {
            255
        } else {
            ((bits + 7) / 8) as u8
        };
        let discard_levels = level_between(self.decoded_width, self.width);
        ImageStats { bytes_per_pixel, dimensions: (self.width, self.height), discard_levels }
    }
}

/// Find the first component depth outside `[1, 16]`.
fn first_bad_precision(ps: &Vec<u32>) -> (r: Option<u32>)
    ensures
        r == spec_first_bad_precision(ps@),
        r is None <==> (forall|i: int| 0 <= i < ps@.len() ==> 1 <= #[trigger] ps@[i] <= 16),
{
    let mut i: usize = 0;
    proof {
        assert(ps@.skip(0) =~= ps@);
    }
    while i < ps.len()
        invariant
            0 <= i <= ps@.len(),
            spec_first_bad_precision(ps@) == spec_first_bad_precision(ps@.skip(i as int)),
            forall|j: int| 0 <= j < i ==> 1 <= #[trigger] ps@[j] <= 16,
        decreases ps@.len() - i,
    {
        let p = ps[i];
        if p < 1 || p > 16 {
            proof {
                assert(ps@.skip(i as int)[0] == ps@[i as int]);
            }
            return Some(p);
        }
        proof {
            assert(ps@.skip(i as int).drop_first() =~= ps@.skip(i as int + 1));
        }
        i = i + 1;
    }
    proof {
        assert(ps@.skip(ps@.len() as int) =~= Seq::<u32>::empty());
    }
    None
}

/// Sum the reported bit depths, saturating instead of overflowing.
fn total_bits(ps: &Vec<u32>) -> (bits: u64)
    ensures
        bits == spec_bits_total(ps@),
{
    let mut bits: u64 = 0;
    let mut i: usize = 0;
    while i < ps.len()
        invariant
            0 <= i <= ps@.len(),
            bits == spec_bits_total(ps@.take(i as int)),
        decreases ps@.len() - i,
    {
        let p = ps[i];
        proof {
            assert(ps@.take(i as int + 1).drop_last() =~= ps@.take(i as int));
            assert(ps@.take(i as int + 1).last() == ps@[i as int]);
        }
        if bits > u64::MAX - p as u64 {
            bits = u64::MAX;
        } else {
            bits = bits + p as u64;
        }
        i = i + 1;
    }
    proof {
        assert(ps@.take(ps@.len() as int) =~= ps@);
    }
    bits
}

/// Count the doublings that take the decoded dimension up to the full
/// one: the reduction level the codec's decoded-resolution indicator
/// implies. Zero when nothing was decoded (`from == 0`) or nothing was
/// reduced.
fn level_between(from: u32, to: u32) -> (level: u32)
    ensures
        level == spec_level_between(from as int, to as int),
{
    if from == 0 {
        return 0;
    }
    let ghost target = to as int;
    let mut level: u32 = 0;
    let mut reach: u64 = from as u64;
    proof {
        lemma2_to64();
    }
    while reach < to as u64
        invariant
            1 <= reach,
            reach >= pow2(level as nat),
            level <= 32,
            level + spec_level_between(reach as int, target) == spec_level_between(
                from as int,
                target,
            ),
            target == to as int,
        decreases
                (if reach >= target {
                    0int
                } else {
                    target - reach
                }),
    {
        proof {
            if level >= 32 {
                if level > 32 {
                    lemma_pow2_strictly_increases(32, level as nat);
                }
                lemma2_to64();
                vstd::arithmetic::power2::lemma2_to64_rest();
                assert(false);
            }
            vstd::arithmetic::power2::lemma_pow2_unfold((level + 1) as nat);
        }
        reach = reach * 2;
        level = level + 1;
    }
    level
}

} // verus!
