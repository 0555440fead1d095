//! The controller for one asset: pick a byte budget, fetch, hand the
//! bytes to the codec, and validate what came back. Created empty per
//! request; on success it holds the decoded image's reported metadata.

use vstd::prelude::*;

verus! {

use crate::errors::AssetError;
use crate::errors::ContentError;
use crate::errors::DecodeError;
use crate::estimator::EstimatorConfig;
use crate::estimator::estimate_initial_read_size;
use crate::fetch::fetch_asset;
use crate::metadata::ImageMetadata;
use crate::metadata::ImageStats;

/// Decode a byte buffer best-effort and report the decoded image's
/// metadata as plain values.
///
/// Relies on jpeg2k::Image::from_bytes_with with default parameters, and
/// on the accessors orig_width, orig_height, width, height and
/// components (whose length is the codec's component count) with each
/// component's precision.
#[verifier::external_body]
fn decode_image_metadata(bytes: &Vec<u8>) -> (r: Result<ImageMetadata, DecodeError>) {
    let params = jpeg2k::DecodeParameters::new();
    match jpeg2k::Image::from_bytes_with(bytes.as_slice(), params) {
        Ok(img) => Ok(
            ImageMetadata {
                width: img.orig_width(),
                height: img.orig_height(),
                decoded_width: img.width(),
                decoded_height: img.height(),
                precisions: img.components().iter().map(|c| c.precision()).collect(),
            },
        ),
        Err(e) => Err(DecodeError { message: e.to_string() }),
    }
}

/// A JPEG 2000 asset being fetched: the first bytes of the remote file,
/// and the decoded image's reported metadata once a decode succeeded.
#[derive(Debug)]
pub struct FetchedImage {
    /// First bytes of the remote file, once fetched.
    pub beginning_bytes: Vec<u8>,
    /// Reported metadata of the decoded image; present exactly when a
    /// decode attempt succeeded.
    pub image_opt: Option<ImageMetadata>,
}

impl Default for FetchedImage {
    /// The empty state: nothing fetched, no decode attempted.
    fn default() -> (img: Self)
        ensures
            img.image_opt is None,
            img.beginning_bytes@ == Seq::<u8>::empty(),
    {
        FetchedImage { beginning_bytes: Vec::new(), image_opt: None }
    }
}

impl FetchedImage {
    /// The statistics this state yields: a pure function of the state.
    pub open spec fn spec_stats(&self) -> Option<ImageStats> {
        match self.image_opt {
            Some(m) => Some(m.spec_stats()),
            None => None,
        }
    }

    /// Fetch the asset at `url`, sized for a requested maximum output
    /// dimension, and decode and validate it.
    ///
    /// With a requested dimension, the initial estimator picks the byte
    /// budget (no true dimensions are known yet); without one the whole
    /// asset is read. Success means a decode succeeded and the reported
    /// metadata passed the sanity bounds. A transport error leaves the
    /// state untouched; a decode error keeps the fetched bytes for a
    /// caller that wants to retry with different parameters; a content
    /// error additionally keeps the suspect metadata.
    pub fn fetch(
        &mut self,
        agent: &ureq::Agent,
        url: &str,
        max_size_opt: Option<u32>,
    ) -> (r: Result<(), AssetError>)
        requires
            old(self).image_opt is None,
        ensures
            match r {
                Ok(()) => final(self).image_opt matches Some(m) && m.valid(),
                Err(e) => match e {
                    AssetError::Http(_) => *final(self) == *old(self),
                    AssetError::Jpeg(_) => final(self).image_opt is None,
                    AssetError::Content(ce) => final(self).image_opt matches Some(m) && !m.valid()
                        && ce == m.spec_violation(),
                },
            },
    {
        let bounds: Option<(u32, u32)> = match max_size_opt {
            Some(max_size) => {
                let cfg = EstimatorConfig::default();
                Some((0, estimate_initial_read_size(&cfg, max_size)))
            },
            None => None,
        };
        let fetched = match fetch_asset(agent, url, bounds) {
            Ok(bytes) => bytes,
            Err(e) => { return Err(AssetError::Http(e)) },
        };
        self.beginning_bytes = fetched;
        match decode_image_metadata(&self.beginning_bytes) {
            Ok(meta) => { self.image_opt = Some(meta) },
            Err(e) => { return Err(AssetError::Jpeg(e)) },
        }
        self.sanity_check()
    }

    /// Validate the decoded image's reported metadata before anyone
    /// trusts it. Asking before any decode succeeded is itself a content
    /// error; an out-of-bounds report yields a content error carrying
    /// every reported value, and keeps the fetched bytes and metadata so
    /// the caller can choose how to retry.
    pub fn sanity_check(&self) -> (r: Result<(), AssetError>)
        ensures
            match self.image_opt {
                Some(m) => {
                    &&& (m.valid() <==> r is Ok)
                    &&& (!m.valid() ==> r == Result::<(), AssetError>::Err(
                        AssetError::Content(m.spec_violation()),
                    ))
                },
                None => r == Result::<(), AssetError>::Err(
                    AssetError::Content(ContentError::NotFetched),
                ),
            },
    {
        match &self.image_opt {
            Some(meta) => match meta.validate() {
                Ok(()) => Ok(()),
                Err(ce) => Err(AssetError::Content(ce)),
            },
            None => Err(AssetError::Content(ContentError::NotFetched)),
        }
    }

    /// Statistics about the decoded image, or nothing before a
    /// successful decode.
    pub fn get_image_stats(&self) -> (r: Option<ImageStats>)
        ensures
            r == self.spec_stats(),
    {
        match &self.image_opt {
            Some(meta) => Some(meta.stats()),
            None => None,
        }
    }
}

/// Law: the statistics query is idempotent. Two reads from the same
/// instance see the same values, because the result is a pure function
/// of the state, which the query does not change.
pub proof fn lemma_stats_idempotent(
    img: FetchedImage,
    r1: Option<ImageStats>,
    r2: Option<ImageStats>,
)
    requires
        r1 == img.spec_stats(),
        r2 == img.spec_stats(),
    ensures
        r1 == r2,
{
}

} // verus!
