//! Error taxonomy for asset fetching: transport, decode, and content
//! errors as one tagged union, with the retryable/fatal classification
//! that informs the caller's retry policy.

use vstd::prelude::*;

verus! {

/// A transport-level failure, reduced to the categories that the retry
/// policy distinguishes.
#[derive(Clone, Copy, Debug, PartialEq, Eq)]
pub enum TransportError {
    /// The server answered with an error status; the code is carried.
    Status(u16),
    /// Connecting, reading, or writing timed out.
    Timeout,
    /// The connection could not be established.
    ConnectionFailed,
    /// Some other socket-level failure, such as a reset mid-transfer.
    Io,
    /// The host name did not resolve.
    Dns,
    /// A response arrived but could not be understood.
    BadResponse,
    /// The request could not even be formed (bad URL, scheme, or proxy).
    BadRequest,
}

impl TransportError {
    /// A transient transport failure is worth retrying; a definite answer
    /// (an error status) or a configuration problem is not.
    pub open spec fn spec_is_retryable(&self) -> bool {
        match self {
            TransportError::Timeout => true,
            TransportError::ConnectionFailed => true,
            TransportError::Io => true,
            _ => false,
        }
    }

    /// Whether a fresh attempt at the same request could plausibly succeed.
    pub fn is_retryable(&self) -> (r: bool)
        ensures
            r == self.spec_is_retryable(),
    {
        match self {
            TransportError::Timeout => true,
            TransportError::ConnectionFailed => true,
            TransportError::Io => true,
            _ => false,
        }
    }
}

/// The codec rejected the fetched bytes; carries the codec's message.
#[derive(Clone, Debug)]
pub struct DecodeError {
    /// What the codec said when it gave up.
    pub message: String,
}

/// Bytes were decoded but the reported metadata failed the sanity bounds,
/// or a query was made before any decode succeeded.
#[derive(Clone, Copy, Debug, PartialEq, Eq)]
pub enum ContentError {
    /// Validation or statistics asked for before any decode succeeded.
    NotFetched,
    /// The reported metadata lies outside the sanity bounds; the reported
    /// values are carried for diagnosis.
    InvalidMetadata {
        /// Reported full-resolution width.
        width: u32,
        /// Reported full-resolution height.
        height: u32,
        /// Reported number of colour components.
        components: usize,
        /// First reported component bit depth outside bounds, if that
        /// check is what failed.
        bad_precision: Option<u32>,
    },
}

/// Everything that can go wrong while fetching and decoding one asset.
#[derive(Clone, Debug)]
pub enum AssetError {
    /// HTTP and network failures.
    Http(TransportError),
    /// The codec could not decode the fetched bytes.
    Jpeg(DecodeError),
    /// Decoded, but structurally unbelievable; or queried before a decode.
    Content(ContentError),
}

impl AssetError {
    /// Only transport failures are ever retryable: decode and content
    /// failures would reproduce on a repeat of the same request.
    pub open spec fn spec_is_retryable(&self) -> bool {
        match self {
            AssetError::Http(e) => e.spec_is_retryable(),
            AssetError::Jpeg(_) => false,
            AssetError::Content(_) => false,
        }
    }

    /// Is this error worth retrying? Re-fetching the same bytes cannot fix
    /// a decode or content failure; recovering from those needs a different
    /// (typically larger) byte range instead.
    pub fn is_retryable(&self) -> (r: bool)
        ensures
            r == self.spec_is_retryable(),
    {
        match self {
            AssetError::Http(e) => e.is_retryable(),
            AssetError::Jpeg(_) => false,
            AssetError::Content(_) => false,
        }
    }
}

} // verus!
