//! Client-side logic for fetching a large, progressively encoded image asset
//! while transferring as few bytes as possible.
//!
//! The crate decides how much of a remote file to request for a desired
//! output resolution (`estimator`), classifies transport failures as
//! retryable or fatal (`errors`), validates what the codec reports about a
//! decoded asset (`metadata`), and drives the fetch/decode/validate
//! lifecycle for one asset (`decode`). The HTTP transport and the codec
//! itself are outside collaborators, reached through narrow wrappers
//! (`fetch`, `decode`).

pub mod decode;
pub mod errors;
pub mod estimator;
pub mod fetch;
pub mod metadata;
