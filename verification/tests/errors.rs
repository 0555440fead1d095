//! Retryable/fatal classification of errors.

use jpeg2000_decoder::errors::{AssetError, ContentError, DecodeError, TransportError};

#[test]
fn timeout_is_retryable_status_is_fatal() {
    // A connection timeout is transient: worth retrying.
    assert!(AssetError::Http(TransportError::Timeout).is_retryable());
    // A definite server answer such as 404 Not Found is not.
    assert!(!AssetError::Http(TransportError::Status(404)).is_retryable());
}

#[test]
fn transport_categories_classify() {
    assert!(TransportError::Timeout.is_retryable());
    assert!(TransportError::ConnectionFailed.is_retryable());
    assert!(TransportError::Io.is_retryable());
    assert!(!TransportError::Status(500).is_retryable());
    assert!(!TransportError::Dns.is_retryable());
    assert!(!TransportError::BadResponse.is_retryable());
    assert!(!TransportError::BadRequest.is_retryable());
}

#[test]
fn decode_and_content_errors_are_never_retryable() {
    // Re-fetching the same bytes would reproduce these failures.
    let decode = AssetError::Jpeg(DecodeError { message: String::from("truncated codestream") });
    assert!(!decode.is_retryable());
    let content = AssetError::Content(ContentError::NotFetched);
    assert!(!content.is_retryable());
    let invalid = AssetError::Content(ContentError::InvalidMetadata {
        width: 0,
        height: 64,
        components: 5,
        bad_precision: None,
    });
    assert!(!invalid.is_retryable());
}
