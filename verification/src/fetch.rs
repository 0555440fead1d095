//! The transport boundary: one HTTP GET per asset fetch, optionally
//! restricted to a byte range, against a shared agent that pools
//! connections. Nothing can be promised about what the network returns;
//! everything downstream is checked for every possible outcome.

use std::io::Read;
use vstd::prelude::*;

verus! {

use crate::errors::TransportError;

#[verifier::external_type_specification]
#[verifier::external_body]
pub struct ExAgent(ureq::Agent);

#[verifier::external_type_specification]
#[verifier::external_body]
pub struct ExUreqError(ureq::Error);

/// Build the shared HTTP agent: bounded idle-connection pooling per host
/// and a uniform 15 second timeout for connect, read, and write. Built
/// once per process and shared by every fetch.
///
/// Relies on ureq::AgentBuilder to configure and build the agent.
#[verifier::external_body]
pub fn build_agent(user_agent: &str, max_connections: usize) -> ureq::Agent {
    let timeout = std::time::Duration::from_secs(15);
    ureq::AgentBuilder::new()
        .user_agent(user_agent)
        .max_idle_connections_per_host(max_connections)
        .timeout_connect(timeout)
        .timeout_read(timeout)
        .timeout_write(timeout)
        .build()
}

/// One HTTP GET. With a byte range, a Range header asks for exactly that
/// inclusive span; otherwise the whole body is read.
///
/// Relies on ureq::Agent::get, Request::set and Request::call to perform
/// the request, and on Response::into_reader to hand back the body.
#[verifier::external_body]
fn http_get(agent: &ureq::Agent, url: &str, byte_range_opt: Option<(u32, u32)>) -> (r: Result<
    Vec<u8>,
    ureq::Error,
>) {
    let query = if let Some(byte_range) = byte_range_opt {
        agent.get(url).set("Range", format!("bytes={}-{}", byte_range.0, byte_range.1).as_str())
    } else {
        agent.get(url)
    };
    let resp = query.call()?;
    let mut buffer = Vec::new();
    resp.into_reader().read_to_end(&mut buffer)?;
    Ok(buffer)
}

/// Reduce a transport failure to the category the retry policy needs.
///
/// Relies on ureq::Error: `Status` carries the HTTP code; `Transport`
/// carries a kind, and an I/O failure keeps its source, in which a
/// timeout appears as `TimedOut` (normalized from `WouldBlock`).
#[verifier::external_body]
fn classify_ureq_error(e: &ureq::Error) -> (t: TransportError) {
    let timed_out = std::error::Error::source(e)
        .and_then(|s| s.downcast_ref::<std::io::Error>())
        .map_or(false, |ioe| matches!(ioe.kind(), std::io::ErrorKind::TimedOut | std::io::ErrorKind::WouldBlock));
    match e {
        ureq::Error::Status(code, _) => TransportError::Status(*code),
        ureq::Error::Transport(tr) => match tr.kind() {
            ureq::ErrorKind::Dns => TransportError::Dns,
            ureq::ErrorKind::ConnectionFailed => TransportError::ConnectionFailed,
            ureq::ErrorKind::BadStatus | ureq::ErrorKind::BadHeader => TransportError::BadResponse,
            ureq::ErrorKind::Io => if timed_out { TransportError::Timeout } else { TransportError::Io },
            _ => TransportError::BadRequest,
        },
    }
}

/// Fetch an asset from the asset server: one network round trip, the raw
/// bytes or a transport error already reduced to the retryable/fatal
/// categories. What came back depends on the network alone, so nothing is
/// promised of it; every consumer of the bytes is checked for every value.
pub fn fetch_asset(agent: &ureq::Agent, url: &str, byte_range_opt: Option<(u32, u32)>) -> Result<
    Vec<u8>,
    TransportError,
> {
    match http_get(agent, url, byte_range_opt) {
        Ok(bytes) => Ok(bytes),
        Err(e) => Err(classify_ureq_error(&e)),
    }
}

} // verus!
