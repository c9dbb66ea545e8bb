//! The gateway's error taxonomy and the structured error envelope that is
//! delivered to the client whenever a call fails before its response commits.
//!
//! Routing and authorization failures are handled by the boundary layer and
//! have no variant here.

use vstd::prelude::*;
use vstd::string::*;
use crate::text::{append_json_escaped, json_escaped};

verus! {

/// A failure of one chat-completion call, observed before the commit point.
#[derive(Debug)]
pub enum GatewayError {
    /// The inbound request body or its messages were malformed; nothing was
    /// sent upstream on its account.
    Validation(String),
    /// The session-requirements fetch failed or returned an incomplete payload.
    UpstreamSession(String),
    /// The upstream stream failed before the first relay event.
    UpstreamTransport(String),
}

impl GatewayError {
    /// The human-readable message carried by the error.
    pub open spec fn spec_message(&self) -> Seq<char> {
        match self {
            GatewayError::Validation(m) => m@,
            GatewayError::UpstreamSession(m) => m@,
            GatewayError::UpstreamTransport(m) => m@,
        }
    }

    pub fn message(&self) -> (r: String)
        ensures
            r@ == self.spec_message(),
    {
        match self {
            GatewayError::Validation(m) => m.clone(),
            GatewayError::UpstreamSession(m) => m.clone(),
            GatewayError::UpstreamTransport(m) => m.clone(),
        }
    }

    /// The JSON error envelope for this error.
    pub fn error_body(&self) -> (r: String)
        ensures
            r@ == envelope_json_of(self.spec_message()),
    {
        let msg = self.message();
        error_envelope(msg.as_str())
    }
}

/// The exact text of the error envelope: a `status:false` document whose
/// `error.message` holds `msg` and whose type is always
/// `invalid_request_error`.
pub open spec fn envelope_json_of(msg: Seq<char>) -> Seq<char> {
    "{\"status\":false,\"error\":{\"message\":\""@ + json_escaped(msg)
        + "\",\"type\":\"invalid_request_error\"}}"@
}

/// Renders the error envelope around an arbitrary message.
pub fn error_envelope(msg: &str) -> (r: String)
    ensures
        r@ == envelope_json_of(msg@),
{
    let mut out = String::from_str("{\"status\":false,\"error\":{\"message\":\"");
    append_json_escaped(&mut out, msg);
    out.append("\",\"type\":\"invalid_request_error\"}}");
    proof {
        assert(out@ =~= envelope_json_of(msg@));
    }
    out
}

} // verus!
