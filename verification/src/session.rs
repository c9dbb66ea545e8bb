//! The session negotiator's decision half: validating the payload the
//! upstream requirements endpoint returned, and shaping the failure message
//! when the fetch or its payload was bad. The single network round trip
//! itself stays with the caller, which hands the parsed fields in here.

use vstd::prelude::*;
use vstd::string::*;
use crate::errors::GatewayError;

verus! {

/// The fields probed out of the requirements response, each absent when the
/// payload did not carry it as a string.
pub struct RequirementsInput {
    pub token: Option<String>,
    pub seed: Option<String>,
    pub difficulty: Option<String>,
}

/// A complete set of negotiated session requirements.
pub struct Requirements {
    pub oai_device_id: String,
    pub token: String,
    pub seed: String,
    pub difficulty: String,
}

/// Validates the requirements payload: succeeds exactly when the token, the
/// challenge seed and the difficulty were all present; otherwise the call
/// fails terminally with a session error quoting the raw payload text.
pub fn parse_requirements(oai_device_id: String, raw: RequirementsInput, raw_text: &str) -> (r:
    Result<Requirements, GatewayError>)
    ensures
        r is Ok <==> (raw.token is Some && raw.seed is Some && raw.difficulty is Some),
        r matches Ok(q) ==> {
            &&& q.oai_device_id == oai_device_id
            &&& raw.token == Some(q.token)
            &&& raw.seed == Some(q.seed)
            &&& raw.difficulty == Some(q.difficulty)
        },
        r matches Err(e) ==> e matches GatewayError::UpstreamSession(m) && m@ == "Invalid data, "@
            + raw_text@,
{
    match (raw.token, raw.seed, raw.difficulty) {
        (Some(token), Some(seed), Some(difficulty)) => Ok(
            Requirements { oai_device_id, token, seed, difficulty },
        ),
        _ => {
            let mut msg = String::from_str("Invalid data, ");
            msg.append(raw_text);
            Err(GatewayError::UpstreamSession(msg))
        },
    }
}

/// The session-negotiation failure indicator every requirements failure is
/// prefixed with before it reaches the client.
pub fn session_failure(detail: &str) -> (e: GatewayError)
    ensures
        e matches GatewayError::UpstreamSession(m) && m@ == "Failed to meet chat requirements, "@
            + detail@,
{
    let mut msg = String::from_str("Failed to meet chat requirements, ");
    msg.append(detail);
    GatewayError::UpstreamSession(msg)
}

} // verus!
