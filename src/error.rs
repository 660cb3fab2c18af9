use vstd::prelude::*;
use crate::text::{decimal, push_decimal};

verus! {

/// Why an operation on a light-client session failed. Variants that come
/// from the client itself carry its own description of the cause.
#[derive(Clone, Debug, PartialEq, Eq)]
pub enum SessionError {
    /// The chain id names no supported network.
    UnsupportedChain(u64),
    /// The host could not supply a directory for the client's state.
    DataDirUnresolvable,
    /// The client refused its configuration.
    BuildFailed(String),
    /// The client's startup failed.
    StartFailed(String),
    /// No client has been started yet.
    NotStarted,
    /// The running client could not answer a read.
    QueryFailed(String),
    /// A block that was read could not be encoded.
    SerializationFailed(String),
}

/// The human-readable message of an error.
pub open spec fn message_of(e: SessionError) -> Seq<char> {
    match e {
        SessionError::UnsupportedChain(id) => "Unsupported chain ID: "@ + decimal(id as nat),
        SessionError::DataDirUnresolvable => "could not resolve the app data directory"@,
        SessionError::BuildFailed(cause) => "Failed to build client: "@ + cause@,
        SessionError::StartFailed(cause) => "Failed to start client: "@ + cause@,
        SessionError::NotStarted => "Client not started"@,
        SessionError::QueryFailed(cause) => "Failed to get block: "@ + cause@,
        SessionError::SerializationFailed(cause) => "Serialization error: "@ + cause@,
    }
}

fn prefixed(prefix: &str, cause: &String) -> (r: String)
    ensures
        r@ == prefix@ + cause@,
{
    let mut r = String::from_str(prefix);
    r.append(cause.as_str());
    r
}

impl SessionError {
    /// The message handed to callers for this error.
    pub fn message(&self) -> (r: String)
        ensures
            r@ == message_of(*self),
    {
        match self {
            SessionError::UnsupportedChain(id) => {
                let mut r = String::from_str("Unsupported chain ID: ");
                push_decimal(&mut r, *id);
                r
            },
            SessionError::DataDirUnresolvable => String::from_str(
                "could not resolve the app data directory",
            ),
            SessionError::BuildFailed(cause) => prefixed("Failed to build client: ", cause),
            SessionError::StartFailed(cause) => prefixed("Failed to start client: ", cause),
            SessionError::NotStarted => String::from_str("Client not started"),
            SessionError::QueryFailed(cause) => prefixed("Failed to get block: ", cause),
            SessionError::SerializationFailed(cause) => prefixed("Serialization error: ", cause),
        }
    }
}

} // verus!
