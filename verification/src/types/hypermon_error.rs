//! What can go wrong in a poll cycle, and how it is reported.

use vstd::prelude::*;

verus! {

/// An error of the monitor. Where a variant carries a text, the text says
/// what went wrong in detail.
#[derive(Debug)]
pub enum HypermonError {
    /// The validator source could not be reached or did not answer with success.
    ResponseError(String),
    /// The body of the validator source's answer is not a list of validators.
    DeserializationError(String),
    InternalServerError,
    /// A gauge could not be registered.
    RegisterError(String),
    /// The registry could not be written in the exposition format.
    EncodeError(String),
    IOError(String),
    RpcClientError(String),
    ValidatorJailedOrNotFound(String),
    UnableToUnwrapSyncInfo,
}

#[verifier::external_type_specification]
#[verifier::external_body]
pub struct ExRpcError(web3::Error);

/// A failure of the RPC endpoint: its kind, and for most kinds a text that
/// shows the cause.
#[derive(Debug)]
pub enum RpcFailure {
    Unreachable,
    Decoder(String),
    InvalidResponse(String),
    Transport(String),
    Rpc(String),
    Io(String),
    Recovery(String),
    Internal,
}

/// Tells the variants of `web3::Error` apart. A variant that carries a
/// cause hands it on as its `Debug` text.
#[verifier::external_body]
fn rpc_failure(error: web3::Error) -> RpcFailure {
    match error {
        web3::Error::Unreachable => RpcFailure::Unreachable,
        web3::Error::Decoder(s) => RpcFailure::Decoder(format!("{s:?}")),
        web3::Error::InvalidResponse(s) => RpcFailure::InvalidResponse(format!("{s:?}")),
        web3::Error::Transport(s) => RpcFailure::Transport(format!("{s:?}")),
        web3::Error::Rpc(s) => RpcFailure::Rpc(format!("{s:?}")),
        web3::Error::Io(s) => RpcFailure::Io(format!("{s:?}")),
        web3::Error::Recovery(s) => RpcFailure::Recovery(format!("{s:?}")),
        web3::Error::Internal => RpcFailure::Internal,
    }
}

/// What the error of an RPC failure says in detail.
pub open spec fn rpc_failure_detail(failure: RpcFailure) -> Seq<char> {
    match failure {
        RpcFailure::Unreachable => "RPC is unreachable!"@,
        RpcFailure::Decoder(cause) => "Decoding error: "@ + cause@,
        RpcFailure::InvalidResponse(cause) => "Invalid response from RPC: "@ + cause@,
        RpcFailure::Transport(cause) => "RPC Transport Error: "@ + cause@,
        RpcFailure::Rpc(cause) => "RPC Error: "@ + cause@,
        RpcFailure::Io(cause) => "RPC IO Error: "@ + cause@,
        RpcFailure::Recovery(cause) => "RPC Recovery Error: "@ + cause@,
        RpcFailure::Internal => "Internal RPC Error"@,
    }
}

/// The HTTP status of a failed request that nothing more specific describes.
pub const INTERNAL_SERVER_ERROR: u16 = 500;

/// The HTTP status of a request for something that does not exist.
pub const NOT_FOUND: u16 = 404;

/// The HTTP status with which an error is answered.
pub open spec fn status_of(error: HypermonError) -> u16 {
    match error {
        HypermonError::ValidatorJailedOrNotFound(_) => NOT_FOUND,
        _ => INTERNAL_SERVER_ERROR,
    }
}

/// The message of an error.
pub open spec fn message_of(error: HypermonError) -> Seq<char> {
    match error {
        HypermonError::ResponseError(detail) => "Error while getting response: "@ + detail@,
        HypermonError::DeserializationError(detail) => "Deserialization Error: "@ + detail@,
        HypermonError::InternalServerError => "Something went wrong internall"@,
        HypermonError::RegisterError(_) => "Register error"@,
        HypermonError::EncodeError(_) => "Error while encoding metric families"@,
        HypermonError::IOError(detail) => "IO Error: "@ + detail@,
        HypermonError::RpcClientError(detail) => "RPC Client Error: "@ + detail@,
        HypermonError::ValidatorJailedOrNotFound(detail) => "Validator is jailed or not found: "@
            + detail@,
        HypermonError::UnableToUnwrapSyncInfo => "Couldn't unwrap SyncInfo"@,
    }
}

fn with_detail(prefix: &str, detail: &String) -> (text: String)
    ensures
        text@ == prefix@ + detail@,
{
    let mut text = String::from_str(prefix);
    text.append(detail.as_str());
    text
}

impl HypermonError {
    /// The HTTP status with which this error is answered: not found for a
    /// validator that is jailed or missing, a server error for all others.
    pub fn status_code(&self) -> (status: u16)
        ensures
            status == status_of(*self),
    {
        match self {
            HypermonError::ValidatorJailedOrNotFound(_) => NOT_FOUND,
            _ => INTERNAL_SERVER_ERROR,
        }
    }

    /// The error of an RPC failure: an `RpcClientError` that says which
    /// kind of failure it was and shows the cause.
    pub fn from_rpc_failure(failure: RpcFailure) -> (error: HypermonError)
        ensures
            error matches HypermonError::RpcClientError(detail) && detail@ == rpc_failure_detail(
                failure,
            ),
    {
        let detail = match &failure {
            RpcFailure::Unreachable => String::from_str("RPC is unreachable!"),
            RpcFailure::Decoder(cause) => with_detail("Decoding error: ", cause),
            RpcFailure::InvalidResponse(cause) => with_detail("Invalid response from RPC: ", cause),
            RpcFailure::Transport(cause) => with_detail("RPC Transport Error: ", cause),
            RpcFailure::Rpc(cause) => with_detail("RPC Error: ", cause),
            RpcFailure::Io(cause) => with_detail("RPC IO Error: ", cause),
            RpcFailure::Recovery(cause) => with_detail("RPC Recovery Error: ", cause),
            RpcFailure::Internal => String::from_str("Internal RPC Error"),
        };
        HypermonError::RpcClientError(detail)
    }

    /// The error of a failure that the RPC client reports: an
    /// `RpcClientError`, as `from_rpc_failure` makes it of the failure's
    /// kind and cause.
    pub fn from_rpc_error(error: web3::Error) -> (mapped: HypermonError)
        ensures
            mapped is RpcClientError,
    {
        HypermonError::from_rpc_failure(rpc_failure(error))
    }

    /// The message of this error.
    pub fn message(&self) -> (text: String)
        ensures
            text@ == message_of(*self),
    {
        match self {
            HypermonError::ResponseError(detail) => with_detail(
                "Error while getting response: ",
                detail,
            ),
            HypermonError::DeserializationError(detail) => with_detail(
                "Deserialization Error: ",
                detail,
            ),
            HypermonError::InternalServerError => String::from_str(
                "Something went wrong internall",
            ),
            HypermonError::RegisterError(_) => String::from_str("Register error"),
            HypermonError::EncodeError(_) => String::from_str(
                "Error while encoding metric families",
            ),
            HypermonError::IOError(detail) => with_detail("IO Error: ", detail),
            HypermonError::RpcClientError(detail) => with_detail("RPC Client Error: ", detail),
            HypermonError::ValidatorJailedOrNotFound(detail) => with_detail(
                "Validator is jailed or not found: ",
                detail,
            ),
            HypermonError::UnableToUnwrapSyncInfo => String::from_str("Couldn't unwrap SyncInfo"),
        }
    }
}

} // verus!
