use hypermon::types::{HypermonError, RpcFailure};

fn detail() -> String {
    "x".to_string()
}

#[test]
fn only_a_missing_validator_is_not_found() {
    assert_eq!(HypermonError::ValidatorJailedOrNotFound(detail()).status_code(), 404);
    assert_eq!(HypermonError::ResponseError(detail()).status_code(), 500);
    assert_eq!(HypermonError::DeserializationError(detail()).status_code(), 500);
    assert_eq!(HypermonError::InternalServerError.status_code(), 500);
    assert_eq!(HypermonError::RegisterError(detail()).status_code(), 500);
    assert_eq!(HypermonError::EncodeError(detail()).status_code(), 500);
    assert_eq!(HypermonError::IOError(detail()).status_code(), 500);
    assert_eq!(HypermonError::RpcClientError(detail()).status_code(), 500);
    assert_eq!(HypermonError::UnableToUnwrapSyncInfo.status_code(), 500);
}

#[test]
fn every_error_has_its_message() {
    assert_eq!(
        HypermonError::ResponseError(detail()).message(),
        "Error while getting response: x"
    );
    assert_eq!(
        HypermonError::DeserializationError(detail()).message(),
        "Deserialization Error: x"
    );
    assert_eq!(
        HypermonError::InternalServerError.message(),
        "Something went wrong internall"
    );
    assert_eq!(HypermonError::RegisterError(detail()).message(), "Register error");
    assert_eq!(
        HypermonError::EncodeError(detail()).message(),
        "Error while encoding metric families"
    );
    assert_eq!(HypermonError::IOError(detail()).message(), "IO Error: x");
    assert_eq!(
        HypermonError::RpcClientError(detail()).message(),
        "RPC Client Error: x"
    );
    assert_eq!(
        HypermonError::ValidatorJailedOrNotFound(detail()).message(),
        "Validator is jailed or not found: x"
    );
    assert_eq!(
        HypermonError::UnableToUnwrapSyncInfo.message(),
        "Couldn't unwrap SyncInfo"
    );
}

fn rpc_detail(failure: RpcFailure) -> String {
    match HypermonError::from_rpc_failure(failure) {
        HypermonError::RpcClientError(detail) => detail,
        other => panic!("unexpected error: {:?}", other),
    }
}

#[test]
fn every_rpc_failure_has_its_detail() {
    assert_eq!(rpc_detail(RpcFailure::Unreachable), "RPC is unreachable!");
    assert_eq!(rpc_detail(RpcFailure::Decoder(detail())), "Decoding error: x");
    assert_eq!(
        rpc_detail(RpcFailure::InvalidResponse(detail())),
        "Invalid response from RPC: x"
    );
    assert_eq!(
        rpc_detail(RpcFailure::Transport(detail())),
        "RPC Transport Error: x"
    );
    assert_eq!(rpc_detail(RpcFailure::Rpc(detail())), "RPC Error: x");
    assert_eq!(rpc_detail(RpcFailure::Io(detail())), "RPC IO Error: x");
    assert_eq!(
        rpc_detail(RpcFailure::Recovery(detail())),
        "RPC Recovery Error: x"
    );
    assert_eq!(rpc_detail(RpcFailure::Internal), "Internal RPC Error");
}

fn mapped(error: web3::Error) -> String {
    match HypermonError::from_rpc_error(error) {
        HypermonError::RpcClientError(detail) => detail,
        other => panic!("unexpected error: {:?}", other),
    }
}

#[test]
fn errors_of_the_rpc_client_are_told_apart() {
    assert_eq!(mapped(web3::Error::Unreachable), "RPC is unreachable!");
    assert_eq!(mapped(web3::Error::Internal), "Internal RPC Error");
    assert_eq!(
        mapped(web3::Error::Decoder("bad hex".to_string())),
        "Decoding error: \"bad hex\""
    );
    assert_eq!(
        mapped(web3::Error::InvalidResponse("empty".to_string())),
        "Invalid response from RPC: \"empty\""
    );
    assert_eq!(
        mapped(web3::Error::Transport(web3::error::TransportError::Code(502))),
        "RPC Transport Error: Code(502)"
    );
    assert_eq!(
        mapped(web3::Error::Transport(web3::error::TransportError::Message(
            "refused".to_string()
        ))),
        "RPC Transport Error: Message(\"refused\")"
    );
    assert_eq!(
        mapped(web3::Error::Io(std::io::Error::from(
            std::io::ErrorKind::TimedOut
        ))),
        "RPC IO Error: Kind(TimedOut)"
    );
}
