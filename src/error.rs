//! Errors: those a state provider reports, and the error object a caller of
//! the query receives.
use vstd::prelude::*;

verus! {

/// The JSON-RPC code of an internal error.
pub const INTERNAL_ERROR_CODE: i32 = -32603;

/// A failure reported by a state provider. The variant keeps apart a block
/// whose state is not available from a fault inside the provider; the text
/// describes the cause.
#[derive(Clone, Debug, PartialEq, Eq)]
pub enum ProviderError {
    /// The block is unknown, or its state was pruned.
    StateUnavailable(String),
    /// The provider failed for a reason of its own.
    Internal(String),
}

impl ProviderError {
    /// The text that describes the cause.
    pub open spec fn spec_message(&self) -> Seq<char> {
        match self {
            ProviderError::StateUnavailable(m) => m@,
            ProviderError::Internal(m) => m@,
        }
    }

    /// Consumes the error and hands back the text that describes its cause.
    pub fn into_message(self) -> (r: String)
        ensures
            r@ == self.spec_message(),
    {
        match self {
            ProviderError::StateUnavailable(m) => m,
            ProviderError::Internal(m) => m,
        }
    }
}

/// The error object returned to a caller: a numeric code and a message.
#[derive(Clone, Debug, PartialEq, Eq)]
pub struct RpcError {
    pub code: i32,
    pub message: String,
}

impl RpcError {
    /// An internal error that carries `message`.
    pub fn internal(message: String) -> (r: RpcError)
        ensures
            r.code == INTERNAL_ERROR_CODE,
            r.message@ == message@,
    {
        RpcError { code: INTERNAL_ERROR_CODE, message }
    }

    /// The internal error that surfaces `e`: its message is the provider's own.
    pub fn from_provider(e: ProviderError) -> (r: RpcError)
        ensures
            r.code == INTERNAL_ERROR_CODE,
            r.message@ == e.spec_message(),
    {
        RpcError::internal(e.into_message())
    }
}

} // verus!
