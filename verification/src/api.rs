//! Parameter and error types of the gateway command surface.
//!
//! The RPC/HTTP gateway is a pure caller of the engine's command surface;
//! these are the plain-value shapes it hands in and the errors it maps to
//! its status codes.  The gateway's transport itself lives outside the
//! engine.

use vstd::prelude::*;

verus! {

/// Parameters of a network "get content" call: the content id, in its
/// canonical string form.
#[derive(Clone, Debug, PartialEq, Eq)]
pub struct NetworkGetParams {
    /// The requested content id, as a string.
    pub cid: String,
}

/// Parameters of a "put file" call: the local path of the archive to
/// store and provide.
#[derive(Clone, Debug, PartialEq, Eq)]
pub struct NetworkPutFileParams {
    /// Path of the file to store.
    pub path: String,
}

/// Parameters of a "get file" call: where to put the fetched archive, and
/// the content id naming it.
#[derive(Clone, Debug, PartialEq, Eq)]
pub struct NetworkGetFileParams {
    /// Directory the fetched archive is written into.
    pub path: String,
    /// The requested content id, as a string.
    pub cid: String,
}

/// Bytes of a fetched content block.
pub type NetworkGetResult = Vec<u8>;

/// Outcome message of a "put file" call.
pub type NetworkPutFileResult = String;

/// Gateway-level failure, mapped by the HTTP layer onto a status code.
#[derive(Clone, Debug, PartialEq, Eq)]
pub enum NetworkError {
    /// The requested content is not available.
    NotFoundError(String),
    /// Anything else went wrong serving the request.
    InternalError(String),
}

impl NetworkError {
    /// The HTTP status code this failure maps to: 404 for missing
    /// content, 500 otherwise.
    pub fn status_code(&self) -> (r: u16)
        ensures
            self is NotFoundError ==> r == 404,
            self is InternalError ==> r == 500,
    {
        match self {
            NetworkError::NotFoundError(_) => 404,
            NetworkError::InternalError(_) => 500,
        }
    }

    /// The human-readable description carried with the failure.
    pub fn message(&self) -> (r: &String)
        ensures
            self matches NetworkError::NotFoundError(m) ==> r == m,
            self matches NetworkError::InternalError(m) ==> r == m,
    {
        match self {
            NetworkError::NotFoundError(m) => m,
            NetworkError::InternalError(m) => m,
        }
    }
}

/// Advertisement-provider failure, mapped by the HTTP layer onto a status
/// code.
#[derive(Clone, Debug, PartialEq, Eq)]
pub enum ProviderError {
    /// The requested head or block is not there.
    NotFoundError(String),
    /// Anything else went wrong.
    InternalError(String),
}

impl ProviderError {
    /// The HTTP status code this failure maps to: 404 for a missing head
    /// or block, 500 otherwise.
    pub fn status_code(&self) -> (r: u16)
        ensures
            self is NotFoundError ==> r == 404,
            self is InternalError ==> r == 500,
    {
        match self {
            ProviderError::NotFoundError(_) => 404,
            ProviderError::InternalError(_) => 500,
        }
    }

    /// The human-readable description carried with the failure.
    pub fn message(&self) -> (r: &String)
        ensures
            self matches ProviderError::NotFoundError(m) ==> r == m,
            self matches ProviderError::InternalError(m) ==> r == m,
    {
        match self {
            ProviderError::NotFoundError(m) => m,
            ProviderError::InternalError(m) => m,
        }
    }
}

} // verus!
