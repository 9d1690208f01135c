//! What each request of the HTTP interface does, once its inputs are read
//! and the current record is loaded.
use crate::config::{Config, StorageError};
use crate::servo::{ActuationError, ValidationError};
use vstd::prelude::*;

pub mod delete;
pub mod get;
pub mod patch;

verus! {

/// Why a request failed.
#[derive(Debug)]
pub enum ApiError {
    /// The request carried no key.
    MissingKey,
    /// The request carried a key other than the current secret.
    InvalidKey,
    Storage(StorageError),
    Actuation(ActuationError),
    Validation(ValidationError),
}

/// Proof that a request presented the current secret. Only `from_request`
/// makes one.
#[derive(Debug)]
pub struct ApiKey {
    key: String,
}

impl ApiKey {
    /// The key that was presented.
    pub closed spec fn view(&self) -> Seq<char> {
        self.key@
    }

    /// Checks the key of a request against the current record's secret, read
    /// at request time.
    pub fn from_request(header: Option<&str>, current: &Result<Config, StorageError>) -> (r: Result<
        ApiKey,
        ApiError,
    >)
        ensures
            header is None ==> r matches Err(ApiError::MissingKey),
            header matches Some(k) ==> match current {
                Err(e) => r matches Err(ApiError::Storage(e2)) && e2 == e,
                Ok(c) => if k@ == c.api_key@ {
                    r matches Ok(key) && key@ == k@
                } else {
                    r matches Err(ApiError::InvalidKey)
                },
            },
    {
        match header {
            None => Err(ApiError::MissingKey),
            Some(k) => match current {
                Err(e) => Err(ApiError::Storage(StorageError { message: e.message.clone() })),
                Ok(c) => {
                    let key = k.to_owned();
                    if key == c.api_key {
                        Ok(ApiKey { key })
                    } else {
                        Err(ApiError::InvalidKey)
                    }
                },
            },
        }
    }
}

} // verus!
