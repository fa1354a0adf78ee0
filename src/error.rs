//! The failures of a listing or a submission.

use vstd::prelude::*;

verus! {

#[verifier::external_type_specification]
#[verifier::external_body]
pub struct ExJsonError(serde_json::Error);

#[verifier::external_type_specification]
#[verifier::external_body]
pub struct ExHyperError(hyper::Error);

#[verifier::external_type_specification]
#[verifier::external_body]
pub struct ExRequestBuildError(hyper::http::Error);

/// Every way in which a listing or a submission can fail.
#[derive(Debug)]
pub enum HttpError {
    /// The server answered with a status outside 200..=299; it is kept here.
    UnsuccessFulError(u16),
    /// Neither a group nor a user is configured, or a follow-up page needs a
    /// group and none is configured.
    ConfigError(),
    /// The transport failed: connection, TLS or protocol.
    HyperError(hyper::Error),
    /// A request could not be built from its parts.
    HyperHttpError(hyper::http::Error),
    /// A body could not be encoded or decoded as JSON.
    JsonError(serde_json::Error),
}

/// The short text that names each kind of failure.
pub open spec fn description_spec(e: &HttpError) -> Seq<char> {
    match e {
        HttpError::UnsuccessFulError(_) => "unsuccessful request"@,
        HttpError::ConfigError() => "invalid config provided - no group"@,
        HttpError::HyperError(_) => "hyper error"@,
        HttpError::HyperHttpError(_) => "hyper http error"@,
        HttpError::JsonError(_) => "serde json error"@,
    }
}

impl HttpError {
    /// A short text that names the kind of failure.
    pub fn description(&self) -> (r: &'static str)
        ensures
            r@ == description_spec(self),
    {
        match self {
            HttpError::UnsuccessFulError(_) => "unsuccessful request",
            HttpError::ConfigError() => "invalid config provided - no group",
            HttpError::HyperError(_) => "hyper error",
            HttpError::HyperHttpError(_) => "hyper http error",
            HttpError::JsonError(_) => "serde json error",
        }
    }
}

impl From<hyper::Error> for HttpError {
    fn from(e: hyper::Error) -> (r: HttpError) {
        HttpError::HyperError(e)
    }
}

impl vstd::std_specs::convert::FromSpecImpl<hyper::Error> for HttpError {
    open spec fn obeys_from_spec() -> bool {
        true
    }

    open spec fn from_spec(e: hyper::Error) -> HttpError {
        HttpError::HyperError(e)
    }
}

impl From<hyper::http::Error> for HttpError {
    fn from(e: hyper::http::Error) -> (r: HttpError) {
        HttpError::HyperHttpError(e)
    }
}

impl vstd::std_specs::convert::FromSpecImpl<hyper::http::Error> for HttpError {
    open spec fn obeys_from_spec() -> bool {
        true
    }

    open spec fn from_spec(e: hyper::http::Error) -> HttpError {
        HttpError::HyperHttpError(e)
    }
}

impl From<serde_json::Error> for HttpError {
    fn from(e: serde_json::Error) -> (r: HttpError) {
        HttpError::JsonError(e)
    }
}

impl vstd::std_specs::convert::FromSpecImpl<serde_json::Error> for HttpError {
    open spec fn obeys_from_spec() -> bool {
        true
    }

    open spec fn from_spec(e: serde_json::Error) -> HttpError {
        HttpError::JsonError(e)
    }
}

} // verus!
