//! Errors of the crate.

use tonic::transport::Error as TransportFailure;
use vstd::prelude::*;

verus! {

/// Declares `tonic::transport::Error`, the failure of building or connecting a channel.
#[verifier::external_type_specification]
#[verifier::external_body]
pub struct ExTransportError(TransportFailure);

/// Declares `tonic::Status`, the status a call or an interceptor fails with.
#[verifier::external_type_specification]
#[verifier::external_body]
pub struct ExStatus(tonic::Status);

/// Every failure the crate reports.
#[derive(Debug)]
pub enum Error {
    /// A required configuration value is absent; holds its name.
    ConfigMissingEnv(&'static str),
    /// A configuration value is present but cannot be read; holds its name.
    ConfigWrongFormat(&'static str),
    /// A timestamp could not be converted.
    DatetimeError(crate::datetime::Error),
    /// The transport channel could not be built or connected.
    TransportError(TransportFailure),
    /// The remote service answered with an error status.
    StatusError(tonic::Status),
}

pub type Result<T> = core::result::Result<T, Error>;

impl From<TransportFailure> for Error {
    fn from(e: TransportFailure) -> (r: Error)
        ensures
            r == Error::TransportError(e),
    {
        Error::TransportError(e)
    }
}

impl vstd::std_specs::convert::FromSpecImpl<TransportFailure> for Error {
    open spec fn obeys_from_spec() -> bool {
        true
    }

    open spec fn from_spec(v: TransportFailure) -> Error {
        Error::TransportError(v)
    }
}

impl From<tonic::Status> for Error {
    fn from(s: tonic::Status) -> (r: Error)
        ensures
            r == Error::StatusError(s),
    {
        Error::StatusError(s)
    }
}

impl vstd::std_specs::convert::FromSpecImpl<tonic::Status> for Error {
    open spec fn obeys_from_spec() -> bool {
        true
    }

    open spec fn from_spec(v: tonic::Status) -> Error {
        Error::StatusError(v)
    }
}

} // verus!
