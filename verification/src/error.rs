//! The errors of the service and what becomes of each.

use vstd::prelude::*;

verus! {

/// Everything that can go wrong in the service.
///
/// The first two arise while a request is handled and end as a response. The
/// last two arise around the service: the one while a finished span is handed
/// to the collector, the other while the listener is set up.
#[derive(Clone, Copy, Debug, PartialEq, Eq, Structural)]
pub enum ServiceError {
    /// The request body is not a JSON object with a textual `username`.
    MalformedRequest,
    /// No handler is registered for the method and path.
    RouteNotFound,
    /// A span could not be delivered to the collector.
    TelemetryExportFailure,
    /// The listener could not be established.
    BindFailure,
}

/// Status of a response that carries a text.
pub const OK: u16 = 200;

/// Status of a response to a request that created something.
pub const CREATED: u16 = 201;

/// Status of the response to a malformed request.
pub const BAD_REQUEST: u16 = 400;

/// Status of the response to a request that no route matches.
pub const NOT_FOUND: u16 = 404;

impl ServiceError {
    /// The status that a client sees for this error; `None` for an error
    /// that no client ever sees.
    pub open spec fn spec_status(self) -> Option<u16> {
        match self {
            ServiceError::MalformedRequest => Some(BAD_REQUEST),
            ServiceError::RouteNotFound => Some(NOT_FOUND),
            ServiceError::TelemetryExportFailure => None,
            ServiceError::BindFailure => None,
        }
    }

    /// The name of the error's kind.
    pub open spec fn spec_name(self) -> Seq<char> {
        match self {
            ServiceError::MalformedRequest => "MalformedRequest"@,
            ServiceError::RouteNotFound => "RouteNotFound"@,
            ServiceError::TelemetryExportFailure => "TelemetryExportFailure"@,
            ServiceError::BindFailure => "BindFailure"@,
        }
    }

    /// The status that a client sees for this error; `None` for an error
    /// that no client ever sees.
    #[verifier::when_used_as_spec(spec_status)]
    pub fn status(self) -> (res: Option<u16>)
        ensures
            res == self.spec_status(),
    {
        match self {
            ServiceError::MalformedRequest => Some(BAD_REQUEST),
            ServiceError::RouteNotFound => Some(NOT_FOUND),
            ServiceError::TelemetryExportFailure => None,
            ServiceError::BindFailure => None,
        }
    }

    /// Whether the error belongs to a single request, so that it is answered
    /// and goes no further.
    pub fn is_request_scoped(self) -> (res: bool)
        ensures
            res == (self == ServiceError::MalformedRequest || self
                == ServiceError::RouteNotFound),
            res == self.spec_status().is_some(),
    {
        match self {
            ServiceError::MalformedRequest => true,
            ServiceError::RouteNotFound => true,
            ServiceError::TelemetryExportFailure => false,
            ServiceError::BindFailure => false,
        }
    }

    /// Whether the process must stop on this error. Only a failure to bind is
    /// fatal; a failed export is logged and forgotten.
    pub fn is_fatal(self) -> (res: bool)
        ensures
            res == (self == ServiceError::BindFailure),
    {
        match self {
            ServiceError::BindFailure => true,
            _ => false,
        }
    }

    /// The name of the error's kind, as a span carries it.
    pub fn name(self) -> (res: &'static str)
        ensures
            res@ == self.spec_name(),
    {
        match self {
            ServiceError::MalformedRequest => "MalformedRequest",
            ServiceError::RouteNotFound => "RouteNotFound",
            ServiceError::TelemetryExportFailure => "TelemetryExportFailure",
            ServiceError::BindFailure => "BindFailure",
        }
    }
}

} // verus!
