//! Failures of the GitLab client, sorted into the errors of a forge.

use vstd::prelude::*;
use crate::forge::ForgeError;

verus! {

/// What went wrong with a request to GitLab, as far as it matters here.
#[derive(Debug, Clone, Copy, PartialEq, Eq, Structural)]
pub enum ApiFailure {
    /// The credential was not accepted.
    Auth,
    /// The request never reached the service or the answer never came back.
    Client,
    /// The service answered with an HTTP status and no usable body.
    Service {
        /// The HTTP status code.
        status: u16,
    },
    /// Anything else.
    Other,
}

/// The kind of a forge error, without its details.
#[derive(Debug, Clone, Copy, PartialEq, Eq, Structural)]
pub enum ForgeErrorKind {
    Auth,
    Connection,
    Other,
}

/// Whether an HTTP status code is in the server error class (5xx).
pub open spec fn is_server_error(status: u16) -> bool {
    500 <= status < 600
}

/// Whether an HTTP status code is in the client error class (4xx).
pub open spec fn is_client_error(status: u16) -> bool {
    400 <= status < 500
}

/// The kind of forge error that a failure is reported as: a rejected
/// credential or a client error status is an authentication failure, a
/// failed connection or a server error status is a connection failure, and
/// everything else is uncategorized.
pub open spec fn spec_error_kind(failure: ApiFailure) -> ForgeErrorKind {
    match failure {
        ApiFailure::Auth => ForgeErrorKind::Auth,
        ApiFailure::Client => ForgeErrorKind::Connection,
        ApiFailure::Service { status } => {
            if is_server_error(status) {
                ForgeErrorKind::Connection
            } else if is_client_error(status) {
                ForgeErrorKind::Auth
            } else {
                ForgeErrorKind::Other
            }
        },
        ApiFailure::Other => ForgeErrorKind::Other,
    }
}

/// The forge error of a given kind with the given details.
pub open spec fn spec_forge_error(kind: ForgeErrorKind, details: String) -> ForgeError {
    match kind {
        ForgeErrorKind::Auth => ForgeError::Auth { details },
        ForgeErrorKind::Connection => ForgeError::Connection { details },
        ForgeErrorKind::Other => ForgeError::Other { details },
    }
}

/// Report a failure of the client as a forge error that carries `details`.
pub fn forge_error(failure: ApiFailure, details: String) -> (r: ForgeError)
    ensures
        r == spec_forge_error(spec_error_kind(failure), details),
{
    match failure {
        ApiFailure::Auth => ForgeError::Auth { details },
        ApiFailure::Client => ForgeError::Connection { details },
        ApiFailure::Service { status } => {
            if 500 <= status && status < 600 {
                ForgeError::Connection { details }
            } else if 400 <= status && status < 500 {
                ForgeError::Auth { details }
            } else {
                ForgeError::Other { details }
            }
        },
        ApiFailure::Other => ForgeError::Other { details },
    }
}

} // verus!
