//! What can go wrong, and what a client is answered when it does.

use vstd::prelude::*;

use crate::text::joined;

verus! {

/// A failure of the relay.
///
/// A variant with a text carries the detail that its message ends with.
#[derive(Debug)]
pub enum Error {
    /// The request has no `Authorization` header.
    MissingAuth,
    /// The `Authorization` header is not a bearer token.
    InvalidAuthFormat,
    /// A request to the token issuer could not be made, or its reply not be read.
    OidcDiscovery(String),
    /// The issuer's signing keys could not be had, or do not hold the key asked for.
    Jwks(String),
    /// The token was read and refused.
    JwtValidation(String),
    /// The token is genuine but its bearer has no access.
    Unauthorized(String),
    /// Every connection slot is taken.
    TooManyConnections,
    /// The daemon could not be started.
    DaemonSpawn(String),
    /// The configuration is not usable.
    Config(String),
}

/// The mathematical value of an [`Error`].
pub enum ErrorView {
    MissingAuth,
    InvalidAuthFormat,
    OidcDiscovery(Seq<char>),
    Jwks(Seq<char>),
    JwtValidation(Seq<char>),
    Unauthorized(Seq<char>),
    TooManyConnections,
    DaemonSpawn(Seq<char>),
    Config(Seq<char>),
}

impl View for Error {
    type V = ErrorView;

    open spec fn view(&self) -> ErrorView {
        match self {
            Error::MissingAuth => ErrorView::MissingAuth,
            Error::InvalidAuthFormat => ErrorView::InvalidAuthFormat,
            Error::OidcDiscovery(detail) => ErrorView::OidcDiscovery(detail@),
            Error::Jwks(detail) => ErrorView::Jwks(detail@),
            Error::JwtValidation(detail) => ErrorView::JwtValidation(detail@),
            Error::Unauthorized(detail) => ErrorView::Unauthorized(detail@),
            Error::TooManyConnections => ErrorView::TooManyConnections,
            Error::DaemonSpawn(detail) => ErrorView::DaemonSpawn(detail@),
            Error::Config(detail) => ErrorView::Config(detail@),
        }
    }
}

impl ErrorView {
    /// The HTTP status that answers a request which fails this way.
    pub open spec fn status(self) -> u16 {
        match self {
            ErrorView::MissingAuth | ErrorView::InvalidAuthFormat => 401,
            ErrorView::JwtValidation(_) | ErrorView::Unauthorized(_) => 403,
            ErrorView::TooManyConnections => 503,
            _ => 500,
        }
    }

    /// What the failure says of itself.
    pub open spec fn message(self) -> Seq<char> {
        match self {
            ErrorView::MissingAuth => "missing Authorization header"@,
            ErrorView::InvalidAuthFormat => "invalid Authorization header format"@,
            ErrorView::OidcDiscovery(detail) => "OIDC discovery failed: "@ + detail,
            ErrorView::Jwks(detail) => "JWKS error: "@ + detail,
            ErrorView::JwtValidation(detail) => "JWT validation failed: "@ + detail,
            ErrorView::Unauthorized(detail) => "unauthorized: "@ + detail,
            ErrorView::TooManyConnections => "too many connections"@,
            ErrorView::DaemonSpawn(detail) => "daemon spawn failed: "@ + detail,
            ErrorView::Config(detail) => "config error: "@ + detail,
        }
    }
}

impl Error {
    /// The HTTP status that answers a request which fails this way.
    pub fn status(&self) -> (r: u16)
        ensures
            r == self@.status(),
    {
        match self {
            Error::MissingAuth | Error::InvalidAuthFormat => 401,
            Error::JwtValidation(_) | Error::Unauthorized(_) => 403,
            Error::TooManyConnections => 503,
            _ => 500,
        }
    }

    /// What the failure says of itself.
    pub fn message(&self) -> (r: String)
        ensures
            r@ == self@.message(),
    {
        match self {
            Error::MissingAuth => "missing Authorization header".to_string(),
            Error::InvalidAuthFormat => "invalid Authorization header format".to_string(),
            Error::OidcDiscovery(detail) => joined("OIDC discovery failed: ", detail),
            Error::Jwks(detail) => joined("JWKS error: ", detail),
            Error::JwtValidation(detail) => joined("JWT validation failed: ", detail),
            Error::Unauthorized(detail) => joined("unauthorized: ", detail),
            Error::TooManyConnections => "too many connections".to_string(),
            Error::DaemonSpawn(detail) => joined("daemon spawn failed: ", detail),
            Error::Config(detail) => joined("config error: ", detail),
        }
    }

    /// The HTTP response to a request which fails this way: its status and its body.
    pub fn into_response(self) -> (r: (u16, String))
        ensures
            r.0 == self@.status(),
            r.1@ == self@.message(),
    {
        let status: u16 = self.status();
        (status, self.message())
    }
}

/// A request without a usable header is unauthorized, one whose token is refused is forbidden,
/// one that finds no slot is put off, and every other failure is the server's own, whatever its
/// detail.
pub proof fn law_failures_have_their_status(detail: String)
    ensures
        Error::MissingAuth@.status() == 401,
        Error::InvalidAuthFormat@.status() == 401,
        Error::JwtValidation(detail)@.status() == 403,
        Error::Unauthorized(detail)@.status() == 403,
        Error::TooManyConnections@.status() == 503,
        Error::OidcDiscovery(detail)@.status() == 500,
        Error::Jwks(detail)@.status() == 500,
        Error::DaemonSpawn(detail)@.status() == 500,
        Error::Config(detail)@.status() == 500,
{
}

/// A failure says what failed, and then its whole detail.
pub proof fn law_failures_tell_their_detail(detail: String)
    ensures
        Error::MissingAuth@.message() == "missing Authorization header"@,
        Error::InvalidAuthFormat@.message() == "invalid Authorization header format"@,
        Error::TooManyConnections@.message() == "too many connections"@,
        Error::OidcDiscovery(detail)@.message() == "OIDC discovery failed: "@ + detail@,
        Error::Jwks(detail)@.message() == "JWKS error: "@ + detail@,
        Error::JwtValidation(detail)@.message() == "JWT validation failed: "@ + detail@,
        Error::Unauthorized(detail)@.message() == "unauthorized: "@ + detail@,
        Error::DaemonSpawn(detail)@.message() == "daemon spawn failed: "@ + detail@,
        Error::Config(detail)@.message() == "config error: "@ + detail@,
{
}

/// The value of a failure keeps its kind and its detail.
pub proof fn law_failures_keep_their_kind(detail: String)
    ensures
        Error::MissingAuth@ == ErrorView::MissingAuth,
        Error::InvalidAuthFormat@ == ErrorView::InvalidAuthFormat,
        Error::OidcDiscovery(detail)@ == ErrorView::OidcDiscovery(detail@),
        Error::Jwks(detail)@ == ErrorView::Jwks(detail@),
        Error::JwtValidation(detail)@ == ErrorView::JwtValidation(detail@),
        Error::Unauthorized(detail)@ == ErrorView::Unauthorized(detail@),
        Error::TooManyConnections@ == ErrorView::TooManyConnections,
        Error::DaemonSpawn(detail)@ == ErrorView::DaemonSpawn(detail@),
        Error::Config(detail)@ == ErrorView::Config(detail@),
{
}

} // verus!
