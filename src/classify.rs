//! The connection classifier.
//!
//! One connection attempt ends in one of four ways: a session, a host that
//! answered and refused the login, a host with nothing listening, or any other
//! transport failure. The first attempt of a run decides where the run goes.

use vstd::prelude::*;

verus! {

/// Why a connection attempt failed, as far as the probe cares.
#[derive(Debug, Clone, Copy, PartialEq, Eq, Structural)]
pub enum ConnectErrorKind {
    /// The host answered and rejected the credentials.
    PermissionDenied,
    /// Nothing listens at the service port.
    ConnectionRefused,
    /// Any other transport failure.
    Other,
}

/// The class of one connection attempt, carrying the session or the error.
#[derive(Debug, PartialEq, Eq)]
pub enum Classified<S, E> {
    /// A session was established.
    Authenticated(S),
    /// The host is reachable but denied the login.
    AuthRejected,
    /// The host refused the connection.
    Unreachable,
    /// A failure that ends the run.
    Fatal(E),
}

/// The class of the outcome `result` of a connection attempt, whose error
/// carries its kind.
pub open spec fn class_of<S, E>(result: Result<S, (ConnectErrorKind, E)>) -> Classified<S, E> {
    match result {
        Ok(s) => Classified::Authenticated(s),
        Err((kind, e)) => match kind {
            ConnectErrorKind::PermissionDenied => Classified::AuthRejected,
            ConnectErrorKind::ConnectionRefused => Classified::Unreachable,
            ConnectErrorKind::Other => Classified::Fatal(e),
        },
    }
}

/// Classifies the outcome of one connection attempt.
pub fn classify<S, E>(result: Result<S, (ConnectErrorKind, E)>) -> (c: Classified<S, E>)
    ensures
        c == class_of(result),
{
    match result {
        Ok(s) => Classified::Authenticated(s),
        Err((kind, e)) => match kind {
            ConnectErrorKind::PermissionDenied => Classified::AuthRejected,
            ConnectErrorKind::ConnectionRefused => Classified::Unreachable,
            ConnectErrorKind::Other => Classified::Fatal(e),
        },
    }
}

/// Where a run goes after its first connection attempt.
#[derive(Debug, PartialEq, Eq)]
pub enum Route<S, E> {
    /// Probe by echo over the session, with the whole iteration budget.
    Echo(S),
    /// Probe by timing the handshake until a login succeeds; the first
    /// attempt was a denied login when `login_denied` holds, a refused
    /// connection otherwise.
    PreAuth { login_denied: bool },
    /// Stop before any probing, with this error.
    Abort(E),
}

/// The route for a run whose first attempt is of class `first`.
pub open spec fn route_of<S, E>(first: Classified<S, E>) -> Route<S, E> {
    match first {
        Classified::Authenticated(s) => Route::Echo(s),
        Classified::AuthRejected => Route::PreAuth { login_denied: true },
        Classified::Unreachable => Route::PreAuth { login_denied: false },
        Classified::Fatal(e) => Route::Abort(e),
    }
}

/// Routes a run by the class of its first connection attempt: a session goes
/// to echo probing, a denied login or a refused connection to pre-auth
/// probing, and any other failure aborts the run before any loop.
pub fn route<S, E>(first: Classified<S, E>) -> (r: Route<S, E>)
    ensures
        r == route_of(first),
{
    match first {
        Classified::Authenticated(s) => Route::Echo(s),
        Classified::AuthRejected => Route::PreAuth { login_denied: true },
        Classified::Unreachable => Route::PreAuth { login_denied: false },
        Classified::Fatal(e) => Route::Abort(e),
    }
}

/// A failed first attempt whose error says the login was denied, or that the
/// connection was refused, leads to pre-auth probing; a failure of any other
/// kind aborts the run with that same error before any probing loop starts.
pub proof fn lemma_connect_error_routing<S, E>(kind: ConnectErrorKind, e: E)
    ensures
        kind == ConnectErrorKind::PermissionDenied ==> route_of(
            class_of(Err::<S, (ConnectErrorKind, E)>((kind, e))),
        ) == (Route::<S, E>::PreAuth { login_denied: true }),
        kind == ConnectErrorKind::ConnectionRefused ==> route_of(
            class_of(Err::<S, (ConnectErrorKind, E)>((kind, e))),
        ) == (Route::<S, E>::PreAuth { login_denied: false }),
        kind == ConnectErrorKind::Other ==> route_of(
            class_of(Err::<S, (ConnectErrorKind, E)>((kind, e))),
        ) == Route::<S, E>::Abort(e),
{
}

} // verus!
