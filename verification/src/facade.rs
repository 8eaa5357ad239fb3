//! The entry points: `connect`, `bind` and `accept`, by address or by name.
//!
//! The sockets themselves live outside this library, behind a proxy. Each
//! entry point is handed the step that the proxy performs and returns what
//! that step reported, as a plain success or failure.

use vstd::prelude::*;

verus! {

/// What an entry point by name returns, given what parsing the name gave:
/// the error of a failed parse as it is, else whatever `attempt` may return
/// on the parsed address.
pub open spec fn delegated<A, T, F: FnOnce(A) -> Result<T, std::io::Error>>(
    parsed: Result<A, std::io::Error>,
    attempt: F,
    res: Result<T, std::io::Error>,
) -> bool {
    match parsed {
        Ok(a) => attempt.ensures((a,), res),
        Err(e) => res == Err::<T, std::io::Error>(e),
    }
}

/// Connects to `addr` through `attempt`.
pub fn connect<A, S, F>(addr: A, attempt: F) -> (res: Result<S, std::io::Error>) where
    F: FnOnce(A) -> Result<S, std::io::Error>,

    requires
        attempt.requires((addr,)),
    ensures
        attempt.ensures((addr,), res),
{
    attempt(addr)
}

/// Connects to the address that `addr` names.
///
/// The name is parsed first. If that fails, the failure is returned and
/// `attempt` is never called: no socket exists yet. Else the parsed address
/// goes the way of `connect`.
pub fn connect_str<A, S, Q, F>(addr: &str, parse: Q, attempt: F) -> (res: Result<
    S,
    std::io::Error,
>) where
    Q: FnOnce(&str) -> Result<A, std::io::Error>,
    F: FnOnce(A) -> Result<S, std::io::Error>,

    requires
        parse.requires((addr,)),
        forall|a: A| parse.ensures((addr,), Ok(a)) ==> attempt.requires((a,)),
    ensures
        exists|parsed: Result<A, std::io::Error>| #[trigger]
            parse.ensures((addr,), parsed) && delegated(parsed, attempt, res),
{
    match parse(addr) {
        Ok(a) => connect(a, attempt),
        Err(e) => Err(e),
    }
}

/// Binds a listening socket to `addr` through `attempt`.
pub fn bind<A, L, F>(addr: A, attempt: F) -> (res: Result<L, std::io::Error>) where
    F: FnOnce(A) -> Result<L, std::io::Error>,

    requires
        attempt.requires((addr,)),
    ensures
        attempt.ensures((addr,), res),
{
    attempt(addr)
}

/// Binds a listening socket to the address that `addr` names.
///
/// The name is parsed first. If that fails, the failure is returned and
/// `attempt` is never called: no socket exists yet. Else the parsed address
/// goes the way of `bind`.
pub fn bind_str<A, L, Q, F>(addr: &str, parse: Q, attempt: F) -> (res: Result<
    L,
    std::io::Error,
>) where
    Q: FnOnce(&str) -> Result<A, std::io::Error>,
    F: FnOnce(A) -> Result<L, std::io::Error>,

    requires
        parse.requires((addr,)),
        forall|a: A| parse.ensures((addr,), Ok(a)) ==> attempt.requires((a,)),
    ensures
        exists|parsed: Result<A, std::io::Error>| #[trigger]
            parse.ensures((addr,), parsed) && delegated(parsed, attempt, res),
{
    match parse(addr) {
        Ok(a) => bind(a, attempt),
        Err(e) => Err(e),
    }
}

/// Accepts one connection on `listener` through `attempt`, which gives the
/// new stream and the address of the peer.
pub fn accept<L, S, A, F>(listener: &L, attempt: F) -> (res: Result<(S, A), std::io::Error>) where
    F: FnOnce(&L) -> Result<(S, A), std::io::Error>,

    requires
        attempt.requires((listener,)),
    ensures
        attempt.ensures((listener,), res),
{
    attempt(listener)
}

} // verus!
