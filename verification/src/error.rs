//! The errors that travel through a lifecycle, and the two that this library
//! makes itself: the generic error with a message, and the signal that an
//! operation cannot complete without blocking.
//!
//! The error type is `std::io::Error`, so that whatever the platform reports
//! passes through unchanged. It is opaque here; what the contracts need to say
//! of an error they say through [`error_kind`] and [`error_payload`].

use vstd::prelude::*;

verus! {

/// `std::io::Error`. Declared opaque: a value of it is carried, never opened.
#[verifier::external_type_specification]
#[verifier::external_body]
pub struct ExIoError(std::io::Error);

/// `std::io::ErrorKind`. Declared with its variants, so that a contract can
/// name a kind; it is a plain enumeration and has nothing inside to hide.
#[verifier::external_type_specification]
pub struct ExIoErrorKind(std::io::ErrorKind);

/// The kind of an error: what `std::io::Error::kind` returns for it.
pub uninterp spec fn error_kind(e: std::io::Error) -> std::io::ErrorKind;

/// The text of the payload that an error was constructed with, if it was
/// constructed with one: what `std::io::Error::get_ref` returns for it,
/// rendered with `to_string`.
pub uninterp spec fn error_payload(e: std::io::Error) -> Option<Seq<char>>;

/// Calls `std::io::Error::new` with a string as the payload.
///
/// Taken on trust from its documentation: the new error has the kind it was
/// given, and contains the payload, which for a string renders as that string.
#[verifier::external_body]
fn error_with_payload(kind: std::io::ErrorKind, message: &str) -> (e: std::io::Error)
    ensures
        error_kind(e) == kind,
        error_payload(e) == Some(message@),
{
    std::io::Error::new(kind, message)
}

/// Calls `std::io::Error::from` on a kind.
///
/// Taken on trust from its documentation: the new error is the simple
/// representation of the kind it was given, and has no payload.
#[verifier::external_body]
fn error_of_kind(kind: std::io::ErrorKind) -> (e: std::io::Error)
    ensures
        error_kind(e) == kind,
        error_payload(e) is None,
{
    std::io::Error::from(kind)
}

/// A generic error that carries `message`, for a failure that no more specific
/// kind describes.
pub fn other(message: &str) -> (e: std::io::Error)
    ensures
        error_kind(e) == std::io::ErrorKind::Other,
        error_payload(e) == Some(message@),
{
    error_with_payload(std::io::ErrorKind::Other, message)
}

/// The error that says an operation cannot complete without blocking. It is a
/// request to poll again, not a failure, and is told apart from every other
/// error by its kind alone: it carries no message.
pub fn would_block() -> (e: std::io::Error)
    ensures
        error_kind(e) == std::io::ErrorKind::WouldBlock,
        error_payload(e) is None,
{
    error_of_kind(std::io::ErrorKind::WouldBlock)
}

} // verus!
