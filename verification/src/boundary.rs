//! Where the protocol meets the bus library.
//!
//! The protocol itself knows nothing of the bus. This module reads what
//! the bus library's calls returned into replies, and writes the outcome of
//! an attempt as the result type that callers on the bus side expect.

use crate::failure::Failure;
use crate::protocol::Reply;
use vstd::prelude::*;
use vstd::string::StringExecFns;

verus! {

/// `zbus::Error`, the bus library's own error. Nothing here looks inside
/// it.
#[verifier::external_type_specification]
#[verifier::external_body]
pub struct ExBusError(zbus::Error);

/// `zbus::fdo::Error`, the errors that the bus protocol names. It is
/// declared with its variants, which are public, so that the code below
/// builds `Failed` itself and says in its contracts which text it holds.
#[verifier::external_type_specification]
pub struct ExFdoError(zbus::fdo::Error);

/// `zbus_polkit::policykit1::AuthorizationResult`, the authority's answer
/// to an authorization check. It is declared with its fields, which are
/// public, so that the code below reads `is_authorized` itself.
#[verifier::external_type_specification]
pub struct ExAuthorizationResult(zbus_polkit::policykit1::AuthorizationResult);

/// The bus protocol's generic error with the text `why`.
pub fn zbus_error_from_display(why: &str) -> (error: zbus::fdo::Error)
    ensures
        error matches zbus::fdo::Error::Failed(text) && text@ == why@,
{
    zbus::fdo::Error::Failed(String::from_str(why))
}

/// Reads the authority's answer to an authorization check: its verdict is
/// the flag `is_authorized` and nothing else, and a check that failed is
/// no verdict at all.
pub fn verdict<E>(answer: &Result<zbus_polkit::policykit1::AuthorizationResult, E>) -> (reply:
    Reply)
    ensures
        reply == (match *answer {
            Ok(result) => Reply::Verdict(result.is_authorized),
            Err(_) => Reply::Failed,
        }),
{
    match answer {
        Ok(result) => Reply::Verdict(result.is_authorized),
        Err(_) => Reply::Failed,
    }
}

/// Writes the outcome of an attempt as the bus side expects it: a result
/// of the daemon stays what it is, and every failure becomes the generic
/// error that holds the failure's description.
pub fn conclude(outcome: Result<bool, Failure>) -> (result: Result<bool, zbus::fdo::Error>)
    ensures
        match outcome {
            Ok(installed) => result == Ok::<bool, zbus::fdo::Error>(installed),
            Err(failure) => result matches Err(zbus::fdo::Error::Failed(text)) && text@
                == failure.description(),
        },
{
    match outcome {
        Ok(installed) => Ok(installed),
        Err(failure) => Err(zbus_error_from_display(failure.message())),
    }
}

} // verus!
