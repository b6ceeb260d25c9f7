//! Errors of the configuration engine.

use vstd::prelude::*;
use crate::text::{contains_text, occurs_in};

verus! {

/// Failures that reach the caller; each carries a human-readable description.
#[derive(Debug)]
pub enum NetworkError {
    /// Reading or writing a system control key failed.
    SysctlError(String),
    /// The kernel control channel refused a request; holds its description.
    RtnetlinkError(String),
    /// A generic operating-system failure.
    OSError(String),
    /// No interface of the given name exists.
    NotFound(String),
}

pub open spec fn not_found_text(interface: Seq<char>) -> Seq<char> {
    "Could not find interface: "@ + interface
}

/// The error for a name that resolves to no interface.
pub fn not_found(interface: &str) -> (e: NetworkError)
    ensures
        e is NotFound,
        e->NotFound_0@ == not_found_text(interface@),
{
    let msg = String::from_str("Could not find interface: ").concat(interface);
    NetworkError::NotFound(msg)
}

/// A transport failure that says the object to create is there already.
pub open spec fn says_already_exists(msg: Seq<char>) -> bool {
    occurs_in(msg, "File exists"@)
}

/// A transport failure that says the object to delete is absent.
pub open spec fn says_not_present(msg: Seq<char>) -> bool {
    occurs_in(msg, "No such file or directory"@)
}

pub fn is_already_exists(msg: &str) -> (r: bool)
    ensures
        r == says_already_exists(msg@),
{
    contains_text(msg, "File exists")
}

pub fn is_not_present(msg: &str) -> (r: bool)
    ensures
        r == says_not_present(msg@),
{
    contains_text(msg, "No such file or directory")
}

} // verus!
