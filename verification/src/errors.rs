//! The error taxonomy: one generic infrastructure error, and the two
//! domain failures of the handle entry point, both raised before any
//! state mutation.

use vstd::prelude::*;
use crate::types::CanonicalAddr;

verus! {

/// Infrastructure failures: the store, the address codec or the query
/// gateway could not do their work. Always carries a description.
#[derive(Clone, Debug, PartialEq, Eq)]
pub enum StdError {
    GenericErr { msg: String },
    NotFound { kind: String },
}

impl StdError {
    pub fn generic_err(msg: &str) -> (e: StdError)
        ensures
            e matches StdError::GenericErr { msg: m } && m@ == msg@,
    {
        StdError::GenericErr { msg: msg.to_owned() }
    }

    pub fn not_found(kind: &str) -> (e: StdError)
        ensures
            e matches StdError::NotFound { kind: k } && k@ == kind@,
    {
        StdError::NotFound { kind: kind.to_owned() }
    }
}

/// The text carried by an infrastructure error.
pub open spec fn err_text(e: StdError) -> Seq<char> {
    match e {
        StdError::GenericErr { msg } => msg@,
        StdError::NotFound { kind } => kind@,
    }
}

/// Failures of the handle entry point. Domain-specific conditions are
/// distinct variants; everything else wraps the generic error.
#[derive(Clone, Debug, PartialEq, Eq)]
pub enum ReflectError {
    Std(StdError),
    /// The caller is not the stored owner; both identities are kept for
    /// diagnostics.
    NotCurrentOwner { expected: CanonicalAddr, actual: CanonicalAddr },
    /// A reflect request carried no messages.
    MessagesEmpty,
}

} // verus!
