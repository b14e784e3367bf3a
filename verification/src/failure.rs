//! The two kinds of failure an operation can end in.

use vstd::prelude::*;
use vstd::std_specs::convert::FromSpecImpl;

verus! {

/// `nvim_oxi::Error`, the error type of the host bindings. The library never
/// looks inside a value of it: it only hands such a value on.
#[verifier::external_type_specification]
#[verifier::external_body]
pub struct ExHostError(nvim_oxi::Error);

/// Why an operation did not complete.
#[derive(Debug, PartialEq, Eq)]
pub enum Failure {
    /// The host itself raised an error, in a primitive the operation called.
    Host(nvim_oxi::Error),
    /// Anything else went wrong: bad configuration, a filesystem problem,
    /// arguments that could not be decoded, a failed validation. The string
    /// describes the problem for the user.
    Domain(String),
}

/// An error of the host bindings is a failure that the host raised.
impl From<nvim_oxi::Error> for Failure {
    fn from(raised: nvim_oxi::Error) -> (failure: Failure) {
        Failure::Host(raised)
    }
}

impl FromSpecImpl<nvim_oxi::Error> for Failure {
    open spec fn obeys_from_spec() -> bool {
        true
    }

    open spec fn from_spec(raised: nvim_oxi::Error) -> Failure {
        Failure::Host(raised)
    }
}

} // verus!
