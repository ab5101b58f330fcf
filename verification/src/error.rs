//! The failure taxonomy of the registrar abstraction and the middleware
//! factory, with the descriptive message each failure carries to callers.

use vstd::prelude::*;
use vstd::string::StringExecFns;

verus! {

/// Every way a registrar lookup, a contract call or the middleware
/// factory can fail. None of these is retried inside this library;
/// retry policy belongs to the caller.
#[derive(Debug, PartialEq, Eq)]
pub enum Error {
    /// The consensus engine's configuration has no registrar parameter.
    RegistrarNotConfigured,
    /// The stored registrar parameter does not parse as an address;
    /// carries the parse diagnostic.
    InvalidAddress(String),
    /// A light node has no usable peer context at call time. The caller
    /// may retry once networking comes up.
    NetworkDisabled,
    /// The proof-backed execution itself reported an error (for example a
    /// reverted call); carries the collaborator's failure description.
    ExecutionFailed(String),
    /// The on-demand service abandoned the request (peer disconnect,
    /// shutdown, queue eviction).
    RequestDropped,
    /// The hosting-disabled build variant was asked to construct the
    /// middleware; always returned there, never recovered.
    HostingNotCompiled,
}

impl Error {
    /// The descriptive message surfaced to operators for this failure.
    pub fn message(&self) -> (r: String)
        ensures
            self is RegistrarNotConfigured ==> r@ == "Registrar not defined."@,
            self matches Error::InvalidAddress(d) ==> r@ == "Invalid registrar address: "@ + d@,
            self is NetworkDisabled ==> r@ == "cannot query registry: network disabled"@,
            self matches Error::ExecutionFailed(d) ==> r@ == "Failed to execute transaction: "@ + d@,
            self is RequestDropped ==> r@ == "On-demand service dropped request unexpectedly."@,
            self is HostingNotCompiled ==> r@
                == "Your Parity version has been compiled without WebApps support."@,
    {
        match self {
            Error::RegistrarNotConfigured => String::from_str("Registrar not defined."),
            Error::InvalidAddress(d) => String::from_str("Invalid registrar address: ").concat(
                d.as_str(),
            ),
            Error::NetworkDisabled => String::from_str("cannot query registry: network disabled"),
            Error::ExecutionFailed(d) => String::from_str("Failed to execute transaction: ").concat(
                d.as_str(),
            ),
            Error::RequestDropped => String::from_str(
                "On-demand service dropped request unexpectedly.",
            ),
            Error::HostingNotCompiled => String::from_str(
                "Your Parity version has been compiled without WebApps support.",
            ),
        }
    }
}

} // verus!
