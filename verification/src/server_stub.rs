//! The hosting-disabled middleware variant: a build of the node without
//! dapps hosting. Constructing the middleware always fails with a fixed
//! message, and no value of the stub middleware type is ever made, so
//! its request handling is unreachable by construction — the
//! content-hosting routes are simply absent.

use vstd::prelude::*;

use crate::error::Error;
use crate::Dependencies;

verus! {

/// The middleware of a build without hosting support. No constructor of
/// this library produces a value of it: [`dapps_middleware`] is the only
/// way to ask for one, and it always refuses.
#[derive(Debug)]
pub struct Middleware {
    #[allow(dead_code)]
    no_hosting: (),
}

/// Refuses to build the middleware: this variant stands for a node
/// compiled without hosting support, and always fails with the fixed
/// message of [`Error::HostingNotCompiled`], regardless of input.
pub fn dapps_middleware(_deps: Dependencies, _dapps_path: String, _extra_dapps: Vec<String>) -> (r:
    Result<Middleware, Error>)
    ensures
        r matches Err(e) && e == Error::HostingNotCompiled,
{
    Err(Error::HostingNotCompiled)
}

} // verus!
