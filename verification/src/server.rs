//! The hosting-enabled middleware variant: assembles the dapps-serving
//! middleware from the dependency bundle. The HTTP request routing and
//! static-file serving behind it are an external collaborator; this
//! library builds and pins down the assembly the embedder mounts.

use vstd::prelude::*;

use crate::error::Error;
use crate::registrar::Registrar;
use crate::signer::WebProxyTokens;
use crate::{Dependencies, FetchClient, Remote, SyncStatus};
use crate::address::Address;

verus! {

/// The assembled dapps-serving middleware: everything the hosting layer
/// needs to resolve names through the registrar and serve content.
#[derive(Debug)]
pub struct Middleware {
    /// Handle to the shared task scheduler.
    pub remote: Remote,
    /// The signer's address, exposed to the served interface.
    pub ui_address: Address,
    /// Root path of the hosted dapps.
    pub dapps_path: String,
    /// Further directories of dapps to host.
    pub extra_dapps: Vec<String>,
    /// The active registrar implementation, for name lookups.
    pub contract_client: Registrar,
    /// The sync-status probe.
    pub sync_status: SyncStatus,
    /// The per-request web-proxy access predicate.
    pub web_proxy_tokens: WebProxyTokens,
    /// The content-fetch client.
    pub fetch: FetchClient,
}

/// Whether `m` is exactly the middleware assembled from `deps` with the
/// given paths: every collaborator handed through unchanged, the access
/// predicate derived from the bundle's signer, and the exposed address
/// the signer's own.
pub open spec fn middleware_assembled(
    m: Middleware,
    deps: Dependencies,
    dapps_path: String,
    extra_dapps: Vec<String>,
) -> bool {
    &&& m.remote == deps.remote
    &&& m.ui_address@ == deps.signer@.address
    &&& m.dapps_path@ == dapps_path@
    &&& m.extra_dapps == extra_dapps
    &&& m.contract_client == deps.contract_client
    &&& m.sync_status == deps.sync_status
    &&& m.web_proxy_tokens.signer@ == deps.signer@
    &&& m.fetch == deps.fetch
}

/// Builds the dapps-serving middleware from the dependency bundle; in
/// this variant construction always succeeds.
pub fn dapps_middleware(deps: Dependencies, dapps_path: String, extra_dapps: Vec<String>) -> (r:
    Result<Middleware, Error>)
    ensures
        r matches Ok(m) && middleware_assembled(m, deps, dapps_path, extra_dapps),
{
    let signer = deps.signer;
    let web_proxy_tokens = WebProxyTokens { signer: signer.clone() };
    Ok(
        Middleware {
            remote: deps.remote,
            ui_address: signer.address(),
            dapps_path,
            extra_dapps,
            contract_client: deps.contract_client,
            sync_status: deps.sync_status,
            web_proxy_tokens,
            fetch: deps.fetch,
        },
    )
}

} // verus!
