//! A name-registrar contract-call abstraction for a blockchain node, in
//! support of a decentralized-application ("dapps") hosting layer.
//!
//! The library resolves the address of a well-known "registrar" contract
//! from the consensus engine's configuration and performs read-only calls
//! against arbitrary contracts. A full node answers such calls from its
//! own state; a light node builds a synthetic transaction and obtains a
//! verifiable execution result from a peer through an on-demand proof
//! service. A middleware factory assembles the hosting layer from these
//! parts, or reports its explicit absence.
//!
//! The chain clients, the network sync layer, the on-demand proof service
//! and the HTTP serving layer are external collaborators: this library
//! holds the decisions and the data they exchange, and the embedder wires
//! the collaborators to them.

pub mod address;
pub mod engine;
pub mod error;
pub mod registrar;
pub mod server;
pub mod server_stub;
pub mod signer;
pub mod transaction;

pub use server::dapps_middleware;
pub use server::Middleware;

use vstd::prelude::*;
use vstd::string::StrSliceExecFns;
use vstd::string::StringExecFns;

use crate::error::Error;
use crate::registrar::Registrar;
use crate::server::middleware_assembled;
use crate::signer::SignerService;

verus! {

/// Static settings of the dapps hosting layer; immutable after
/// construction.
#[derive(Debug)]
pub struct Configuration {
    /// Whether hosting is enabled at all.
    pub enabled: bool,
    /// Root path of the hosted dapps.
    pub dapps_path: String,
    /// Further directories of dapps to host.
    pub extra_dapps: Vec<String>,
}

/// Whether `s` begins with the `$BASE` placeholder that path templates
/// use for the node's base data directory.
pub open spec fn has_base_placeholder(s: Seq<char>) -> bool {
    &&& s.len() >= 5
    &&& s[0] == '$'
    &&& s[1] == 'B'
    &&& s[2] == 'A'
    &&& s[3] == 'S'
    &&& s[4] == 'E'
}

/// Substitutes the node's base data directory for a leading `$BASE`
/// placeholder in a path template; a path without the placeholder is
/// returned unchanged.
pub fn replace_home(base: &str, path: &str) -> (r: String)
    ensures
        has_base_placeholder(path@) ==> r@ == base@ + path@.subrange(5, path@.len() as int),
        !has_base_placeholder(path@) ==> r@ == path@,
{
    let n = path.unicode_len();
    if n >= 5 && path.get_char(0) == '$' && path.get_char(1) == 'B' && path.get_char(2) == 'A'
        && path.get_char(3) == 'S' && path.get_char(4) == 'E' {
        let rest = path.substring_char(5, n);
        String::from_str(base).concat(rest)
    } else {
        path.to_owned()
    }
}

impl Default for Configuration {
    /// The default configuration: hosting enabled, the dapps root under
    /// the `$BASE` template — the embedder substitutes its base data
    /// directory with [`replace_home`] — and no extra directories.
    fn default() -> (c: Self)
        ensures
            c.enabled,
            c.dapps_path@ == "$BASE/dapps"@,
            c.extra_dapps@.len() == 0,
    {
        Configuration {
            enabled: true,
            dapps_path: String::from_str("$BASE/dapps"),
            extra_dapps: Vec::new(),
        }
    }
}

/// Handle to the shared asynchronous task scheduler. The scheduler
/// itself is an external collaborator; the handle is carried into the
/// middleware for the embedder to drive.
#[derive(Debug, Clone, Copy, PartialEq, Eq, Structural)]
pub struct Remote {}

/// Handle to the content-fetch client. Fetching itself is an external
/// collaborator; the handle is carried into the middleware.
#[derive(Debug, Clone, Copy, PartialEq, Eq, Structural)]
pub struct FetchClient {}

/// The sync-status probe: whether the node is still catching up with
/// the chain.
#[derive(Debug, Clone, Copy, PartialEq, Eq, Structural)]
pub struct SyncStatus {
    /// Whether a major sync is in progress.
    pub major_syncing: bool,
}

impl SyncStatus {
    /// Whether the node is still catching up.
    pub fn is_major_syncing(&self) -> (r: bool)
        ensures
            r == self.major_syncing,
    {
        self.major_syncing
    }
}

/// The collaborator services the middleware factory assembles from.
/// All are shared with other long-lived components of the node.
#[derive(Debug)]
pub struct Dependencies {
    /// The sync-status probe.
    pub sync_status: SyncStatus,
    /// The active registrar implementation.
    pub contract_client: Registrar,
    /// Handle to the shared task scheduler.
    pub remote: Remote,
    /// The content-fetch client.
    pub fetch: FetchClient,
    /// The signer service.
    pub signer: SignerService,
}

/// The middleware factory: with hosting disabled it produces an
/// explicit absence and does nothing else; with hosting enabled it
/// assembles the dapps-serving middleware from the dependency bundle.
pub fn new(configuration: Configuration, deps: Dependencies) -> (r: Result<
    Option<server::Middleware>,
    Error,
>)
    ensures
        !configuration.enabled ==> r == Ok::<Option<server::Middleware>, Error>(None),
        configuration.enabled ==> (r matches Ok(Some(m)) && middleware_assembled(
            m,
            deps,
            configuration.dapps_path,
            configuration.extra_dapps,
        )),
{
    if !configuration.enabled {
        return Ok(None);
    }
    match server::dapps_middleware(deps, configuration.dapps_path, configuration.extra_dapps) {
        Ok(m) => Ok(Some(m)),
        Err(e) => Err(e),
    }
}

} // verus!
