//! The registrar capability: resolving the registrar contract's address
//! and performing read-only calls against arbitrary contracts. A full
//! node answers calls from its own state; a light node builds an
//! on-demand proof request and resolves the peer's answer. Exactly one
//! implementation is active per node instance, chosen once at startup.

use vstd::prelude::*;

use crate::address::Address;
use crate::engine::{registrar_address, registrar_lookup_ok, Engine};
use crate::error::Error;
use crate::transaction::{is_synthetic_call_transaction, synthetic_call_transaction,
    FakeSignedTransaction};

verus! {

/// The latest block header known to a client, reduced to what this
/// library carries of it into a proof request.
#[derive(Debug, Clone, Copy, PartialEq, Eq, Structural)]
pub struct Header {
    /// Height of the block.
    pub number: u64,
    /// Its timestamp.
    pub timestamp: u64,
}

/// The latest execution environment info known to a client, reduced to
/// what this library carries of it into a proof request.
#[derive(Debug, Clone, Copy, PartialEq, Eq, Structural)]
pub struct EnvInfo {
    /// Height the next transaction would execute at.
    pub number: u64,
    /// Gas limit of the pending block.
    pub gas_limit: u64,
}

/// What this library reads of a full node's chain client. The client's
/// state-execution engine is an external collaborator: its answer to a
/// call enters the library as a [`CallExecution`] value.
#[derive(Debug)]
pub struct FullClient {
    /// The client's consensus engine handle.
    pub engine: Engine,
}

/// What a chain client reports for a read-only call: the output bytes,
/// or its own failure description.
pub type CallExecution = Result<Vec<u8>, String>;

/// Registrar implementation of the full client.
#[derive(Debug)]
pub struct FullRegistrar {
    /// Handle to the full client.
    pub client: FullClient,
}

impl FullRegistrar {
    /// Resolves the registrar contract's address from the full client's
    /// engine configuration.
    pub fn registrar_address(&self) -> (r: Result<Address, Error>)
        ensures
            registrar_lookup_ok(self.client.engine@, r),
    {
        registrar_address(&self.client.engine)
    }

    /// Performs a read-only call by delegating to the chain client's
    /// "call contract against latest block" primitive, whose outcome is
    /// `execution`; the outcome is wrapped as an already-resolved result,
    /// errors surfaced verbatim.
    pub fn call(&self, _address: &Address, _data: &Vec<u8>, execution: CallExecution) -> (r:
        CallExecution)
        ensures
            r == execution,
    {
        execution
    }
}

/// What this library reads of a light client: its consensus engine
/// handle and its cached view of the chain head. The client's header
/// chain and caches are an external collaborator.
#[derive(Debug)]
pub struct LightClient {
    /// The client's consensus engine handle.
    pub engine: Engine,
    /// The best block header the client currently knows.
    pub best_header: Header,
    /// The execution environment info at that head.
    pub env_info: EnvInfo,
}

impl LightClient {
    /// The best block header the client currently knows.
    pub fn best_block_header(&self) -> (h: Header)
        ensures
            h == self.best_header,
    {
        self.best_header
    }

    /// The latest execution environment info.
    pub fn latest_env_info(&self) -> (e: EnvInfo)
        ensures
            e == self.env_info,
    {
        self.env_info
    }
}

/// What this library reads of the light network sync layer: whether it
/// can currently lend a peer context capable of servicing on-demand
/// requests. Peer selection itself is an external collaborator.
#[derive(Debug, Clone, Copy, PartialEq, Eq, Structural)]
pub struct LightSync {
    /// Whether a usable peer context is available; absent while
    /// networking is disabled or no capable peer is connected.
    pub context_available: bool,
}

/// A request for a verifiable execution result, submitted to the
/// on-demand service over a lent peer context: the synthetic
/// transaction, the chain snapshot it is replayed against, and the
/// consensus-engine rules to replay it under.
#[derive(Debug, PartialEq, Eq)]
pub struct TransactionProofRequest {
    /// The synthetic transaction standing in for the call.
    pub tx: FakeSignedTransaction,
    /// The best header at request time.
    pub header: Header,
    /// The environment info at request time.
    pub env_info: EnvInfo,
    /// The consensus-engine rules.
    pub engine: Engine,
}

/// The execution result a proof-backed replay reports on success.
#[derive(Debug, PartialEq, Eq)]
pub struct Executed {
    /// The call's output bytes.
    pub output: Vec<u8>,
}

/// How the on-demand service's answer to a submitted proof request
/// resolves.
#[derive(Debug, PartialEq, Eq)]
pub enum ProofOutcome {
    /// The service delivered a verified execution: the replay finished
    /// with a result, or reported its own failure description.
    Complete(Result<Executed, String>),
    /// The service abandoned the request before answering (peer
    /// disconnect, shutdown, queue eviction).
    Dropped,
}

/// Registrar implementation for the light client.
#[derive(Debug)]
pub struct LightRegistrar {
    /// The light client.
    pub client: LightClient,
    /// The light network sync layer.
    pub sync: LightSync,
}

impl LightRegistrar {
    /// Resolves the registrar contract's address from the light client's
    /// engine configuration.
    pub fn registrar_address(&self) -> (r: Result<Address, Error>)
        ensures
            registrar_lookup_ok(self.client.engine@, r),
    {
        registrar_address(&self.client.engine)
    }

    /// Begins a read-only call against `address` with input `data`.
    ///
    /// With no usable peer context the call resolves at once with
    /// [`Error::NetworkDisabled`] — no proof request is constructed, no
    /// retry, no queuing. Otherwise the request to submit is returned:
    /// the synthetic transaction (nonce from the engine's start nonce,
    /// fixed gas ceiling, zero price and value, zero-address sender)
    /// together with a snapshot of the client's current chain head and
    /// the engine rules. The embedder submits it to the on-demand
    /// service and resolves the answer with [`resolve_proof_response`].
    pub fn prepare_call(&self, address: Address, data: Vec<u8>) -> (r: Result<
        TransactionProofRequest,
        Error,
    >)
        ensures
            !self.sync.context_available ==> (r matches Err(e) && e == Error::NetworkDisabled),
            self.sync.context_available ==> (r matches Ok(req)
                && is_synthetic_call_transaction(
                req.tx,
                self.client.engine.account_start_nonce,
                address@,
                data@,
            ) && req.header == self.client.best_header && req.env_info == self.client.env_info
                && req.engine@ == self.client.engine@),
    {
        let header = self.client.best_block_header();
        let env_info = self.client.latest_env_info();
        if !self.sync.context_available {
            return Err(Error::NetworkDisabled);
        }
        let tx = synthetic_call_transaction(&self.client.engine, address, data);
        Ok(TransactionProofRequest { tx, header, env_info, engine: self.client.engine.clone() })
    }
}

/// Resolves the on-demand service's answer into the call's result:
/// a delivered execution yields exactly its output bytes, a delivered
/// failure becomes [`Error::ExecutionFailed`] with the collaborator's
/// description passed through verbatim, and an abandoned request becomes
/// [`Error::RequestDropped`]. A dropped or failed request is terminal
/// for this call.
pub fn resolve_proof_response(outcome: ProofOutcome) -> (r: Result<Vec<u8>, Error>)
    ensures
        outcome matches ProofOutcome::Complete(Ok(ex)) ==> (r matches Ok(out) && out@
            == ex.output@),
        outcome matches ProofOutcome::Complete(Err(e)) ==> (r matches Err(err)
            && err matches Error::ExecutionFailed(d) && d@ == e@),
        outcome is Dropped ==> r == Err::<Vec<u8>, Error>(Error::RequestDropped),
{
    match outcome {
        ProofOutcome::Complete(Ok(executed)) => Ok(executed.output),
        ProofOutcome::Complete(Err(e)) => Err(Error::ExecutionFailed(e)),
        ProofOutcome::Dropped => Err(Error::RequestDropped),
    }
}

/// Law: a missing registrar parameter is a configuration failure that
/// does not depend on the node mode. Any two results that resolve the
/// registrar of the same unconfigured engine — in particular those of
/// the full and the light implementation — are the same
/// [`Error::RegistrarNotConfigured`] failure.
pub proof fn lemma_missing_registrar_uniform(
    engine: crate::engine::EngineModel,
    r1: Result<Address, Error>,
    r2: Result<Address, Error>,
)
    requires
        crate::engine::registrar_param(engine) is None,
        registrar_lookup_ok(engine, r1),
        registrar_lookup_ok(engine, r2),
    ensures
        r1 == Err::<Address, Error>(Error::RegistrarNotConfigured),
        r1 == r2,
{
}

/// The one registrar implementation a node instance runs with, chosen
/// once at startup from its node mode and never swapped.
#[derive(Debug)]
pub enum Registrar {
    /// A full node with direct access to chain state.
    Full(FullRegistrar),
    /// A light node that resolves calls through peer proofs.
    Light(LightRegistrar),
}

impl Registrar {
    /// The engine configuration the active implementation reads.
    pub open spec fn engine(&self) -> crate::engine::EngineModel {
        match self {
            Registrar::Full(f) => f.client.engine@,
            Registrar::Light(l) => l.client.engine@,
        }
    }

    /// Resolves the registrar contract's address with whichever
    /// implementation is active; both read the same parameter and fail
    /// the same way.
    pub fn registrar_address(&self) -> (r: Result<Address, Error>)
        ensures
            registrar_lookup_ok(self.engine(), r),
    {
        match self {
            Registrar::Full(f) => f.registrar_address(),
            Registrar::Light(l) => l.registrar_address(),
        }
    }
}

} // verus!
