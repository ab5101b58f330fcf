//! Synthetic transactions: transaction-shaped values that describe a
//! read-only contract call for proof purposes. They are never broadcast
//! or included in a block; they exist solely to be replayed against
//! proof data fetched from a peer.

use vstd::prelude::*;

use crate::address::{zero_address_bytes, Address};
use crate::engine::Engine;

verus! {

/// The gas ceiling given to every synthetic call: large enough that a
/// view call never runs out.
pub const CALL_GAS: u64 = 50_000_000;

/// What a transaction acts on: contract creation, or a call against an
/// existing contract.
#[derive(Debug, PartialEq, Eq)]
pub enum Action {
    /// Deploys a new contract.
    Create,
    /// Calls the contract at the given address.
    Call(Address),
}

/// The mathematical content of an [`Action`]: the called address's
/// bytes, or nothing for a creation.
pub open spec fn action_target(a: Action) -> Option<Seq<u8>> {
    match a {
        Action::Create => Option::None,
        Action::Call(addr) => Option::Some(addr@),
    }
}

/// An unsigned transaction describing a contract call.
#[derive(Debug, PartialEq, Eq)]
pub struct SyntheticTransaction {
    /// Sender nonce; for synthetic calls, the engine's account start nonce.
    pub nonce: u64,
    /// Gas limit.
    pub gas: u64,
    /// Gas price; zero for synthetic calls.
    pub gas_price: u64,
    /// Transferred value; zero for synthetic calls.
    pub value: u64,
    /// What the transaction acts on.
    pub action: Action,
    /// The call input payload.
    pub data: Vec<u8>,
}

/// A transaction paired with a placeholder sender. The "signature"
/// carries no authorization: it only completes the transaction structure
/// so proof generation can replay it.
#[derive(Debug, PartialEq, Eq)]
pub struct FakeSignedTransaction {
    /// The underlying unsigned transaction.
    pub tx: SyntheticTransaction,
    /// The placeholder sender address.
    pub sender: Address,
}

/// The mathematical content of a fake-signed transaction; two
/// transactions with equal models are byte-identical on the wire.
pub ghost struct TransactionModel {
    pub nonce: u64,
    pub gas: u64,
    pub gas_price: u64,
    pub value: u64,
    pub call_target: Option<Seq<u8>>,
    pub data: Seq<u8>,
    pub sender: Seq<u8>,
}

impl View for FakeSignedTransaction {
    type V = TransactionModel;

    open spec fn view(&self) -> TransactionModel {
        TransactionModel {
            nonce: self.tx.nonce,
            gas: self.tx.gas,
            gas_price: self.tx.gas_price,
            value: self.tx.value,
            call_target: action_target(self.tx.action),
            data: self.tx.data@,
            sender: self.sender@,
        }
    }
}

impl SyntheticTransaction {
    /// Completes the transaction structure with a placeholder sender,
    /// without any real authorization.
    pub fn fake_sign(self, sender: Address) -> (r: FakeSignedTransaction)
        ensures
            r.tx == self,
            r.sender == sender,
    {
        FakeSignedTransaction { tx: self, sender }
    }
}

/// Whether `t` is exactly the synthetic transaction this library builds
/// for a call with the given nonce, target address and input payload:
/// fixed gas ceiling, zero price and value, zero-address sender.
pub open spec fn is_synthetic_call_transaction(
    t: FakeSignedTransaction,
    nonce: u64,
    address: Seq<u8>,
    data: Seq<u8>,
) -> bool {
    &&& t.tx.nonce == nonce
    &&& t.tx.gas == CALL_GAS
    &&& t.tx.gas_price == 0
    &&& t.tx.value == 0
    &&& action_target(t.tx.action) == Option::Some(address)
    &&& t.tx.data@ == data
    &&& t.sender@ == zero_address_bytes()
}

/// Builds the synthetic transaction for a read-only call against
/// `address` with input `data`, with the sender nonce taken from the
/// engine's configured start nonce.
pub fn synthetic_call_transaction(engine: &Engine, address: Address, data: Vec<u8>) -> (r:
    FakeSignedTransaction)
    ensures
        is_synthetic_call_transaction(r, engine.account_start_nonce, address@, data@),
{
    let tx = SyntheticTransaction {
        nonce: engine.account_start_nonce,
        gas: CALL_GAS,
        gas_price: 0,
        value: 0,
        action: Action::Call(address),
        data,
    };
    tx.fake_sign(Address::zero())
}

/// Law: the synthetic transaction is a pure function of the nonce, the
/// target address and the input payload. Two transactions built from
/// identical inputs are model-identical — proof construction hides no
/// randomness.
pub proof fn lemma_synthetic_transaction_deterministic(
    t1: FakeSignedTransaction,
    t2: FakeSignedTransaction,
    nonce: u64,
    address: Seq<u8>,
    data: Seq<u8>,
)
    requires
        is_synthetic_call_transaction(t1, nonce, address, data),
        is_synthetic_call_transaction(t2, nonce, address, data),
    ensures
        t1@ == t2@,
{
}

} // verus!
