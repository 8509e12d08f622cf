//! Transaction types.
//!
//! The domain payload format and its binary encoding are external
//! collaborators of the peer-connection core: these types carry the data
//! as plain values, and the codec boundary serializes them.

use vstd::prelude::*;

verus! {

/// A hash of a `Transaction`.
#[derive(Clone, Copy, Debug, PartialEq, Eq)]
pub struct TransactionHash(pub [u8; 32]);

/// A particular transaction output reference.
#[derive(Clone, Copy, Debug, PartialEq, Eq)]
pub struct OutPoint {
    /// References the transaction that contains the UTXO being spent.
    pub hash: TransactionHash,
    /// Identifies which UTXO from that transaction is referenced; the
    /// first output is 0, etc.
    pub index: u32,
}

/// A transaction input: a reference to a previously created output,
/// together with the script that proves authorization to spend it.
#[derive(Clone, Debug, PartialEq, Eq)]
pub struct TransactionInput {
    /// The previous output transaction reference.
    pub previous_output: OutPoint,
    /// Computational script for confirming transaction authorization.
    pub signature_script: Vec<u8>,
    /// Transaction version as defined by the sender. Intended for
    /// "replacement" of transactions when information is updated before
    /// inclusion into a block.
    pub sequence: u32,
}

/// A transaction output: an indivisible, discrete unit of value which can
/// only be consumed in its entirety.
#[derive(Clone, Debug, PartialEq, Eq)]
pub struct TransactionOutput {
    /// Transaction value.
    pub value: u64,
    /// Usually contains the public key as a script setting up conditions
    /// to claim this output.
    pub pk_script: Vec<u8>,
}

/// An encoded data structure that facilitates the transfer of value
/// between two public key addresses.
#[derive(Clone, Debug, PartialEq, Eq)]
pub struct Transaction {
    /// Transaction data format version (note, this is signed).
    pub version: i32,
    /// A list of 1 or more transaction inputs or sources for coins.
    pub tx_in: Vec<TransactionInput>,
    /// A list of 1 or more transaction outputs or destinations for coins.
    pub tx_out: Vec<TransactionOutput>,
    /// The block number or timestamp at which this transaction is
    /// unlocked: 0 for not locked, a block number below 500000000, a Unix
    /// timestamp at or above it. If all inputs have final (0xffffffff)
    /// sequence numbers, `lock_time` is irrelevant.
    pub lock_time: u32,
}

} // verus!
