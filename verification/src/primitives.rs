//! The plain values that the protocol speaks of: addresses, hashes,
//! receipts, and the failure of the remote side.

use vstd::prelude::*;

verus! {

/// A 20-byte account address on the ledger.
#[derive(Clone, Copy, Debug)]
pub struct Address {
    pub bytes: [u8; 20],
}

impl Address {
    /// Whether every byte of the address is zero.
    pub open spec fn is_zero(&self) -> bool {
        forall|i: int| 0 <= i < 20 ==> self.bytes[i] == 0u8
    }

    /// The address whose bytes are all zero.
    pub fn zero() -> (a: Address)
        ensures
            a.is_zero(),
    {
        Address { bytes: [0u8; 20] }
    }
}

impl PartialEq for Address {
    fn eq(&self, other: &Address) -> (r: bool) {
        let mut i: usize = 0;
        while i < 20
            invariant
                i <= 20,
                forall|j: int| 0 <= j < i ==> self.bytes[j] == other.bytes[j],
            decreases 20 - i,
        {
            if self.bytes[i] != other.bytes[i] {
                return false;
            }
            i = i + 1;
        }
        assert(self.bytes =~= other.bytes);
        true
    }
}

impl Eq for Address {

}

impl vstd::std_specs::cmp::PartialEqSpecImpl for Address {
    open spec fn obeys_eq_spec() -> bool {
        true
    }

    open spec fn eq_spec(&self, other: &Address) -> bool {
        *self == *other
    }
}

impl Default for Address {
    fn default() -> (a: Address)
        ensures
            a.is_zero(),
    {
        Address::zero()
    }
}

/// A 32-byte hash: of a transaction, or of an event's signature.
#[derive(Clone, Copy, Debug, PartialEq, Eq)]
pub struct H256 {
    pub bytes: [u8; 32],
}

impl H256 {
    /// Whether every byte of the hash is zero.
    pub open spec fn is_zero(&self) -> bool {
        forall|i: int| 0 <= i < 32 ==> self.bytes[i] == 0u8
    }

    /// The hash whose bytes are all zero.
    pub fn zero() -> (h: H256)
        ensures
            h.is_zero(),
    {
        H256 { bytes: [0u8; 32] }
    }
}

/// The confirmation record of a mutating call: which transaction it was, and
/// the block that holds it once the ledger has taken it in.
#[derive(Clone, Copy, Debug, PartialEq, Eq)]
pub struct TransactionReceipt {
    pub transaction_hash: H256,
    pub block_number: Option<u64>,
}

impl TransactionReceipt {
    /// Whether the receipt names the block that holds the transaction.
    pub open spec fn is_final(&self) -> bool {
        self.block_number is Some
    }

    /// Tells a receipt of a finalized mutation from one of a mutation that
    /// was only submitted.
    pub fn finalized(&self) -> (r: bool)
        ensures
            r == self.is_final(),
    {
        self.block_number.is_some()
    }
}

impl Default for TransactionReceipt {
    fn default() -> (r: TransactionReceipt)
        ensures
            r.block_number is None,
            r.transaction_hash.is_zero(),
    {
        TransactionReceipt { transaction_hash: H256::zero(), block_number: None }
    }
}

/// A failure below the validator: the remote resource could not be reached,
/// answered with something unreadable, rejected the mutating call, or never
/// reported finality. The text is the cause as the remote side gave it.
#[derive(Debug, PartialEq, Eq)]
pub enum RemoteError {
    Connectivity(String),
    Decode(String),
    Rejected(String),
    Finality(String),
    /// An answer arrived that does not belong to the request that was open.
    OutOfTurn,
}

impl Clone for RemoteError {
    fn clone(&self) -> (e: RemoteError)
        ensures
            e == *self,
    {
        match self {
            RemoteError::Connectivity(cause) => RemoteError::Connectivity(cause.clone()),
            RemoteError::Decode(cause) => RemoteError::Decode(cause.clone()),
            RemoteError::Rejected(cause) => RemoteError::Rejected(cause.clone()),
            RemoteError::Finality(cause) => RemoteError::Finality(cause.clone()),
            RemoteError::OutOfTurn => RemoteError::OutOfTurn,
        }
    }
}

} // verus!
