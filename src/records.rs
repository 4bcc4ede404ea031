//! Storage projections of transactions and receipts, and their Web3 shapes.
use vstd::prelude::*;
use web3::types::Log;
use crate::primitives::{fixed_bytes, zero_bytes, zeros, H160, H2048, H256};

verus! {

/// Receipt logs are carried through as the Web3 type.
#[verifier::external_type_specification]
#[verifier::external_body]
pub struct ExLog(web3::types::Log);

/// The stored projection of a transaction and where it stands in the chain.
/// Hashes are 32 bytes and addresses 20 bytes long.
#[derive(Clone, Debug, PartialEq, Eq)]
pub struct Web3TxData {
    pub tx_hash: Vec<u8>,
    pub block_hash: Option<Vec<u8>>,
    pub block_number: Option<i64>,
    pub block_index: Option<i32>,
    pub from_account: Vec<u8>,
    pub to_account: Option<Vec<u8>>,
    pub nonce: i64,
}

/// The stored projection of an executed transaction's receipt.
#[derive(Clone, Debug, PartialEq, Eq)]
pub struct Web3TxReceipt {
    pub tx_hash: Vec<u8>,
    pub block_number: i64,
    pub block_index: Option<i32>,
    pub block_hash: Vec<u8>,
    pub success: bool,
}

/// Where a transaction stands: block, position in it, sender and receiver.
#[derive(Clone, Debug, PartialEq, Eq)]
pub struct TxData {
    pub block_hash: Option<H256>,
    pub block_number: Option<u32>,
    pub block_index: Option<u32>,
    pub from: H160,
    pub to: Option<H160>,
    pub nonce: u32,
    pub tx_hash: H256,
}

/// A transaction receipt in the shape of the Web3 API. Quantities that the
/// wire writes as 256-bit numbers are held as `u64`.
#[derive(Clone, Debug, PartialEq)]
pub struct TransactionReceipt {
    pub transaction_hash: H256,
    pub transaction_index: u64,
    pub block_hash: Option<H256>,
    pub block_number: Option<u64>,
    pub cumulative_gas_used: u64,
    pub gas_used: Option<u64>,
    pub contract_address: Option<H160>,
    pub logs: Vec<Log>,
    pub status: Option<u64>,
    pub root: Option<H256>,
    pub logs_bloom: H2048,
}

/// The byte strings of the record have the lengths of their fixed-width types.
pub open spec fn tx_record_well_sized(tx: Web3TxData) -> bool {
    &&& tx.tx_hash@.len() == 32
    &&& tx.from_account@.len() == 20
    &&& (tx.block_hash matches Some(h) ==> h@.len() == 32)
    &&& (tx.to_account matches Some(a) ==> a@.len() == 20)
}

/// An unconfirmed transaction has no block number or index.
pub open spec fn record_location_consistent(tx: Web3TxData) -> bool {
    tx.block_hash is None ==> tx.block_number is None && tx.block_index is None
}

/// An unconfirmed transaction has no block number or index.
pub open spec fn location_consistent(d: TxData) -> bool {
    d.block_hash is None ==> d.block_number is None && d.block_index is None
}

/// `d` is `tx` with its byte strings made fixed-width and its integers cut to
/// 32 bits (values that do not fit keep their low 32 bits).
pub open spec fn converts_tx(tx: Web3TxData, d: TxData) -> bool {
    &&& (match tx.block_hash {
        Some(h) => d.block_hash matches Some(x) && x@ == h@,
        None => d.block_hash is None,
    })
    &&& d.block_number == (match tx.block_number {
        Some(n) => Some(n as u32),
        None => None,
    })
    &&& d.block_index == (match tx.block_index {
        Some(i) => Some(i as u32),
        None => None,
    })
    &&& d.from@ == tx.from_account@
    &&& (match tx.to_account {
        Some(a) => d.to matches Some(x) && x@ == a@,
        None => d.to is None,
    })
    &&& d.nonce == tx.nonce as u32
    &&& d.tx_hash@ == tx.tx_hash@
}

/// The receipt's status: 1 for success, 0 for failure.
pub open spec fn status_of(success: bool) -> u64 {
    if success {
        1
    } else {
        0
    }
}

/// The index written for a transaction that has no index in its block.
pub const NO_INDEX: u64 = 0xffff_ffff_ffff_ffff;

/// A receipt record whose numbers the Web3 quantities can hold.
pub open spec fn receipt_record_valid(tx: Web3TxReceipt) -> bool {
    &&& tx.tx_hash@.len() == 32
    &&& tx.block_hash@.len() == 32
    &&& tx.block_number >= 0
    &&& (tx.block_index matches Some(i) ==> i >= 0)
}

impl TxData {
    /// The location record of a stored transaction.
    pub fn from_record(tx: Web3TxData) -> (r: TxData)
        requires
            tx_record_well_sized(tx),
        ensures
            converts_tx(tx, r),
    {
        let block_hash = match &tx.block_hash {
            Some(h) => Some(fixed_bytes::<32>(h.as_slice())),
            None => None,
        };
        let block_number = match tx.block_number {
            Some(n) => Some(#[verifier::truncate] (n as u32)),
            None => None,
        };
        let block_index = match tx.block_index {
            Some(i) => Some(#[verifier::truncate] (i as u32)),
            None => None,
        };
        let to = match &tx.to_account {
            Some(a) => Some(fixed_bytes::<20>(a.as_slice())),
            None => None,
        };
        TxData {
            block_hash,
            block_number,
            block_index,
            from: fixed_bytes::<20>(tx.from_account.as_slice()),
            to,
            nonce: #[verifier::truncate] (tx.nonce as u32),
            tx_hash: fixed_bytes::<32>(tx.tx_hash.as_slice()),
        }
    }
}

/// A record whose location is consistent gives a location that is consistent.
pub proof fn lemma_location_consistency_kept(tx: Web3TxData, d: TxData)
    requires
        record_location_consistent(tx),
        converts_tx(tx, d),
    ensures
        location_consistent(d),
{
}

/// The Web3 receipt of a stored receipt. The block hash stands for the root
/// as well; a transaction without an index gets `NO_INDEX`.
pub fn tx_receipt_from_storage_receipt(tx: Web3TxReceipt) -> (r: TransactionReceipt)
    requires
        receipt_record_valid(tx),
    ensures
        r.transaction_hash@ == tx.tx_hash@,
        r.transaction_index == (match tx.block_index {
            Some(i) => i as u64,
            None => NO_INDEX,
        }),
        r.block_hash matches Some(h) && h@ == tx.block_hash@,
        r.root == r.block_hash,
        r.block_number == Some(tx.block_number as u64),
        r.cumulative_gas_used == 0,
        r.gas_used == Some(0u64),
        r.contract_address is None,
        r.logs@.len() == 0,
        r.status == Some(status_of(tx.success)),
        r.logs_bloom@ == zeros(256),
{
    let root_hash: H256 = fixed_bytes::<32>(tx.block_hash.as_slice());
    let transaction_index = match tx.block_index {
        Some(i) => i as u64,
        None => NO_INDEX,
    };
    let status: u64 = if tx.success {
        1
    } else {
        0
    };
    TransactionReceipt {
        transaction_hash: fixed_bytes::<32>(tx.tx_hash.as_slice()),
        transaction_index,
        block_hash: Some(root_hash),
        block_number: Some(tx.block_number as u64),
        cumulative_gas_used: 0,
        gas_used: Some(0),
        contract_address: None,
        logs: Vec::new(),
        status: Some(status),
        root: Some(root_hash),
        logs_bloom: zero_bytes(),
    }
}

} // verus!
