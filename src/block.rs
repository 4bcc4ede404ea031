//! Ethereum-shaped blocks built from the few fields that the chain keeps.
use vstd::prelude::*;
use web3::types::Transaction;
use crate::primitives::{zero_bytes, zeros, H160, H2048, H256, H64};

verus! {

/// Full transaction bodies are carried through as the Web3 type.
#[verifier::external_type_specification]
#[verifier::external_body]
pub struct ExTransaction(web3::types::Transaction);

/// The gas limit that every block reports.
pub const BLOCK_GAS_LIMIT: u64 = 50000;

/// A block in the shape of the Web3 API. Quantities that the wire writes as
/// 256-bit numbers are held as `u64`.
#[derive(Clone, Debug, PartialEq)]
pub struct Block<TX> {
    pub hash: Option<H256>,
    pub parent_hash: H256,
    pub uncles_hash: H256,
    pub author: H160,
    pub state_root: H256,
    pub transactions_root: H256,
    pub receipts_root: H256,
    pub number: Option<u64>,
    pub gas_used: u64,
    pub gas_limit: u64,
    pub extra_data: Vec<u8>,
    pub logs_bloom: Option<H2048>,
    pub timestamp: u64,
    pub difficulty: u64,
    pub total_difficulty: Option<u64>,
    pub seal_fields: Vec<Vec<u8>>,
    pub uncles: Vec<H256>,
    pub transactions: Vec<TX>,
    pub size: Option<u64>,
    pub mix_hash: Option<H256>,
    pub nonce: Option<H64>,
}

/// A block with either the hashes of its transactions or their full bodies.
/// On the wire the two are told apart only by the shape of `transactions`.
#[derive(Clone, Debug, PartialEq)]
pub enum BlockInfo {
    BlockWithHashes(Block<H256>),
    BlockWithTxs(Block<Transaction>),
}

/// The fields that the chain does not track hold fixed values: zero uncles
/// hash, author, gas used, difficulty, mix hash and nonce, the fixed gas limit,
/// no extra data, seal fields or uncles, and no logs bloom or size.
pub open spec fn has_placeholders<TX>(b: Block<TX>) -> bool {
    &&& b.uncles_hash@ == zeros(32)
    &&& b.author@ == zeros(20)
    &&& b.gas_used == 0
    &&& b.gas_limit == BLOCK_GAS_LIMIT
    &&& b.extra_data@.len() == 0
    &&& b.logs_bloom is None
    &&& b.difficulty == 0
    &&& b.total_difficulty == Some(0u64)
    &&& b.seal_fields@.len() == 0
    &&& b.uncles@.len() == 0
    &&& b.size is None
    &&& b.mix_hash matches Some(h) && h@ == zeros(32)
    &&& b.nonce matches Some(n) && n@ == zeros(8)
}

/// The block carries the given metadata: `hash` stands for the block hash and
/// for the state, transactions and receipts roots alike.
pub open spec fn carries<TX>(
    b: Block<TX>,
    hash: H256,
    parent_hash: H256,
    block_number: u32,
    timestamp: u64,
) -> bool {
    &&& b.hash == Some(hash)
    &&& b.parent_hash == parent_hash
    &&& b.state_root == hash
    &&& b.transactions_root == hash
    &&& b.receipts_root == hash
    &&& b.number == Some(block_number as u64)
    &&& b.timestamp == timestamp
}

/// The block built from the given metadata and transactions.
pub open spec fn built_from<TX>(
    b: Block<TX>,
    hash: H256,
    parent_hash: H256,
    block_number: u32,
    timestamp: u64,
    transactions: Seq<TX>,
) -> bool {
    has_placeholders(b) && carries(b, hash, parent_hash, block_number, timestamp)
        && b.transactions@ == transactions
}

/// Two blocks agree on every field but `transactions`.
pub open spec fn same_but_transactions<A, B>(a: Block<A>, b: Block<B>) -> bool {
    &&& a.hash == b.hash
    &&& a.parent_hash == b.parent_hash
    &&& a.uncles_hash == b.uncles_hash
    &&& a.author == b.author
    &&& a.state_root == b.state_root
    &&& a.transactions_root == b.transactions_root
    &&& a.receipts_root == b.receipts_root
    &&& a.number == b.number
    &&& a.gas_used == b.gas_used
    &&& a.gas_limit == b.gas_limit
    &&& a.extra_data@ == b.extra_data@
    &&& a.logs_bloom == b.logs_bloom
    &&& a.timestamp == b.timestamp
    &&& a.difficulty == b.difficulty
    &&& a.total_difficulty == b.total_difficulty
    &&& a.seal_fields@ == b.seal_fields@
    &&& a.uncles@ == b.uncles@
    &&& a.size == b.size
    &&& a.mix_hash == b.mix_hash
    &&& a.nonce == b.nonce
}

impl BlockInfo {
    fn new_block<T>(
        hash: H256,
        parent_hash: H256,
        block_number: u32,
        timestamp: u64,
        transactions: Vec<T>,
    ) -> (r: Block<T>)
        ensures
            built_from(r, hash, parent_hash, block_number, timestamp, transactions@),
    {
        Block {
            hash: Some(hash),
            parent_hash,
            uncles_hash: zero_bytes(),
            author: zero_bytes(),
            state_root: hash,
            transactions_root: hash,
            receipts_root: hash,
            number: Some(block_number as u64),
            gas_used: 0,
            gas_limit: BLOCK_GAS_LIMIT,
            extra_data: Vec::new(),
            logs_bloom: None,
            timestamp,
            difficulty: 0,
            total_difficulty: Some(0),
            seal_fields: Vec::new(),
            uncles: Vec::new(),
            transactions,
            size: None,
            mix_hash: Some(zero_bytes()),
            nonce: Some(zero_bytes()),
        }
    }

    /// A block whose transactions are given by their hashes.
    pub fn new_with_hashes(
        hash: H256,
        parent_hash: H256,
        block_number: u32,
        timestamp: u64,
        transactions: Vec<H256>,
    ) -> (r: Self)
        ensures
            r matches BlockInfo::BlockWithHashes(b) && built_from(
                b,
                hash,
                parent_hash,
                block_number,
                timestamp,
                transactions@,
            ),
    {
        BlockInfo::BlockWithHashes(Self::new_block(hash, parent_hash, block_number, timestamp, transactions))
    }

    /// A block whose transactions are given in full.
    pub fn new_with_txs(
        hash: H256,
        parent_hash: H256,
        block_number: u32,
        timestamp: u64,
        transactions: Vec<Transaction>,
    ) -> (r: Self)
        ensures
            r matches BlockInfo::BlockWithTxs(b) && built_from(
                b,
                hash,
                parent_hash,
                block_number,
                timestamp,
                transactions@,
            ),
    {
        BlockInfo::BlockWithTxs(Self::new_block(hash, parent_hash, block_number, timestamp, transactions))
    }
}

/// Blocks built from the same metadata agree on every field but
/// `transactions`, whatever the transactions are and whichever shape they take.
pub proof fn lemma_same_metadata_same_fields<A, B>(
    a: Block<A>,
    b: Block<B>,
    hash: H256,
    parent_hash: H256,
    block_number: u32,
    timestamp: u64,
    transactions_a: Seq<A>,
    transactions_b: Seq<B>,
)
    requires
        built_from(a, hash, parent_hash, block_number, timestamp, transactions_a),
        built_from(b, hash, parent_hash, block_number, timestamp, transactions_b),
    ensures
        same_but_transactions(a, b),
{
    broadcast use vstd::array::group_array_axioms;

    assert(a.uncles_hash =~= b.uncles_hash);
    assert(a.author =~= b.author);
    assert(a.mix_hash->Some_0 =~= b.mix_hash->Some_0);
    assert(a.nonce->Some_0 =~= b.nonce->Some_0);
    assert(a.extra_data@ =~= b.extra_data@);
    assert(a.seal_fields@ =~= b.seal_fields@);
    assert(a.uncles@ =~= b.uncles@);
}

} // verus!
