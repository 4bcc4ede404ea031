use web3::types::Transaction;
use web3_types::{Block, BlockInfo, BLOCK_GAS_LIMIT};

fn hashes_block(info: BlockInfo) -> Block<[u8; 32]> {
    match info {
        BlockInfo::BlockWithHashes(b) => b,
        BlockInfo::BlockWithTxs(_) => panic!("expected the hashes shape"),
    }
}

fn txs_block(info: BlockInfo) -> Block<Transaction> {
    match info {
        BlockInfo::BlockWithTxs(b) => b,
        BlockInfo::BlockWithHashes(_) => panic!("expected the full transactions shape"),
    }
}

#[test]
fn block_with_hashes_fields() {
    let hash = [7u8; 32];
    let parent = [3u8; 32];
    let b = hashes_block(BlockInfo::new_with_hashes(hash, parent, 12, 1_600_000_000, vec![[1u8; 32], [2u8; 32]]));
    assert_eq!(b.hash, Some(hash));
    assert_eq!(b.parent_hash, parent);
    assert_eq!(b.state_root, hash);
    assert_eq!(b.transactions_root, hash);
    assert_eq!(b.receipts_root, hash);
    assert_eq!(b.number, Some(12));
    assert_eq!(b.timestamp, 1_600_000_000);
    assert_eq!(b.transactions, vec![[1u8; 32], [2u8; 32]]);
}

#[test]
fn block_placeholders() {
    let b = hashes_block(BlockInfo::new_with_hashes([9u8; 32], [8u8; 32], u32::MAX, u64::MAX, vec![]));
    assert_eq!(b.uncles_hash, [0u8; 32]);
    assert_eq!(b.author, [0u8; 20]);
    assert_eq!(b.gas_used, 0);
    assert_eq!(b.gas_limit, 50000);
    assert_eq!(BLOCK_GAS_LIMIT, 50000);
    assert!(b.extra_data.is_empty());
    assert_eq!(b.logs_bloom, None);
    assert_eq!(b.difficulty, 0);
    assert_eq!(b.total_difficulty, Some(0));
    assert!(b.seal_fields.is_empty());
    assert!(b.uncles.is_empty());
    assert_eq!(b.size, None);
    assert_eq!(b.mix_hash, Some([0u8; 32]));
    assert_eq!(b.nonce, Some([0u8; 8]));
    assert_eq!(b.number, Some(u32::MAX as u64));
}

#[test]
fn block_with_txs_keeps_bodies() {
    let tx = Transaction { nonce: 5.into(), ..Default::default() };
    let b = txs_block(BlockInfo::new_with_txs([1u8; 32], [0u8; 32], 4, 10, vec![tx.clone()]));
    assert_eq!(b.transactions, vec![tx]);
    assert_eq!(b.gas_limit, 50000);
    assert_eq!(b.number, Some(4));
}

#[test]
fn both_shapes_agree_but_transactions() {
    let hash = [0xabu8; 32];
    let parent = [0xcdu8; 32];
    let a = hashes_block(BlockInfo::new_with_hashes(hash, parent, 77, 123, vec![[5u8; 32]]));
    let b = txs_block(BlockInfo::new_with_txs(hash, parent, 77, 123, vec![Transaction::default()]));
    assert_eq!(a.hash, b.hash);
    assert_eq!(a.parent_hash, b.parent_hash);
    assert_eq!(a.uncles_hash, b.uncles_hash);
    assert_eq!(a.author, b.author);
    assert_eq!(a.state_root, b.state_root);
    assert_eq!(a.transactions_root, b.transactions_root);
    assert_eq!(a.receipts_root, b.receipts_root);
    assert_eq!(a.number, b.number);
    assert_eq!(a.gas_used, b.gas_used);
    assert_eq!(a.gas_limit, b.gas_limit);
    assert_eq!(a.extra_data, b.extra_data);
    assert_eq!(a.logs_bloom, b.logs_bloom);
    assert_eq!(a.timestamp, b.timestamp);
    assert_eq!(a.difficulty, b.difficulty);
    assert_eq!(a.total_difficulty, b.total_difficulty);
    assert_eq!(a.seal_fields, b.seal_fields);
    assert_eq!(a.uncles, b.uncles);
    assert_eq!(a.size, b.size);
    assert_eq!(a.mix_hash, b.mix_hash);
    assert_eq!(a.nonce, b.nonce);
}
