use web3_types::{tx_receipt_from_storage_receipt, TxData, Web3TxData, Web3TxReceipt, NO_INDEX};

fn confirmed_record() -> Web3TxData {
    Web3TxData {
        tx_hash: vec![0x11; 32],
        block_hash: Some(vec![0x22; 32]),
        block_number: Some(42),
        block_index: Some(3),
        from_account: vec![0x33; 20],
        to_account: Some(vec![0x44; 20]),
        nonce: 9,
    }
}

#[test]
fn tx_data_from_confirmed_record() {
    let d = TxData::from_record(confirmed_record());
    assert_eq!(d.block_hash, Some([0x22; 32]));
    assert_eq!(d.block_number, Some(42));
    assert_eq!(d.block_index, Some(3));
    assert_eq!(d.from, [0x33; 20]);
    assert_eq!(d.to, Some([0x44; 20]));
    assert_eq!(d.nonce, 9);
    assert_eq!(d.tx_hash, [0x11; 32]);
}

#[test]
fn tx_data_keeps_byte_order() {
    let mut rec = confirmed_record();
    rec.tx_hash = (0u8..32).collect();
    rec.from_account = (100u8..120).collect();
    let d = TxData::from_record(rec);
    let expected_hash: Vec<u8> = (0u8..32).collect();
    let expected_from: Vec<u8> = (100u8..120).collect();
    assert_eq!(d.tx_hash.to_vec(), expected_hash);
    assert_eq!(d.from.to_vec(), expected_from);
}

#[test]
fn tx_data_contract_creation_has_no_receiver() {
    let mut rec = confirmed_record();
    rec.to_account = None;
    assert_eq!(TxData::from_record(rec).to, None);
}

#[test]
fn tx_data_pending_has_no_location() {
    let rec = Web3TxData {
        block_hash: None,
        block_number: None,
        block_index: None,
        ..confirmed_record()
    };
    let d = TxData::from_record(rec);
    assert_eq!(d.block_hash, None);
    assert!(d.block_number.is_none() && d.block_index.is_none());
}

#[test]
fn tx_data_truncates_wide_numbers() {
    let mut rec = confirmed_record();
    rec.block_number = Some((1i64 << 32) + 5);
    rec.nonce = (1i64 << 33) + 7;
    let d = TxData::from_record(rec);
    assert_eq!(d.block_number, Some(5));
    assert_eq!(d.nonce, 7);
}

fn receipt_record(success: bool, block_index: Option<i32>) -> Web3TxReceipt {
    Web3TxReceipt {
        tx_hash: vec![0xaa; 32],
        block_number: 1000,
        block_index,
        block_hash: vec![0xbb; 32],
        success,
    }
}

#[test]
fn receipt_of_successful_tx() {
    let r = tx_receipt_from_storage_receipt(receipt_record(true, Some(2)));
    assert_eq!(r.transaction_hash, [0xaa; 32]);
    assert_eq!(r.transaction_index, 2);
    assert_eq!(r.block_hash, Some([0xbb; 32]));
    assert_eq!(r.root, Some([0xbb; 32]));
    assert_eq!(r.block_number, Some(1000));
    assert_eq!(r.cumulative_gas_used, 0);
    assert_eq!(r.gas_used, Some(0));
    assert_eq!(r.contract_address, None);
    assert!(r.logs.is_empty());
    assert_eq!(r.status, Some(1));
    assert!(r.logs_bloom.iter().all(|b| *b == 0));
    assert_eq!(r.logs_bloom.len(), 256);
}

#[test]
fn receipt_of_failed_tx() {
    let r = tx_receipt_from_storage_receipt(receipt_record(false, Some(0)));
    assert_eq!(r.status, Some(0));
    assert_eq!(r.transaction_index, 0);
}

#[test]
fn receipt_without_index_uses_sentinel() {
    let r = tx_receipt_from_storage_receipt(receipt_record(false, None));
    assert_eq!(r.transaction_index, u64::MAX);
    assert_eq!(NO_INDEX, u64::MAX);
}
