//! Web3 JSON-RPC shapes for blocks, transactions and receipts, and the
//! textual block reference codec, with their conversions proved correct.
pub mod block;
pub mod block_number;
pub mod hex;
pub mod primitives;
pub mod records;

pub use block::{Block, BlockInfo, BLOCK_GAS_LIMIT};
pub use block_number::{BlockNumber, DecodeError};
pub use primitives::{H160, H2048, H256, H64};
pub use records::{
    tx_receipt_from_storage_receipt, TransactionReceipt, TxData, Web3TxData, Web3TxReceipt, NO_INDEX,
};
