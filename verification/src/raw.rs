//! Raw RPC input shapes: the index-based, nested form in which transaction
//! and block data arrives. Loading these from JSON is a host concern; the
//! types here are the well-typed input the decoding core works on.

use vstd::prelude::*;

verus! {

/// Declares `serde_json::Value` so it can be carried through opaquely.
/// A raw meta's error field holds an arbitrary JSON value; the decoder only
/// ever asks whether it is present, never what is inside.
#[verifier::external_type_specification]
#[verifier::external_body]
pub struct ExValue(serde_json::Value);

/// Execution metadata reported alongside a raw transaction.
pub struct RpcMeta {
    /// Present iff the transaction failed.
    pub err: Option<serde_json::Value>,
    pub log_messages: Vec<String>,
    pub pre_balances: Vec<u64>,
    pub post_balances: Vec<u64>,
    /// Addresses supplied at execution time via address-lookup tables,
    /// absent from the message's static key list.
    pub loaded_addresses: Option<RpcLoadedAddresses>,
    pub fee: u64,
    pub compute_units_consumed: Option<u64>,
}

/// The loaded-address extension: two ordered address lists.
pub struct RpcLoadedAddresses {
    pub writable: Vec<String>,
    pub readonly: Vec<String>,
}

/// A raw transaction: its signatures (first one is canonical) and message.
pub struct RpcTransactionContainer {
    pub signatures: Vec<String>,
    pub message: RpcMessage,
}

/// A raw message: the static account-key list and the instruction list.
pub struct RpcMessage {
    pub account_keys: Vec<String>,
    pub instructions: Vec<RpcInstruction>,
}

/// A raw instruction: indices into the account table plus an opaque payload.
pub struct RpcInstruction {
    pub program_id_index: usize,
    pub accounts: Vec<usize>,
    pub data: String,
}

/// A protocol-level balance credit reported alongside a block.
pub struct RpcReward {
    pub pubkey: String,
    pub lamports: i64,
    pub post_balance: u64,
    pub reward_type: String,
    pub commission: Option<u8>,
}

/// One block entry: a raw transaction together with its metadata.
pub struct RpcBlockTransaction {
    pub meta: RpcMeta,
    pub transaction: RpcTransactionContainer,
}

/// A raw block: header fields, rewards, and the contained transactions.
pub struct RpcBlockResult {
    pub block_height: u64,
    pub block_time: i64,
    pub blockhash: String,
    pub parent_slot: u64,
    pub previous_blockhash: String,
    pub rewards: Vec<RpcReward>,
    pub transactions: Vec<RpcBlockTransaction>,
}

} // verus!
