//! Normalized output shapes: flat, self-describing records in which every
//! account reference is a concrete address string, plus the typed errors the
//! decoder can report.

use vstd::prelude::*;

verus! {

/// A first-element read of an empty sequence the raw data was required to
/// fill: the decoder reports it instead of panicking.
#[derive(Debug, Clone, Copy, PartialEq, Eq)]
pub enum MissingField {
    /// The raw transaction's signature list was empty.
    Signature,
    /// The raw message's static account-key list was empty.
    FeePayer,
}

/// A block decode failure: which contained transaction (by position, in
/// input order) was structurally incomplete, and in what way.
#[derive(Debug, Clone, Copy, PartialEq, Eq)]
pub struct BlockDecodeError {
    pub index: usize,
    pub field: MissingField,
}

/// An instruction with every account reference resolved to an address
/// string; the opaque payload passes through unchanged.
#[derive(Debug)]
pub struct ParsedInstruction {
    pub program_id: String,
    pub accounts: Vec<String>,
    pub data: String,
}

/// A normalized transaction: self-contained, no index-based references left.
#[derive(Debug)]
pub struct ParsedTransaction {
    pub signature: String,
    pub fee_payer: String,
    pub is_success: bool,
    /// The full account table the instruction indices were resolved against.
    pub account_keys: Vec<String>,
    pub instructions: Vec<ParsedInstruction>,
    pub log_messages: Vec<String>,
    pub pre_balances: Vec<u64>,
    pub post_balances: Vec<u64>,
    pub fee: u64,
    pub compute_units_consumed: Option<u64>,
}

/// A reward record copied through from the raw block.
#[derive(Debug)]
pub struct BlockReward {
    pub pubkey: String,
    pub lamports: i64,
    pub post_balance: u64,
    pub reward_type: String,
    pub commission: Option<u8>,
}

/// A normalized block: header fields, rewards, and the normalized
/// transactions in input order.
#[derive(Debug)]
pub struct ParsedBlock {
    pub block_height: u64,
    pub block_time: i64,
    pub blockhash: String,
    pub parent_slot: u64,
    pub previous_blockhash: String,
    pub rewards: Vec<BlockReward>,
    pub transactions: Vec<ParsedTransaction>,
}

} // verus!
