//! The decoding core: account-table assembly, index resolution, and
//! normalization of single transactions and whole blocks.

use crate::parsed::{
    BlockDecodeError, BlockReward, MissingField, ParsedBlock, ParsedInstruction, ParsedTransaction,
};
use crate::raw::{
    RpcBlockResult, RpcBlockTransaction, RpcInstruction, RpcLoadedAddresses, RpcMessage, RpcMeta,
    RpcReward, RpcTransactionContainer,
};
use crate::sentinel::{unknown_idx_sentinel, unknown_index_string, unknown_program_sentinel};
use vstd::prelude::*;
use vstd::string::StringExecFns;

verus! {

/// The account table a message's indices resolve against: the static keys
/// followed by the loaded writable addresses, then the loaded readonly ones.
pub open spec fn spec_table(keys: Seq<String>, loaded: Option<RpcLoadedAddresses>) -> Seq<String> {
    keys + match loaded {
        Some(l) => l.writable@ + l.readonly@,
        None => Seq::<String>::empty(),
    }
}

/// What a program-id index resolves to: the table entry if in range, the
/// fixed program sentinel otherwise.
pub open spec fn spec_resolve_program(table: Seq<String>, idx: int) -> Seq<char> {
    if 0 <= idx < table.len() {
        table[idx]@
    } else {
        unknown_program_sentinel()
    }
}

/// What an account index resolves to: the table entry if in range, the
/// index-tagged sentinel otherwise.
pub open spec fn spec_resolve_account(table: Seq<String>, idx: nat) -> Seq<char> {
    if idx < table.len() {
        table[idx as int]@
    } else {
        unknown_idx_sentinel(idx)
    }
}

/// A parsed instruction is the raw instruction with its program index and
/// every account index resolved against `table`, the payload unchanged.
pub open spec fn ix_resolves_to(table: Seq<String>, ix: RpcInstruction, p: ParsedInstruction) -> bool {
    &&& p.program_id@ == spec_resolve_program(table, ix.program_id_index as int)
    &&& p.accounts@.len() == ix.accounts@.len()
    &&& forall|j: int|
        0 <= j < ix.accounts@.len() ==> (#[trigger] p.accounts@[j])@ == spec_resolve_account(
            table,
            ix.accounts@[j] as nat,
        )
    &&& p.data == ix.data
}

/// A normalized transaction is the raw pair with the canonical signature and
/// fee payer read off, the success flag derived from the error's absence,
/// every instruction resolved against the assembled table, and the remaining
/// metadata copied through verbatim.
pub open spec fn tx_normalizes_to(
    tx: RpcTransactionContainer,
    meta: RpcMeta,
    p: ParsedTransaction,
) -> bool {
    let table = spec_table(tx.message.account_keys@, meta.loaded_addresses);
    &&& p.signature == tx.signatures@[0]
    &&& p.fee_payer == tx.message.account_keys@[0]
    &&& p.is_success == (meta.err is None)
    &&& p.account_keys@ == table
    &&& p.instructions@.len() == tx.message.instructions@.len()
    &&& forall|i: int|
        0 <= i < tx.message.instructions@.len() ==> ix_resolves_to(
            table,
            tx.message.instructions@[i],
            #[trigger] p.instructions@[i],
        )
    &&& p.log_messages == meta.log_messages
    &&& p.pre_balances == meta.pre_balances
    &&& p.post_balances == meta.post_balances
    &&& p.fee == meta.fee
    &&& p.compute_units_consumed == meta.compute_units_consumed
}

/// A block entry is structurally complete: its first-element reads (canonical
/// signature, fee payer) are defined.
pub open spec fn tx_decodable(t: RpcBlockTransaction) -> bool {
    t.transaction.signatures@.len() > 0 && t.transaction.message.account_keys@.len() > 0
}

/// Which first-element read fails on a structurally incomplete block entry.
pub open spec fn missing_field_of(t: RpcBlockTransaction) -> MissingField {
    if t.transaction.signatures@.len() == 0 {
        MissingField::Signature
    } else {
        MissingField::FeePayer
    }
}

/// A reward record copied through field by field.
pub open spec fn spec_reward(r: RpcReward) -> BlockReward {
    BlockReward {
        pubkey: r.pubkey,
        lamports: r.lamports,
        post_balance: r.post_balance,
        reward_type: r.reward_type,
        commission: r.commission,
    }
}

/// Appends a clone of every element of `src` to `dst`, in order.
fn extend_cloned(dst: &mut Vec<String>, src: &Vec<String>)
    ensures
        final(dst)@ == old(dst)@ + src@,
{
    let mut i: usize = 0;
    while i < src.len()
        invariant
            i <= src@.len(),
            dst@ == old(dst)@ + src@.subrange(0, i as int),
        decreases src@.len() - i,
    {
        dst.push(src[i].clone());
        proof {
            assert(src@.subrange(0, i + 1) =~= src@.subrange(0, i as int).push(src@[i as int]));
            assert(dst@ =~= old(dst)@ + src@.subrange(0, i + 1));
        }
        i = i + 1;
    }
    proof {
        assert(src@.subrange(0, src@.len() as int) =~= src@);
    }
}

/// Builds the account table for one transaction: the message's static keys
/// followed by the loaded writable and then readonly addresses. Order and
/// duplicates are preserved exactly — indices are defined relative to this
/// order, and a duplicated address occupies two individually resolvable
/// positions. Pure concatenation; always succeeds.
pub fn build_account_table(
    account_keys: &Vec<String>,
    loaded: &Option<RpcLoadedAddresses>,
) -> (table: Vec<String>)
    ensures
        table@ == spec_table(account_keys@, *loaded),
{
    let mut table: Vec<String> = Vec::new();
    extend_cloned(&mut table, account_keys);
    match loaded {
        Some(l) => {
            extend_cloned(&mut table, &l.writable);
            extend_cloned(&mut table, &l.readonly);
        },
        None => {},
    }
    proof {
        assert(table@ =~= spec_table(account_keys@, *loaded));
    }
    table
}

/// Resolves a program-id index against the account table. Total: an
/// out-of-range index degrades to the fixed program sentinel instead of
/// failing the decode.
pub fn resolve_program(table: &Vec<String>, idx: usize) -> (r: String)
    ensures
        r@ == spec_resolve_program(table@, idx as int),
{
    if idx < table.len() {
        table[idx].clone()
    } else {
        String::from_str("UNKNOWN_PROGRAM_INDEX")
    }
}

/// Resolves an account index against the account table. Total: an
/// out-of-range index degrades to a sentinel embedding that index instead of
/// failing the decode.
pub fn resolve_account(table: &Vec<String>, idx: usize) -> (r: String)
    ensures
        r@ == spec_resolve_account(table@, idx as nat),
{
    if idx < table.len() {
        table[idx].clone()
    } else {
        unknown_index_string(idx)
    }
}

/// Normalizes one raw instruction against the account table.
fn parse_instruction(table: &Vec<String>, ix: &RpcInstruction) -> (p: ParsedInstruction)
    ensures
        ix_resolves_to(table@, *ix, p),
{
    let program_id = resolve_program(table, ix.program_id_index);
    let mut accounts: Vec<String> = Vec::new();
    let mut j: usize = 0;
    while j < ix.accounts.len()
        invariant
            j <= ix.accounts@.len(),
            accounts@.len() == j,
            forall|k: int|
                0 <= k < j ==> (#[trigger] accounts@[k])@ == spec_resolve_account(
                    table@,
                    ix.accounts@[k] as nat,
                ),
        decreases ix.accounts@.len() - j,
    {
        accounts.push(resolve_account(table, ix.accounts[j]));
        j = j + 1;
    }
    ParsedInstruction { program_id, accounts, data: ix.data.clone() }
}

/// Normalizes one raw transaction against its metadata.
///
/// The two first-element reads are the only failure conditions: an empty
/// signature list or an empty static account-key list yields the matching
/// `MissingField` error. On any other input the decode succeeds; unresolvable
/// indices degrade to sentinels locally and never abort the decode.
pub fn parse_single_transaction(tx: RpcTransactionContainer, meta: RpcMeta) -> (r: Result<
    ParsedTransaction,
    MissingField,
>)
    ensures
        r is Ok <==> tx.signatures@.len() > 0 && tx.message.account_keys@.len() > 0,
        tx.signatures@.len() == 0 ==> r == Err::<ParsedTransaction, MissingField>(
            MissingField::Signature,
        ),
        tx.signatures@.len() > 0 && tx.message.account_keys@.len() == 0 ==> r == Err::<
            ParsedTransaction,
            MissingField,
        >(MissingField::FeePayer),
        r matches Ok(p) ==> tx_normalizes_to(tx, meta, p),
{
    if tx.signatures.len() == 0 {
        return Err(MissingField::Signature);
    }
    if tx.message.account_keys.len() == 0 {
        return Err(MissingField::FeePayer);
    }
    let table = build_account_table(&tx.message.account_keys, &meta.loaded_addresses);
    let mut instructions: Vec<ParsedInstruction> = Vec::new();
    let mut i: usize = 0;
    while i < tx.message.instructions.len()
        invariant
            i <= tx.message.instructions@.len(),
            instructions@.len() == i,
            table@ == spec_table(tx.message.account_keys@, meta.loaded_addresses),
            forall|k: int|
                0 <= k < i ==> ix_resolves_to(
                    table@,
                    tx.message.instructions@[k],
                    #[trigger] instructions@[k],
                ),
        decreases tx.message.instructions@.len() - i,
    {
        let p = parse_instruction(&table, &tx.message.instructions[i]);
        instructions.push(p);
        i = i + 1;
    }
    Ok(
        ParsedTransaction {
            signature: tx.signatures[0].clone(),
            fee_payer: tx.message.account_keys[0].clone(),
            is_success: meta.err.is_none(),
            account_keys: table,
            instructions,
            log_messages: meta.log_messages,
            pre_balances: meta.pre_balances,
            post_balances: meta.post_balances,
            fee: meta.fee,
            compute_units_consumed: meta.compute_units_consumed,
        },
    )
}

/// Normalizes a raw block: header fields and rewards are copied through, and
/// every contained transaction is normalized in input order.
///
/// Succeeds iff every contained transaction is structurally complete; the
/// decode fails fast on the first incomplete one, reporting its position in
/// input order and which first-element read was undefined.
pub fn parse_block(block: RpcBlockResult) -> (r: Result<ParsedBlock, BlockDecodeError>)
    ensures
        r is Ok <==> (forall|i: int|
            0 <= i < block.transactions@.len() ==> tx_decodable(#[trigger] block.transactions@[i])),
        r matches Ok(b) ==> {
            &&& b.block_height == block.block_height
            &&& b.block_time == block.block_time
            &&& b.blockhash == block.blockhash
            &&& b.parent_slot == block.parent_slot
            &&& b.previous_blockhash == block.previous_blockhash
            &&& b.rewards@.len() == block.rewards@.len()
            &&& forall|i: int|
                0 <= i < block.rewards@.len() ==> #[trigger] b.rewards@[i] == spec_reward(
                    block.rewards@[i],
                )
            &&& b.transactions@.len() == block.transactions@.len()
            &&& forall|i: int|
                0 <= i < block.transactions@.len() ==> tx_normalizes_to(
                    block.transactions@[i].transaction,
                    block.transactions@[i].meta,
                    #[trigger] b.transactions@[i],
                )
        },
        r matches Err(e) ==> {
            &&& e.index < block.transactions@.len()
            &&& !tx_decodable(block.transactions@[e.index as int])
            &&& forall|k: int| 0 <= k < e.index ==> tx_decodable(#[trigger] block.transactions@[k])
            &&& e.field == missing_field_of(block.transactions@[e.index as int])
        },
{
    let mut rewards: Vec<BlockReward> = Vec::new();
    let mut i: usize = 0;
    while i < block.rewards.len()
        invariant
            i <= block.rewards@.len(),
            rewards@.len() == i,
            forall|k: int|
                0 <= k < i ==> #[trigger] rewards@[k] == spec_reward(block.rewards@[k]),
        decreases block.rewards@.len() - i,
    {
        let rw = &block.rewards[i];
        rewards.push(
            BlockReward {
                pubkey: rw.pubkey.clone(),
                lamports: rw.lamports,
                post_balance: rw.post_balance,
                reward_type: rw.reward_type.clone(),
                commission: rw.commission,
            },
        );
        i = i + 1;
    }
    let mut raw_txs = block.transactions;
    let ghost orig: Seq<RpcBlockTransaction> = raw_txs@;
    let mut txs: Vec<ParsedTransaction> = Vec::new();
    while raw_txs.len() > 0
        invariant
            orig == block.transactions@,
            txs@.len() + raw_txs@.len() == orig.len(),
            raw_txs@ == orig.subrange(txs@.len() as int, orig.len() as int),
            forall|k: int|
                0 <= k < txs@.len() ==> tx_decodable(#[trigger] orig[k]) && tx_normalizes_to(
                    orig[k].transaction,
                    orig[k].meta,
                    txs@[k],
                ),
        decreases raw_txs@.len(),
    {
        let ghost done: int = txs@.len() as int;
        let t = raw_txs.remove(0);
        let ghost tg: RpcBlockTransaction = t;
        proof {
            assert(tg == orig[done]);
            assert(raw_txs@ =~= orig.subrange(done + 1, orig.len() as int));
        }
        let position = txs.len();
        match parse_single_transaction(t.transaction, t.meta) {
            Ok(p) => {
                proof {
                    assert(tx_decodable(orig[done]));
                }
                txs.push(p);
            },
            Err(f) => {
                proof {
                    assert(!tx_decodable(orig[done]));
                    assert(orig == block.transactions@);
                    assert(!tx_decodable(block.transactions@[done]));
                    assert(f == missing_field_of(orig[done]));
                }
                return Err(BlockDecodeError { index: position, field: f });
            },
        }
    }
    proof {
        assert(orig == block.transactions@);
    }
    Ok(
        ParsedBlock {
            block_height: block.block_height,
            block_time: block.block_time,
            blockhash: block.blockhash,
            parent_slot: block.parent_slot,
            previous_blockhash: block.previous_blockhash,
            rewards,
            transactions: txs,
        },
    )
}

} // verus!
