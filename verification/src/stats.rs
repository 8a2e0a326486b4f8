//! Block-level aggregates: a read-only derived view over the normalized
//! transactions of one block.

use crate::parsed::ParsedTransaction;
use vstd::prelude::*;

verus! {

/// Per-block transaction statistics. Fees are accumulated in a type twice
/// as wide as the per-transaction fee, so the sum is always exact.
pub struct BlockStats {
    pub successful: usize,
    pub failed: usize,
    pub total_fees: u128,
}

/// How many transactions in `s` carry the success flag.
pub open spec fn spec_count_success(s: Seq<ParsedTransaction>) -> int
    decreases s.len(),
{
    if s.len() == 0 {
        0
    } else {
        spec_count_success(s.drop_last()) + if s.last().is_success {
            1int
        } else {
            0int
        }
    }
}

/// The exact sum of the transactions' fees.
pub open spec fn spec_total_fees(s: Seq<ParsedTransaction>) -> int
    decreases s.len(),
{
    if s.len() == 0 {
        0
    } else {
        spec_total_fees(s.drop_last()) + s.last().fee
    }
}

proof fn lemma_count_success_bound(s: Seq<ParsedTransaction>)
    ensures
        0 <= spec_count_success(s) <= s.len(),
    decreases s.len(),
{
    if s.len() > 0 {
        lemma_count_success_bound(s.drop_last());
    }
}

proof fn lemma_total_fees_bound(s: Seq<ParsedTransaction>)
    ensures
        0 <= spec_total_fees(s) <= s.len() * 0xffff_ffff_ffff_ffff,
    decreases s.len(),
{
    if s.len() > 0 {
        lemma_total_fees_bound(s.drop_last());
    }
}

/// Computes the per-block statistics: the success and failure counts always
/// partition the transaction count, and the fee total is the exact sum of
/// the per-transaction fees — the wider accumulator cannot overflow.
pub fn block_stats(txs: &Vec<ParsedTransaction>) -> (st: BlockStats)
    ensures
        st.successful == spec_count_success(txs@),
        st.failed == txs@.len() - spec_count_success(txs@),
        st.successful + st.failed == txs@.len(),
        st.total_fees == spec_total_fees(txs@),
{
    let mut successful: usize = 0;
    let mut total_fees: u128 = 0;
    let mut i: usize = 0;
    while i < txs.len()
        invariant
            i <= txs@.len(),
            successful == spec_count_success(txs@.subrange(0, i as int)),
            total_fees == spec_total_fees(txs@.subrange(0, i as int)),
        decreases txs@.len() - i,
    {
        proof {
            lemma_count_success_bound(txs@.subrange(0, i as int));
            lemma_total_fees_bound(txs@.subrange(0, i as int));
            assert((i as int) * 0xffff_ffff_ffff_ffff + 0xffff_ffff_ffff_ffff == (i as int + 1)
                * 0xffff_ffff_ffff_ffff);
            assert((i as int + 1) * 0xffff_ffff_ffff_ffff <= 0x1_0000_0000_0000_0000
                * 0xffff_ffff_ffff_ffff) by (nonlinear_arith)
                requires
                    i as int + 1 <= 0x1_0000_0000_0000_0000,
            ;
        }
        if txs[i].is_success {
            successful = successful + 1;
        }
        total_fees = total_fees + txs[i].fee as u128;
        proof {
            assert(txs@.subrange(0, i + 1).drop_last() =~= txs@.subrange(0, i as int));
            assert(txs@.subrange(0, i + 1).last() == txs@[i as int]);
        }
        i = i + 1;
    }
    proof {
        assert(txs@.subrange(0, txs@.len() as int) =~= txs@);
        lemma_count_success_bound(txs@);
    }
    BlockStats { successful, failed: txs.len() - successful, total_fees }
}

} // verus!
