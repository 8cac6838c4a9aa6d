//! The censored transactions by their hashes.

use vstd::prelude::*;
use crate::inclusion_boost::types::{transaction_views, Block, Hash256, Transaction, TransactionView};
use crate::inclusion_boost::{censored, gas_left_after, is_censored, lemma_censored_step, select, unused_gas};

verus! {

/// The hashes of the pending transactions that a builder could have put
/// into `block` and did not, in the order of `transactions`.
pub fn get_censored_transactions(transactions: Vec<Transaction>, block: &Block) -> (hashes: Vec<
    Hash256,
>)
    requires
        block.gas_used <= block.gas_limit,
    ensures
        hashes@ == censored(transaction_views(transactions@), unused_gas(block@)).map_values(
            |t: TransactionView| t.hash,
        ),
{
    let gas_left: u64 = block.gas_limit - block.gas_used;
    let taken: Vec<bool> = select(&transactions, gas_left);
    let ghost views = transaction_views(transactions@);
    let ghost hash_of = |t: TransactionView| t.hash;
    let mut hashes: Vec<Hash256> = Vec::new();
    let mut i: usize = 0;
    while i < transactions.len()
        invariant
            i <= transactions@.len(),
            taken@.len() == transactions@.len(),
            views == transaction_views(transactions@),
            hash_of == |t: TransactionView| t.hash,
            forall|k: int|
                0 <= k < transactions@.len() ==> taken@[k] == is_censored(
                    #[trigger] transactions@[k]@,
                    gas_left_after(views.take(k), gas_left),
                ),
            hashes@ == censored(views.take(i as int), gas_left).map_values(hash_of),
        decreases transactions@.len() - i,
    {
        proof {
            lemma_censored_step(views, gas_left, i as int);
            assert(views[i as int] == transactions@[i as int]@);
        }
        if taken[i] {
            hashes.push(transactions[i].hash);
            assert(hashes@ =~= censored(views.take(i + 1), gas_left).map_values(hash_of));
        }
        i = i + 1;
    }
    assert(views.take(i as int) =~= views);
    hashes
}

} // verus!
