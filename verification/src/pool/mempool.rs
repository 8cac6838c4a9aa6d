//! The pending transactions of a pool held in memory, and the inclusion
//! list that they give against a block.

use vstd::prelude::*;
use crate::inclusion_boost::types::{
    capped, constraint_views, transaction_views, Block, BlockView, Constraint,
    InclusionList, InclusionListView, Transaction, TransactionView, MAX_INCLUSION_LIST_LENGTH,
};
use crate::inclusion_boost::{constraint_of, pays_tip, unused_gas};

verus! {

/// Whether the pool takes a transaction when `gas_left` gas is left: it
/// offers a tip, carries no blobs, and needs no more gas than is left.
pub open spec fn fits(transaction: TransactionView, gas_left: u64) -> bool {
    pays_tip(transaction) && !transaction.is_eip4844 && transaction.gas_limit <= gas_left
}

/// The gas that is left after the pool has gone through `transactions`,
/// having started with `gas_left`: each transaction that is taken uses up
/// its gas limit.
pub open spec fn gas_left_after_fitting(transactions: Seq<TransactionView>, gas_left: u64) -> u64
    decreases transactions.len(),
{
    if transactions.len() == 0 {
        gas_left
    } else {
        let before = gas_left_after_fitting(transactions.drop_last(), gas_left);
        if fits(transactions.last(), before) {
            (before - transactions.last().gas_limit) as u64
        } else {
            before
        }
    }
}

/// The transactions that the pool takes from `transactions`, in their
/// order.
pub open spec fn fitting(transactions: Seq<TransactionView>, gas_left: u64) -> Seq<TransactionView>
    decreases transactions.len(),
{
    if transactions.len() == 0 {
        Seq::empty()
    } else {
        let before = fitting(transactions.drop_last(), gas_left);
        if fits(
            transactions.last(),
            gas_left_after_fitting(transactions.drop_last(), gas_left),
        ) {
            before.push(transactions.last())
        } else {
            before
        }
    }
}

/// The inclusion list that the pending transactions `pending` give
/// against `block`, as far as a list holds them.
pub open spec fn fitting_list(
    slot: u64,
    validator_index: usize,
    pending: Seq<TransactionView>,
    block: BlockView,
) -> InclusionListView {
    InclusionListView {
        slot,
        validator_index,
        constraints: capped(
            fitting(pending, unused_gas(block)).map_values(|t: TransactionView| constraint_of(t)),
            MAX_INCLUSION_LIST_LENGTH,
        ),
    }
}

/// A pool that holds one transaction which offers a tip, carries no blobs
/// and needs no more gas than the block left unused gives a list with
/// exactly that transaction.
pub proof fn lemma_single_fitting_is_taken(
    slot: u64,
    validator_index: usize,
    transaction: TransactionView,
    block: BlockView,
)
    requires
        block.gas_used < block.gas_limit,
        pays_tip(transaction),
        !transaction.is_eip4844,
        transaction.gas_limit <= unused_gas(block),
    ensures
        fitting(seq![transaction], unused_gas(block)) == seq![transaction],
        fitting_list(slot, validator_index, seq![transaction], block).constraints == seq![
            constraint_of(transaction),
        ],
{
    let one = seq![transaction];
    let gas = unused_gas(block);
    assert(one.drop_last() =~= Seq::<TransactionView>::empty());
    assert(one.last() == transaction);
    assert(gas_left_after_fitting(one.drop_last(), gas) == gas);
    assert(fitting(one.drop_last(), gas) =~= Seq::<TransactionView>::empty());
    assert(fitting(one, gas) =~= one);
    assert(one.map_values(|t: TransactionView| constraint_of(t)) =~= seq![constraint_of(transaction)]);
}

/// A pool of pending transactions.
#[derive(Debug)]
pub struct MemoryPool {
    pending: Vec<Transaction>,
}

impl View for MemoryPool {
    type V = Seq<TransactionView>;

    closed spec fn view(&self) -> Seq<TransactionView> {
        transaction_views(self.pending@)
    }
}

impl MemoryPool {
    /// An empty pool.
    pub fn new() -> (pool: Self)
        ensures
            pool@ == Seq::<TransactionView>::empty(),
    {
        let pool = MemoryPool { pending: Vec::new() };
        assert(pool@ =~= Seq::<TransactionView>::empty());
        pool
    }

    /// Adds a pending transaction behind those that the pool holds.
    pub fn add_transaction(&mut self, transaction: Transaction)
        ensures
            final(self)@ == old(self)@.push(transaction@),
    {
        self.pending.push(transaction);
        assert(self@ =~= old(self)@.push(transaction@));
    }

    /// The inclusion list of `validator_index` for `slot` against the
    /// block before it: none where the block used all of its gas, else the
    /// pending transactions that offer a tip, carry no blobs and fit into
    /// the gas that the block and the transactions taken before left, as
    /// far as a list holds them.
    pub fn get_inclusion_list(&self, slot: u64, validator_index: usize, previous_block: &Block) -> (list:
        Option<InclusionList>)
        requires
            previous_block.gas_used <= previous_block.gas_limit,
        ensures
            match list {
                None => previous_block.gas_used == previous_block.gas_limit,
                Some(found) => previous_block.gas_used < previous_block.gas_limit && found@
                    == fitting_list(slot, validator_index, self@, previous_block@),
            },
    {
        if previous_block.gas_used == previous_block.gas_limit {
            return None;
        }
        let gas_start: u64 = previous_block.gas_limit - previous_block.gas_used;
        let ghost views = transaction_views(self.pending@);
        let ghost wrap = |t: TransactionView| constraint_of(t);
        let mut gas_left: u64 = gas_start;
        let mut taken: Vec<Constraint> = Vec::new();
        let mut i: usize = 0;
        while i < self.pending.len()
            invariant
                i <= self.pending@.len(),
                views == transaction_views(self.pending@),
                wrap == |t: TransactionView| constraint_of(t),
                gas_left == gas_left_after_fitting(views.take(i as int), gas_start),
                constraint_views(taken@) == fitting(views.take(i as int), gas_start).map_values(wrap),
            decreases self.pending@.len() - i,
        {
            let transaction: &Transaction = &self.pending[i];
            proof {
                assert(views.take(i + 1).drop_last() =~= views.take(i as int));
                assert(views.take(i + 1).last() == transaction@);
            }
            let tip: bool = match transaction.max_priority_fee_per_gas {
                Some(fee) => fee > 0,
                None => false,
            };
            if tip && !transaction.is_eip4844 && transaction.gas_limit <= gas_left {
                gas_left = gas_left - transaction.gas_limit;
                let raw: Vec<u8> = transaction.raw.clone();
                assert(raw@ =~= transaction.raw@);
                let constraint: Constraint = Constraint::new(raw, transaction.hash);
                assert(constraint@ == constraint_of(transaction@));
                let ghost before = constraint_views(taken@);
                taken.push(constraint);
                assert(constraint_views(taken@) =~= before.push(constraint@));
                assert(constraint_views(taken@) =~= fitting(views.take(i + 1), gas_start).map_values(
                    wrap,
                ));
            }
            i = i + 1;
        }
        assert(views.take(i as int) =~= views);
        Some(InclusionList::new(slot, validator_index, taken))
    }
}

} // verus!
