use inclusion_boost::inclusion_boost::types::{Block, Transaction};
use inclusion_boost::pool::mempool::MemoryPool;

fn tx(tag: u8, gas_limit: u64, fee: Option<u128>, blobs: bool) -> Transaction {
    Transaction { hash: [tag; 32], raw: vec![tag], gas_limit, max_priority_fee_per_gas: fee, is_eip4844: blobs }
}

fn block(gas_limit: u64, gas_used: u64) -> Block {
    Block { number: 1, gas_limit, gas_used, transactions: Vec::new() }
}

#[test]
fn a_full_block_gives_no_list() {
    let mut pool = MemoryPool::new();
    pool.add_transaction(tx(1, 1, Some(1), false));
    assert!(pool.get_inclusion_list(3, 4, &block(100, 100)).is_none());
    assert!(pool.get_inclusion_list(3, 4, &block(0, 0)).is_none());
}

#[test]
fn an_empty_pool_gives_an_empty_list() {
    let list = MemoryPool::new().get_inclusion_list(3, 4, &block(100, 99)).unwrap();
    assert_eq!(list.slot(), 3);
    assert_eq!(list.validator_index(), 4);
    assert!(list.constraints().is_empty());
}

#[test]
fn the_pool_takes_the_first_transaction_that_fits() {
    let mut pool = MemoryPool::new();
    pool.add_transaction(tx(1, 10, None, false));
    pool.add_transaction(tx(2, 10, Some(1), true));
    pool.add_transaction(tx(3, 51, Some(1), false));
    pool.add_transaction(tx(4, 50, Some(1), false));
    pool.add_transaction(tx(5, 1, Some(1), false));
    // 50 gas are left: a transaction may need all of it, and no more
    let list = pool.get_inclusion_list(3, 4, &block(100, 50)).unwrap();
    assert_eq!(list.constraints().len(), 1);
    assert_eq!(list.constraints()[0].hash(), [4u8; 32]);
    assert_eq!(list.constraints()[0].payload(), &vec![4u8]);
}

#[test]
fn the_pool_takes_a_transaction_that_fills_the_unused_gas_exactly() {
    let mut pool = MemoryPool::new();
    pool.add_transaction(tx(7, 21_000, Some(1_000_000_000), false));
    let list = pool.get_inclusion_list(3, 4, &block(30_000_000, 29_979_000)).unwrap();
    assert_eq!(list.constraints().len(), 1);
    assert_eq!(list.constraints()[0].hash(), [7u8; 32]);
}

#[test]
fn the_pool_skips_what_does_not_fit() {
    let mut pool = MemoryPool::new();
    pool.add_transaction(tx(1, 2, Some(0), false));
    pool.add_transaction(tx(2, 3, Some(9), false));
    let list = pool.get_inclusion_list(3, 4, &block(2, 0)).unwrap();
    assert!(list.constraints().is_empty());
    let list = pool.get_inclusion_list(3, 4, &block(3, 0)).unwrap();
    assert_eq!(list.constraints()[0].hash(), [2u8; 32]);
}
