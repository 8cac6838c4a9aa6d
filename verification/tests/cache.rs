use inclusion_boost::inclusion_boost::cache::InclusionBoostCache;
use inclusion_boost::inclusion_boost::types::{Constraint, InclusionList};

fn sorted(mut numbers: Vec<u64>) -> Vec<u64> {
    numbers.sort();
    numbers
}

#[test]
fn a_new_cache_is_empty() {
    let cache = InclusionBoostCache::new(10);
    assert!(cache.block_numbers().is_empty());
    assert!(cache.get_block(0).is_none());
    assert!(cache.get_inclusion_list(0).is_none());
}

#[test]
fn the_cache_keeps_the_last_ten_of_fifteen_blocks() {
    let mut cache = InclusionBoostCache::new(10);
    for number in 1..=15u64 {
        cache.insert_block(number, vec![[number as u8; 32]]);
    }
    assert_eq!(sorted(cache.block_numbers()), (6..=15).collect::<Vec<u64>>());
    for number in 1..=5u64 {
        assert!(cache.get_block(number).is_none());
    }
    for number in 6..=15u64 {
        assert_eq!(cache.get_block(number), Some(&vec![[number as u8; 32]]));
    }
}

#[test]
fn the_cache_keeps_ten_blocks_at_every_step() {
    let mut cache = InclusionBoostCache::new(10);
    for number in 1..=15u64 {
        cache.insert_block(number, Vec::new());
        let first = if number > 10 { number - 9 } else { 1 };
        assert_eq!(sorted(cache.block_numbers()), (first..=number).collect::<Vec<u64>>());
    }
}

#[test]
fn the_cache_forgets_over_gaps() {
    let mut cache = InclusionBoostCache::new(10);
    cache.insert_block(1, Vec::new());
    cache.insert_block(2, Vec::new());
    cache.insert_block(4, Vec::new());
    cache.insert_block(13, Vec::new());
    assert_eq!(sorted(cache.block_numbers()), vec![4, 13]);
    cache.insert_block(100, Vec::new());
    assert_eq!(sorted(cache.block_numbers()), vec![100]);
}

#[test]
fn an_older_block_forgets_nothing_newer() {
    let mut cache = InclusionBoostCache::new(10);
    cache.insert_block(50, Vec::new());
    cache.insert_block(45, Vec::new());
    cache.insert_block(30, Vec::new());
    assert_eq!(sorted(cache.block_numbers()), vec![30, 45, 50]);
    cache.insert_block(55, Vec::new());
    assert_eq!(sorted(cache.block_numbers()), vec![50, 55]);
}

#[test]
fn a_block_put_in_twice_holds_the_later_hashes() {
    let mut cache = InclusionBoostCache::new(10);
    cache.insert_block(3, vec![[1u8; 32]]);
    cache.insert_block(3, vec![[2u8; 32], [3u8; 32]]);
    assert_eq!(cache.block_numbers(), vec![3]);
    assert_eq!(cache.get_block(3), Some(&vec![[2u8; 32], [3u8; 32]]));
}

#[test]
fn the_edge_of_the_window_is_exact() {
    let mut cache = InclusionBoostCache::new(3);
    cache.insert_block(7, Vec::new());
    cache.insert_block(8, Vec::new());
    cache.insert_block(10, Vec::new());
    // 7 lies three below 10 and goes, 8 lies two below and stays
    assert_eq!(sorted(cache.block_numbers()), vec![8, 10]);
    cache.insert_block(u64::MAX, Vec::new());
    assert_eq!(cache.block_numbers(), vec![u64::MAX]);
}

#[test]
fn a_cache_without_retention_keeps_nothing() {
    let mut cache = InclusionBoostCache::new(0);
    cache.insert_block(7, vec![[1u8; 32]]);
    assert!(cache.block_numbers().is_empty());
    let mut one = InclusionBoostCache::new(1);
    one.insert_block(7, Vec::new());
    one.insert_block(8, Vec::new());
    assert_eq!(one.block_numbers(), vec![8]);
}

#[test]
fn inclusion_lists_are_kept_by_slot() {
    let mut cache = InclusionBoostCache::new(10);
    for slot in 1..=15u64 {
        let list = InclusionList::new(slot, 3, vec![Constraint::new(vec![slot as u8], [slot as u8; 32])]);
        cache.insert_inclusion_list(slot, list);
    }
    for slot in 1..=5u64 {
        assert!(cache.get_inclusion_list(slot).is_none());
    }
    for slot in 6..=15u64 {
        let list = cache.get_inclusion_list(slot).unwrap();
        assert_eq!(list.slot(), slot);
        assert_eq!(list.constraints()[0].payload(), &vec![slot as u8]);
    }
}

#[test]
fn blocks_and_lists_are_kept_apart() {
    let mut cache = InclusionBoostCache::new(10);
    cache.insert_block(1, Vec::new());
    cache.insert_inclusion_list(1000, InclusionList::new(1000, 3, Vec::new()));
    assert_eq!(cache.block_numbers(), vec![1]);
    assert!(cache.get_inclusion_list(1000).is_some());
    cache.insert_block(2000, Vec::new());
    assert!(cache.get_inclusion_list(1000).is_some());
    assert!(cache.get_block(1).is_none());
}
