//! What the sidecar remembers of recent blocks and of the lists it issued.

use vstd::prelude::*;
use std::collections::HashMap;
use crate::inclusion_boost::types::{Hash256, InclusionList, InclusionListView};

verus! {

broadcast use vstd::std_specs::hash::group_hash_axioms;

/// The retention offset of a deployment that sets none.
pub const CACHE_RETENTION_OFFSET: u64 = 10;

/// Whether an entry under `key` stays when an entry under `newest` has just
/// been put in: it stays while it lies less than `offset` below `newest`.
pub open spec fn is_retained(key: u64, newest: u64, offset: u64) -> bool {
    key + offset > newest
}

/// The entries of `entries` that stay when `newest` has just been put in.
pub open spec fn retained<V>(entries: Map<u64, V>, newest: u64, offset: u64) -> Map<u64, V> {
    entries.restrict(Set::new(|key: u64| is_retained(key, newest, offset)))
}

/// A map after `value` has been put in under `key` and the entries that
/// lie `offset` or more below `key` have been taken out.
pub open spec fn inserted<V>(entries: Map<u64, V>, key: u64, value: V, offset: u64) -> Map<u64, V> {
    retained(entries.insert(key, value), key, offset)
}

/// The keys of a map, each once, in no particular order.
fn keys_of<V>(entries: &HashMap<u64, V>) -> (keys: Vec<u64>)
    ensures
        keys@.to_set() == entries@.dom(),
        keys@.no_duplicates(),
{
    let mut keys: Vec<u64> = Vec::new();
    for key in it: entries.keys()
        invariant
            keys@ =~= it.seq().unref().take(it.index() as int),
            it.seq().unref().to_set() == entries@.dom(),
            it.seq().no_duplicates(),
        ensures
            keys@ == it.seq().unref(),
    {
        keys.push(*key);
    }
    keys
}

/// Takes out of `entries` what does not stay once `newest` has been put in.
fn prune<V>(entries: &mut HashMap<u64, V>, newest: u64, offset: u64)
    ensures
        final(entries)@ == retained(old(entries)@, newest, offset),
{
    let keys: Vec<u64> = keys_of(entries);
    let ghost before = entries@;
    let mut i: usize = 0;
    while i < keys.len()
        invariant
            i <= keys@.len(),
            keys@.to_set() == before.dom(),
            forall|key: u64| #[trigger]
                entries@.dom().contains(key) <==> before.dom().contains(key) && (is_retained(
                    key,
                    newest,
                    offset,
                ) || !keys@.take(i as int).contains(key)),
            forall|key: u64| #[trigger] entries@.dom().contains(key) ==> entries@[key] == before[key],
        decreases keys@.len() - i,
    {
        let key: u64 = keys[i];
        assert(keys@.take(i + 1) =~= keys@.take(i as int).push(key));
        assert forall|other: u64| #[trigger]
            keys@.take(i + 1).contains(other) <==> keys@.take(i as int).contains(other) || other
                == key by {
            if keys@.take(i as int).contains(other) {
                let j = choose|j: int| 0 <= j < i && keys@.take(i as int)[j] == other;
                assert(keys@.take(i + 1)[j] == other);
            }
            if other == key {
                assert(keys@.take(i + 1)[i as int] == other);
            }
        }
        if key <= newest && newest - key >= offset {
            let _ = entries.remove(&key);
        }
        i = i + 1;
    }
    assert(keys@.take(i as int) =~= keys@);
    assert forall|key: u64| before.dom().contains(key) implies keys@.contains(key) by {
        assert(keys@.to_set().contains(key));
    }
    assert(entries@ =~= retained(before, newest, offset));
}

/// The bounded memory of observed blocks and issued inclusion lists.
pub struct InclusionBoostCache {
    block_cache: HashMap<u64, Vec<Hash256>>,
    inclusion_list_cache: HashMap<u64, InclusionList>,
    retention_offset: u64,
}

/// What a cache is in contracts: two maps and the retention offset.
pub struct InclusionBoostCacheView {
    /// Hashes of the transactions of each remembered block, by block number.
    pub blocks: Map<u64, Seq<Hash256>>,
    /// The inclusion list issued for each remembered slot.
    pub inclusion_lists: Map<u64, InclusionListView>,
    /// How far below the newest key an entry may lie and stay.
    pub retention_offset: u64,
}

impl View for InclusionBoostCache {
    type V = InclusionBoostCacheView;

    closed spec fn view(&self) -> InclusionBoostCacheView {
        InclusionBoostCacheView {
            blocks: self.block_cache@.map_values(|hashes: Vec<Hash256>| hashes@),
            inclusion_lists: self.inclusion_list_cache@.map_values(|list: InclusionList| list@),
            retention_offset: self.retention_offset,
        }
    }
}

impl InclusionBoostCache {
    /// An empty cache that keeps what lies less than `retention_offset`
    /// below the newest key.
    pub fn new(retention_offset: u64) -> (cache: Self)
        ensures
            cache@.blocks == Map::<u64, Seq<Hash256>>::empty(),
            cache@.inclusion_lists == Map::<u64, InclusionListView>::empty(),
            cache@.retention_offset == retention_offset,
    {
        let cache = InclusionBoostCache {
            block_cache: HashMap::new(),
            inclusion_list_cache: HashMap::new(),
            retention_offset,
        };
        assert(cache@.blocks =~= Map::<u64, Seq<Hash256>>::empty());
        assert(cache@.inclusion_lists =~= Map::<u64, InclusionListView>::empty());
        cache
    }

    /// Remembers the transactions of block `number`, and forgets the blocks
    /// that lie the retention offset or more below it.
    pub fn insert_block(&mut self, number: u64, tx_hashes: Vec<Hash256>)
        ensures
            final(self)@.blocks == inserted(
                old(self)@.blocks,
                number,
                tx_hashes@,
                old(self)@.retention_offset,
            ),
            final(self)@.inclusion_lists == old(self)@.inclusion_lists,
            final(self)@.retention_offset == old(self)@.retention_offset,
    {
        let _ = self.block_cache.insert(number, tx_hashes);
        prune(&mut self.block_cache, number, self.retention_offset);
        assert(self@.blocks =~= inserted(
            old(self)@.blocks,
            number,
            tx_hashes@,
            old(self)@.retention_offset,
        ));
    }

    /// Remembers the inclusion list issued for `slot`, and forgets the
    /// lists of the slots that lie the retention offset or more below it.
    pub fn insert_inclusion_list(&mut self, slot: u64, list: InclusionList)
        ensures
            final(self)@.inclusion_lists == inserted(
                old(self)@.inclusion_lists,
                slot,
                list@,
                old(self)@.retention_offset,
            ),
            final(self)@.blocks == old(self)@.blocks,
            final(self)@.retention_offset == old(self)@.retention_offset,
    {
        let _ = self.inclusion_list_cache.insert(slot, list);
        prune(&mut self.inclusion_list_cache, slot, self.retention_offset);
        assert(self@.inclusion_lists =~= inserted(
            old(self)@.inclusion_lists,
            slot,
            list@,
            old(self)@.retention_offset,
        ));
    }

    /// The transaction hashes of block `number`, where it is remembered.
    pub fn get_block(&self, number: u64) -> (hashes: Option<&Vec<Hash256>>)
        ensures
            match hashes {
                Some(found) => self@.blocks.contains_key(number) && self@.blocks[number] == found@,
                None => !self@.blocks.contains_key(number),
            },
    {
        self.block_cache.get(&number)
    }

    /// The inclusion list issued for `slot`, where it is remembered.
    pub fn get_inclusion_list(&self, slot: u64) -> (list: Option<&InclusionList>)
        ensures
            match list {
                Some(found) => self@.inclusion_lists.contains_key(slot)
                    && self@.inclusion_lists[slot] == found@,
                None => !self@.inclusion_lists.contains_key(slot),
            },
    {
        self.inclusion_list_cache.get(&slot)
    }

    /// The numbers of the remembered blocks, each once, in no particular
    /// order.
    pub fn block_numbers(&self) -> (numbers: Vec<u64>)
        ensures
            numbers@.to_set() == self@.blocks.dom(),
            numbers@.no_duplicates(),
    {
        let numbers: Vec<u64> = keys_of(&self.block_cache);
        assert(self@.blocks.dom() =~= self.block_cache@.dom());
        numbers
    }
}

/// Entries put in under rising keys, one key after the other, are at any
/// time those of the last `offset` keys: where the keys from `first` up to
/// but without `key` have left their window behind, putting in `key` leaves
/// the window of the keys up to and with `key`.
pub proof fn lemma_window_slides<V>(entries: Map<u64, V>, first: u64, key: u64, value: V, offset: u64)
    requires
        first <= key,
        entries.dom() == Set::new(|k: u64| first <= k < key && k + offset >= key),
    ensures
        inserted(entries, key, value, offset).dom() == Set::new(
            |k: u64| first <= k <= key && is_retained(k, key, offset),
        ),
{
    assert(inserted(entries, key, value, offset).dom() =~= Set::new(
        |k: u64| first <= k <= key && is_retained(k, key, offset),
    ));
}

} // verus!
