//! The messages of the inclusion-list protocol and their hash-tree roots.

use vstd::prelude::*;
use crate::merkle::{
    byte_list_as_slice, byte_list_bytes, byte_list_clone, byte_list_new, byte_list_root,
    byte_list_root_of, merkle_root, merkle_root_of, mix_in_length, mix_in_length_of, push_uint_chunk,
    uint_chunk, ByteList, BYTE_LIST_LIMIT,
};
use crate::text::{
    hex_bytes, hex_decode, hex_encode, is_prefixed_hex, lemma_hex_round_trip, prefixed_hex,
};

verus! {

/// A 32-byte hash: a transaction hash, a block hash or a hash-tree root.
pub type Hash256 = [u8; 32];

/// Most constraints that one inclusion list holds.
pub const MAX_INCLUSION_LIST_LENGTH: usize = 1;

/// Most bytes of a raw transaction that one constraint holds.
pub const MAX_CONSTRAINT_PAYLOAD_BYTES: usize = BYTE_LIST_LIMIT;

/// A BLS public key of a validator.
#[derive(Clone, Copy, Debug, PartialEq, Eq)]
pub struct BlsPublicKey {
    pub bytes: [u8; 48],
}

/// A BLS signature as the signer service returns it.
#[derive(Clone, Copy, Debug, PartialEq, Eq)]
pub struct BlsSignature {
    pub bytes: [u8; 96],
}

/// What the selection of censored transactions reads of a transaction of
/// the pending pool.
#[derive(Debug, PartialEq, Eq)]
pub struct Transaction {
    /// Hash of the signed transaction.
    pub hash: Hash256,
    /// The signed transaction in its network encoding.
    pub raw: Vec<u8>,
    /// Gas that the transaction may use at most.
    pub gas_limit: u64,
    /// Tip per unit of gas, where the transaction names one.
    pub max_priority_fee_per_gas: Option<u128>,
    /// Whether the transaction carries blobs.
    pub is_eip4844: bool,
}

/// What a transaction is in contracts.
pub struct TransactionView {
    pub hash: Hash256,
    pub raw: Seq<u8>,
    pub gas_limit: u64,
    pub max_priority_fee_per_gas: Option<u128>,
    pub is_eip4844: bool,
}

impl View for Transaction {
    type V = TransactionView;

    open spec fn view(&self) -> TransactionView {
        TransactionView {
            hash: self.hash,
            raw: self.raw@,
            gas_limit: self.gas_limit,
            max_priority_fee_per_gas: self.max_priority_fee_per_gas,
            is_eip4844: self.is_eip4844,
        }
    }
}

impl Clone for Transaction {
    fn clone(&self) -> (copy: Self)
        ensures
            copy@ == self@,
    {
        Transaction {
            hash: self.hash,
            raw: self.raw.clone(),
            gas_limit: self.gas_limit,
            max_priority_fee_per_gas: self.max_priority_fee_per_gas,
            is_eip4844: self.is_eip4844,
        }
    }
}

/// The views of the transactions in a vector.
pub open spec fn transaction_views(transactions: Seq<Transaction>) -> Seq<TransactionView> {
    transactions.map_values(|t: Transaction| t@)
}

/// What the selection reads of a block of the execution chain.
#[derive(Debug, PartialEq, Eq)]
pub struct Block {
    /// Number of the block.
    pub number: u64,
    /// Gas that the block could have used.
    pub gas_limit: u64,
    /// Gas that its transactions did use.
    pub gas_used: u64,
    /// Hashes of its transactions, in their order.
    pub transactions: Vec<Hash256>,
}

/// What a block is in contracts.
pub struct BlockView {
    pub number: u64,
    pub gas_limit: u64,
    pub gas_used: u64,
    pub transactions: Seq<Hash256>,
}

impl View for Block {
    type V = BlockView;

    open spec fn view(&self) -> BlockView {
        BlockView {
            number: self.number,
            gas_limit: self.gas_limit,
            gas_used: self.gas_used,
            transactions: self.transactions@,
        }
    }
}

impl Clone for Block {
    fn clone(&self) -> (copy: Self)
        ensures
            copy@ == self@,
    {
        let mut transactions: Vec<Hash256> = Vec::new();
        let mut i: usize = 0;
        while i < self.transactions.len()
            invariant
                i <= self.transactions@.len(),
                transactions@ == self.transactions@.take(i as int),
            decreases self.transactions@.len() - i,
        {
            transactions.push(self.transactions[i]);
            assert(transactions@ =~= self.transactions@.take(i + 1));
            i = i + 1;
        }
        assert(self.transactions@.take(i as int) =~= self.transactions@);
        Block {
            number: self.number,
            gas_limit: self.gas_limit,
            gas_used: self.gas_used,
            transactions,
        }
    }
}

/// One entry of an inclusion list: a raw transaction and its hash.
#[derive(Debug, PartialEq, Eq)]
pub struct Constraint {
    payload: ByteList,
    hash: Hash256,
}

/// What a constraint is in contracts: the raw transaction and its hash.
pub struct ConstraintView {
    pub payload: Seq<u8>,
    pub hash: Hash256,
}

/// The first `limit` items of a sequence, or all of it where it is shorter.
pub open spec fn capped<T>(items: Seq<T>, limit: usize) -> Seq<T> {
    if items.len() <= limit {
        items
    } else {
        items.take(limit as int)
    }
}

/// Root of a constraint with the raw transaction `payload`: the root of
/// the payload as a list of bytes, with the number of bytes mixed in.  The
/// transaction hash takes no part in it.
pub open spec fn constraint_root(payload: Seq<u8>) -> Seq<u8> {
    mix_in_length_of(byte_list_root_of(payload), payload.len() as usize)
}

/// The roots of the constraints with the given payloads, one after the
/// other.
pub open spec fn constraint_roots(payloads: Seq<Seq<u8>>) -> Seq<u8>
    decreases payloads.len(),
{
    if payloads.len() == 0 {
        Seq::empty()
    } else {
        constraint_roots(payloads.drop_last()) + constraint_root(payloads.last())
    }
}

/// The raw transactions of constraints, in their order.
pub open spec fn payloads(constraints: Seq<ConstraintView>) -> Seq<Seq<u8>> {
    constraints.map_values(|c: ConstraintView| c.payload)
}

/// The payloads of a list in its fixed capacity: the places behind the
/// last constraint are filled with empty payloads.
pub open spec fn filled(payloads: Seq<Seq<u8>>) -> Seq<Seq<u8>> {
    if payloads.len() < MAX_INCLUSION_LIST_LENGTH {
        payloads + Seq::new(
            (MAX_INCLUSION_LIST_LENGTH - payloads.len()) as nat,
            |i: int| Seq::<u8>::empty(),
        )
    } else {
        payloads
    }
}

/// Root of the constraints of a list: a vector of fixed capacity that holds
/// one vector of fixed capacity of constraints.
pub open spec fn constraints_root(constraints: Seq<ConstraintView>) -> Seq<u8> {
    merkle_root_of(
        merkle_root_of(constraint_roots(filled(payloads(constraints))), MAX_INCLUSION_LIST_LENGTH),
        MAX_INCLUSION_LIST_LENGTH,
    )
}

/// Whether `text` writes the raw transaction of a constraint: bytes in
/// hexadecimal after `0x`, and no more of them than a constraint holds.
pub open spec fn is_wire_payload(text: Seq<char>) -> bool {
    is_prefixed_hex(text) && hex_bytes(text).len() <= MAX_CONSTRAINT_PAYLOAD_BYTES
}

/// The texts that write payloads, one for each.
pub open spec fn wire_texts(payloads: Seq<Seq<u8>>) -> Seq<Seq<char>> {
    payloads.map_values(|payload: Seq<u8>| prefixed_hex(payload))
}

/// The payloads that the texts of a list write: there is one text for each
/// place of a list, and each writes the raw transaction of a constraint.
/// `None` where that is not so.
pub open spec fn wire_payloads(texts: Seq<Seq<char>>) -> Option<Seq<Seq<u8>>> {
    if texts.len() == MAX_INCLUSION_LIST_LENGTH && forall|i: int|
        0 <= i < texts.len() ==> is_wire_payload(#[trigger] texts[i]) {
        Some(texts.map_values(|text: Seq<char>| hex_bytes(text)))
    } else {
        None
    }
}

/// What strings say, one after the other.
pub open spec fn string_views(strings: Seq<String>) -> Seq<Seq<char>> {
    strings.map_values(|string: String| string@)
}

/// A constraint that is written as text and read again has the same raw
/// transaction and so the same root.
pub proof fn lemma_constraint_survives_the_wire(payload: Seq<u8>)
    requires
        payload.len() <= MAX_CONSTRAINT_PAYLOAD_BYTES,
    ensures
        is_wire_payload(prefixed_hex(payload)),
        hex_bytes(prefixed_hex(payload)) == payload,
        constraint_root(hex_bytes(prefixed_hex(payload))) == constraint_root(payload),
{
    lemma_hex_round_trip(payload);
}

impl View for Constraint {
    type V = ConstraintView;

    closed spec fn view(&self) -> ConstraintView {
        ConstraintView { payload: byte_list_bytes(self.payload), hash: self.hash }
    }
}

impl Constraint {
    #[verifier::type_invariant]
    spec fn well_formed(&self) -> bool {
        byte_list_bytes(self.payload).len() <= MAX_CONSTRAINT_PAYLOAD_BYTES
    }

    /// A constraint for the transaction with the given encoding and hash.
    /// An encoding of more than 1000 bytes is cut off after the first 1000.
    pub fn new(payload: Vec<u8>, hash: Hash256) -> (constraint: Self)
        ensures
            constraint@.payload == capped(payload@, MAX_CONSTRAINT_PAYLOAD_BYTES),
            constraint@.hash == hash,
    {
        let mut bytes = payload;
        bytes.truncate(MAX_CONSTRAINT_PAYLOAD_BYTES);
        Constraint { payload: byte_list_new(bytes).unwrap(), hash }
    }

    /// The raw transaction.
    pub fn payload(&self) -> (payload: &[u8])
        ensures
            payload@ == self@.payload,
            payload@.len() <= MAX_CONSTRAINT_PAYLOAD_BYTES,
    {
        proof {
            use_type_invariant(self);
        }
        byte_list_as_slice(&self.payload)
    }

    /// The hash of the transaction.
    pub fn hash(&self) -> (hash: Hash256)
        ensures
            hash == self@.hash,
    {
        self.hash
    }

    /// The raw transaction as the relay reads it: in hexadecimal, after
    /// `0x`.
    pub fn tx_hex(&self) -> (text: String)
        ensures
            text@ == prefixed_hex(self@.payload),
            is_wire_payload(text@),
            hex_bytes(text@) == self@.payload,
    {
        proof {
            use_type_invariant(self);
            lemma_constraint_survives_the_wire(byte_list_bytes(self.payload));
        }
        hex_encode(byte_list_as_slice(&self.payload))
    }

    /// The constraint that `text` writes: the raw transaction that stands
    /// in it in hexadecimal after `0x`, with a hash of zeros, since the
    /// text carries none.  `None` where `text` writes no bytes, or more
    /// than a constraint holds.
    pub fn from_tx_hex(text: &str) -> (constraint: Option<Self>)
        ensures
            match constraint {
                Some(found) => is_wire_payload(text@) && found@.payload == hex_bytes(text@)
                    && found@.hash@ == Seq::new(32, |i: int| 0u8),
                None => !is_wire_payload(text@),
            },
    {
        match hex_decode(text) {
            Some(payload) => {
                if payload.len() <= MAX_CONSTRAINT_PAYLOAD_BYTES {
                    let hash: Hash256 = [0u8; 32];
                    assert(hash@ =~= Seq::new(32, |i: int| 0u8));
                    Some(Constraint { payload: byte_list_new(payload).unwrap(), hash })
                } else {
                    None
                }
            },
            None => None,
        }
    }

    /// The hash-tree root of the constraint.
    pub fn tree_hash_root(&self) -> (root: Hash256)
        ensures
            root@ == constraint_root(self@.payload),
    {
        proof {
            use_type_invariant(self);
        }
        let list: Hash256 = byte_list_root(&self.payload);
        mix_in_length(&list, byte_list_as_slice(&self.payload).len())
    }
}

impl Clone for Constraint {
    fn clone(&self) -> (copy: Self)
        ensures
            copy@ == self@,
    {
        proof {
            use_type_invariant(self);
        }
        Constraint { payload: byte_list_clone(&self.payload), hash: self.hash }
    }
}

impl Default for Constraint {
    fn default() -> (constraint: Self)
        ensures
            constraint@.payload == Seq::<u8>::empty(),
            constraint@.hash@ == Seq::new(32, |i: int| 0u8),
    {
        let hash: Hash256 = [0u8; 32];
        assert(hash@ =~= Seq::new(32, |i: int| 0u8));
        Constraint { payload: byte_list_new(Vec::new()).unwrap(), hash }
    }
}

/// An inclusion list: the constraints that the proposer of `slot` attests to.
#[derive(Debug, PartialEq, Eq)]
pub struct InclusionList {
    slot: u64,
    validator_index: usize,
    constraints: Vec<Constraint>,
}

/// What an inclusion list is in contracts.
pub struct InclusionListView {
    pub slot: u64,
    pub validator_index: usize,
    pub constraints: Seq<ConstraintView>,
}

/// Root of an inclusion list: a container of the slot, the validator index
/// and the constraints, in this order.
pub open spec fn inclusion_list_root(list: InclusionListView) -> Seq<u8> {
    merkle_root_of(
        uint_chunk(list.slot) + uint_chunk(list.validator_index as u64) + constraints_root(
            list.constraints,
        ),
        3,
    )
}

/// The views of the constraints in a vector.
pub open spec fn constraint_views(constraints: Seq<Constraint>) -> Seq<ConstraintView> {
    constraints.map_values(|c: Constraint| c@)
}

/// Appending one payload appends the root of its constraint.
pub proof fn lemma_constraint_roots_push(payloads: Seq<Seq<u8>>, next: Seq<u8>)
    ensures
        constraint_roots(payloads.push(next)) == constraint_roots(payloads) + constraint_root(next),
{
    assert(payloads.push(next).drop_last() =~= payloads);
}

/// The root of an inclusion list is a function of what the list says: of
/// its slot, its validator and the raw transactions in their order.  Two
/// lists that agree in these have the same root, however they came about
/// and whatever hashes their constraints carry.
pub proof fn lemma_root_is_structural(a: InclusionListView, b: InclusionListView)
    requires
        a.slot == b.slot,
        a.validator_index == b.validator_index,
        a.constraints.len() == b.constraints.len(),
        forall|i: int| 0 <= i < a.constraints.len() ==> a.constraints[i].payload == b.constraints[i].payload,
    ensures
        inclusion_list_root(a) == inclusion_list_root(b),
{
    assert(payloads(a.constraints) =~= payloads(b.constraints));
}

/// Whether a list is one that `InclusionList` holds: no more constraints
/// than a list holds, and no more bytes in each than a constraint holds.
pub open spec fn is_inclusion_list(list: InclusionListView) -> bool {
    &&& list.constraints.len() <= MAX_INCLUSION_LIST_LENGTH
    &&& forall|i: int|
        0 <= i < list.constraints.len() ==> (#[trigger] list.constraints[i]).payload.len()
            <= MAX_CONSTRAINT_PAYLOAD_BYTES
}

/// The texts that a list is written in are read: they write the payloads
/// of the list in its fixed capacity.
pub proof fn lemma_wire_texts_are_read(list: InclusionListView)
    requires
        is_inclusion_list(list),
    ensures
        wire_payloads(wire_texts(filled(payloads(list.constraints)))) == Some(
            filled(payloads(list.constraints)),
        ),
{
    let all = filled(payloads(list.constraints));
    let texts = wire_texts(all);
    assert(all.len() == MAX_INCLUSION_LIST_LENGTH);
    assert forall|i: int| 0 <= i < texts.len() implies is_wire_payload(#[trigger] texts[i])
        && hex_bytes(texts[i]) == all[i] by {
        if i < list.constraints.len() {
            assert(all[i] == list.constraints[i].payload);
        } else {
            assert(all[i] =~= Seq::<u8>::empty());
        }
        lemma_constraint_survives_the_wire(all[i]);
    }
    assert(texts.map_values(|text: Seq<char>| hex_bytes(text)) =~= all);
}

/// A list that is written as text and read again has the same root: where
/// `read` has the slot and the validator of `list` and the payloads that
/// the texts of `list` write, the two roots are equal.
pub proof fn lemma_root_survives_the_wire(list: InclusionListView, read: InclusionListView)
    requires
        is_inclusion_list(list),
        read.slot == list.slot,
        read.validator_index == list.validator_index,
        wire_payloads(wire_texts(filled(payloads(list.constraints)))) == Some(
            payloads(read.constraints),
        ),
    ensures
        inclusion_list_root(read) == inclusion_list_root(list),
{
    lemma_wire_texts_are_read(list);
    let all = filled(payloads(list.constraints));
    assert(payloads(read.constraints) == all);
    assert(filled(all) == all);
}

impl View for InclusionList {
    type V = InclusionListView;

    closed spec fn view(&self) -> InclusionListView {
        InclusionListView {
            slot: self.slot,
            validator_index: self.validator_index,
            constraints: constraint_views(self.constraints@),
        }
    }
}

impl InclusionList {
    #[verifier::type_invariant]
    spec fn well_formed(&self) -> bool {
        self.constraints@.len() <= MAX_INCLUSION_LIST_LENGTH
    }

    /// The inclusion list of `validator_index` for `slot`.  Of more
    /// transactions than a list can hold, the first ones are kept, in their
    /// order, and the rest is dropped.
    pub fn new(slot: u64, validator_index: usize, transactions: Vec<Constraint>) -> (list: Self)
        ensures
            list@.slot == slot,
            list@.validator_index == validator_index,
            list@.constraints == capped(constraint_views(transactions@), MAX_INCLUSION_LIST_LENGTH),
    {
        let mut constraints = transactions;
        constraints.truncate(MAX_INCLUSION_LIST_LENGTH);
        assert(constraint_views(constraints@) =~= capped(
            constraint_views(transactions@),
            MAX_INCLUSION_LIST_LENGTH,
        ));
        InclusionList { slot, validator_index, constraints }
    }

    /// The slot that the list is for.
    pub fn slot(&self) -> (slot: u64)
        ensures
            slot == self@.slot,
    {
        self.slot
    }

    /// The validator that proposes in that slot.
    pub fn validator_index(&self) -> (validator_index: usize)
        ensures
            validator_index == self@.validator_index,
    {
        self.validator_index
    }

    /// The constraints, in the order in which they were given.
    pub fn constraints(&self) -> (constraints: &Vec<Constraint>)
        ensures
            constraint_views(constraints@) == self@.constraints,
            constraints@.len() <= MAX_INCLUSION_LIST_LENGTH,
    {
        proof {
            use_type_invariant(self);
        }
        &self.constraints
    }

    /// The raw transactions of the list as the relay reads them: one text
    /// for each place of the list in its fixed capacity, a transaction in
    /// hexadecimal after `0x`, and `0x` alone in a place that is free.
    pub fn wire_transactions(&self) -> (texts: Vec<String>)
        ensures
            string_views(texts@) == wire_texts(filled(payloads(self@.constraints))),
            wire_payloads(string_views(texts@)) == Some(filled(payloads(self@.constraints))),
    {
        proof {
            use_type_invariant(self);
        }
        let ghost all = filled(payloads(constraint_views(self.constraints@)));
        let mut texts: Vec<String> = Vec::new();
        let mut i: usize = 0;
        while i < MAX_INCLUSION_LIST_LENGTH
            invariant
                i <= MAX_INCLUSION_LIST_LENGTH,
                self.constraints@.len() <= MAX_INCLUSION_LIST_LENGTH,
                all == filled(payloads(constraint_views(self.constraints@))),
                all.len() == MAX_INCLUSION_LIST_LENGTH,
                texts@.len() == i,
                forall|k: int| 0 <= k < i ==> (#[trigger] texts@[k])@ == prefixed_hex(all[k]),
                forall|k: int|
                    0 <= k < i ==> is_wire_payload((#[trigger] texts@[k])@) && hex_bytes(texts@[k]@)
                        == all[k],
            decreases MAX_INCLUSION_LIST_LENGTH - i,
        {
            let text: String = if i < self.constraints.len() {
                self.constraints[i].tx_hex()
            } else {
                Constraint::default().tx_hex()
            };
            texts.push(text);
            i = i + 1;
        }
        assert(string_views(texts@) =~= wire_texts(all));
        assert(string_views(texts@).map_values(|text: Seq<char>| hex_bytes(text)) =~= all);
        texts
    }

    /// The list of `validator_index` for `slot` that `texts` write: one
    /// constraint for each text, with the raw transaction that the text
    /// writes and a hash of zeros.  `None` unless there is one text for
    /// each place of a list and each writes the raw transaction of a
    /// constraint.
    pub fn from_wire(slot: u64, validator_index: usize, texts: &Vec<String>) -> (list: Option<Self>)
        ensures
            match list {
                Some(found) => {
                    &&& found@.slot == slot
                    &&& found@.validator_index == validator_index
                    &&& wire_payloads(string_views(texts@)) == Some(payloads(found@.constraints))
                    &&& forall|i: int|
                        0 <= i < found@.constraints.len() ==> (#[trigger] found@.constraints[i]).hash@
                            == Seq::new(32, |k: int| 0u8)
                },
                None => wire_payloads(string_views(texts@)) is None,
            },
    {
        if texts.len() != MAX_INCLUSION_LIST_LENGTH {
            return None;
        }
        let ghost views = string_views(texts@);
        let mut constraints: Vec<Constraint> = Vec::new();
        let mut i: usize = 0;
        while i < texts.len()
            invariant
                i <= texts@.len(),
                texts@.len() == MAX_INCLUSION_LIST_LENGTH,
                views == string_views(texts@),
                constraints@.len() == i,
                forall|k: int| 0 <= k < i ==> is_wire_payload(#[trigger] views[k]),
                forall|k: int|
                    0 <= k < i ==> (#[trigger] constraints@[k])@.payload == hex_bytes(views[k])
                        && constraints@[k]@.hash@ == Seq::new(32, |j: int| 0u8),
            decreases texts@.len() - i,
        {
            assert(views[i as int] == texts@[i as int]@);
            match Constraint::from_tx_hex(texts[i].as_str()) {
                Some(constraint) => {
                    constraints.push(constraint);
                },
                None => {
                    assert(!is_wire_payload(views[i as int]));
                    return None;
                },
            }
            i = i + 1;
        }
        let list = InclusionList { slot, validator_index, constraints };
        assert(payloads(list@.constraints) =~= views.map_values(|text: Seq<char>| hex_bytes(text)));
        Some(list)
    }

    /// The hash-tree root of the list: the value that is signed.
    pub fn tree_hash_root(&self) -> (root: Hash256)
        ensures
            root@ == inclusion_list_root(self@),
    {
        proof {
            use_type_invariant(self);
        }
        let ghost all = filled(payloads(constraint_views(self.constraints@)));
        let mut roots: Vec<u8> = Vec::new();
        let mut i: usize = 0;
        while i < MAX_INCLUSION_LIST_LENGTH
            invariant
                i <= MAX_INCLUSION_LIST_LENGTH,
                self.constraints@.len() <= MAX_INCLUSION_LIST_LENGTH,
                all == filled(payloads(constraint_views(self.constraints@))),
                all.len() == MAX_INCLUSION_LIST_LENGTH,
                roots@ == constraint_roots(all.take(i as int)),
                roots@.len() == 32 * i,
            decreases MAX_INCLUSION_LIST_LENGTH - i,
        {
            let root: Hash256 = if i < self.constraints.len() {
                self.constraints[i].tree_hash_root()
            } else {
                Constraint::default().tree_hash_root()
            };
            proof {
                lemma_constraint_roots_push(all.take(i as int), all[i as int]);
                assert(all.take(i as int).push(all[i as int]) =~= all.take(i + 1));
            }
            roots.extend_from_slice(root.as_slice());
            assert(roots@ =~= constraint_roots(all.take(i as int)) + root@);
            i = i + 1;
        }
        assert(all.take(i as int) =~= all);
        let inner: Hash256 = merkle_root(roots.as_slice(), MAX_INCLUSION_LIST_LENGTH);
        let outer: Hash256 = merkle_root(inner.as_slice(), MAX_INCLUSION_LIST_LENGTH);
        let mut fields: Vec<u8> = Vec::new();
        push_uint_chunk(&mut fields, self.slot);
        push_uint_chunk(&mut fields, self.validator_index as u64);
        fields.extend_from_slice(outer.as_slice());
        assert(fields@ =~= uint_chunk(self.slot) + uint_chunk(self.validator_index as u64)
            + outer@);
        merkle_root(fields.as_slice(), 3)
    }
}

impl Clone for InclusionList {
    fn clone(&self) -> (copy: Self)
        ensures
            copy@ == self@,
    {
        proof {
            use_type_invariant(self);
        }
        let mut constraints: Vec<Constraint> = Vec::new();
        let mut i: usize = 0;
        while i < self.constraints.len()
            invariant
                i <= self.constraints@.len() <= MAX_INCLUSION_LIST_LENGTH,
                constraint_views(constraints@) == constraint_views(self.constraints@).take(i as int),
                constraints@.len() == i,
            decreases self.constraints@.len() - i,
        {
            let copy: Constraint = self.constraints[i].clone();
            constraints.push(copy);
            assert(constraint_views(constraints@) =~= constraint_views(self.constraints@).take(
                i + 1,
            ));
            i = i + 1;
        }
        assert(constraint_views(self.constraints@).take(i as int) =~= constraint_views(
            self.constraints@,
        ));
        InclusionList { slot: self.slot, validator_index: self.validator_index, constraints }
    }
}

/// A signed inclusion list, as it is sent to the relay.
#[derive(Debug, PartialEq, Eq)]
pub struct InclusionRequest {
    pub message: InclusionList,
    pub signature: BlsSignature,
}

/// The statement that hands the building of the inclusion list of one slot to
/// this module.
#[derive(Clone, Copy, Debug, PartialEq, Eq)]
pub struct InclusionListDelegateMessage {
    pub preconfer_pubkey: BlsPublicKey,
    pub slot_number: u64,
    pub chain_id: u64,
    pub gas_limit: u64,
}

/// A signed delegation, as it is sent to the relay.
#[derive(Clone, Copy, Debug, PartialEq, Eq)]
pub struct InclusionListDelegateSignedMessage {
    pub message: InclusionListDelegateMessage,
    pub signature: BlsSignature,
}

/// Root of a public key: its 48 bytes in two leaves.
pub open spec fn public_key_root(key: BlsPublicKey) -> Seq<u8> {
    merkle_root_of(key.bytes@, 2)
}

/// Root of a delegation message: a container of the key, the slot, the chain
/// and the gas limit, in this order.
pub open spec fn delegate_message_root(message: InclusionListDelegateMessage) -> Seq<u8> {
    merkle_root_of(
        public_key_root(message.preconfer_pubkey) + uint_chunk(message.slot_number) + uint_chunk(
            message.chain_id,
        ) + uint_chunk(message.gas_limit),
        4,
    )
}

impl InclusionListDelegateMessage {
    /// The hash-tree root of the message: the value that is signed.
    pub fn tree_hash_root(&self) -> (root: Hash256)
        ensures
            root@ == delegate_message_root(*self),
    {
        let key: Hash256 = merkle_root(self.preconfer_pubkey.bytes.as_slice(), 2);
        let mut fields: Vec<u8> = Vec::new();
        fields.extend_from_slice(key.as_slice());
        assert(fields@ =~= key@);
        push_uint_chunk(&mut fields, self.slot_number);
        push_uint_chunk(&mut fields, self.chain_id);
        push_uint_chunk(&mut fields, self.gas_limit);
        merkle_root(fields.as_slice(), 4)
    }
}

} // verus!
