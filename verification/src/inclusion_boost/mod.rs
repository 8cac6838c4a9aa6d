//! Building, signing and submitting inclusion lists.

pub mod cache;
pub mod envelope;
pub mod error;
pub mod sidecar;
pub mod types;

use vstd::prelude::*;
use std::collections::HashMap;
use crate::inclusion_boost::error::InclusionListBoostError;
use crate::inclusion_boost::types::{
    capped, constraint_views, delegate_message_root, inclusion_list_root, transaction_views, Block, BlockView,
    BlsPublicKey, BlsSignature, Constraint, ConstraintView, Hash256, InclusionList,
    InclusionListDelegateMessage, InclusionListDelegateSignedMessage, InclusionListView,
    InclusionRequest, Transaction, TransactionView, MAX_CONSTRAINT_PAYLOAD_BYTES,
};
use crate::text::concat;

verus! {

broadcast use vstd::std_specs::hash::group_hash_axioms;

/// Whether a transaction offers a tip: a priority fee above zero.
pub open spec fn pays_tip(transaction: TransactionView) -> bool {
    transaction.max_priority_fee_per_gas matches Some(fee) && fee > 0
}

/// Whether a transaction counts as censored when `gas_left` gas is left:
/// it offers a tip, and some gas is left.
pub open spec fn is_censored(transaction: TransactionView, gas_left: u64) -> bool {
    pays_tip(transaction) && gas_left > 0
}

/// The gas that is left after one transaction has been looked at.  A
/// transaction that counts as censored uses up its gas limit, and all that
/// is left where that is less.
pub open spec fn gas_left_after_one(transaction: TransactionView, gas_left: u64) -> u64 {
    if is_censored(transaction, gas_left) {
        if transaction.gas_limit <= gas_left {
            (gas_left - transaction.gas_limit) as u64
        } else {
            0
        }
    } else {
        gas_left
    }
}

/// The gas that is left after `transactions` have been gone through in
/// their order, starting with `gas_left`.
pub open spec fn gas_left_after(transactions: Seq<TransactionView>, gas_left: u64) -> u64
    decreases transactions.len(),
{
    if transactions.len() == 0 {
        gas_left
    } else {
        gas_left_after_one(
            transactions.last(),
            gas_left_after(transactions.drop_last(), gas_left),
        )
    }
}

/// The transactions among `transactions` that count as censored, in their
/// order: each one that offers a tip while gas is left.
pub open spec fn censored(transactions: Seq<TransactionView>, gas_left: u64) -> Seq<TransactionView>
    decreases transactions.len(),
{
    if transactions.len() == 0 {
        Seq::empty()
    } else {
        let before = censored(transactions.drop_last(), gas_left);
        if is_censored(transactions.last(), gas_left_after(transactions.drop_last(), gas_left)) {
            before.push(transactions.last())
        } else {
            before
        }
    }
}

/// The constraint that stands for a transaction.
pub open spec fn constraint_of(transaction: TransactionView) -> ConstraintView {
    ConstraintView {
        payload: capped(transaction.raw, MAX_CONSTRAINT_PAYLOAD_BYTES),
        hash: transaction.hash,
    }
}

/// The gas that a block left unused.
pub open spec fn unused_gas(block: BlockView) -> u64
    recommends
        block.gas_used <= block.gas_limit,
{
    (block.gas_limit - block.gas_used) as u64
}

/// Goes through `transactions` in their order and says for each whether
/// it counts as censored.
pub(crate) fn select(transactions: &Vec<Transaction>, gas_left: u64) -> (taken: Vec<bool>)
    ensures
        taken@.len() == transactions@.len(),
        forall|i: int|
            0 <= i < transactions@.len() ==> taken@[i] == is_censored(
                #[trigger] transactions@[i]@,
                gas_left_after(transaction_views(transactions@).take(i), gas_left),
            ),
{
    let ghost views = transaction_views(transactions@);
    let mut taken: Vec<bool> = Vec::new();
    let mut left: u64 = gas_left;
    let mut i: usize = 0;
    while i < transactions.len()
        invariant
            i <= transactions@.len(),
            views == transaction_views(transactions@),
            taken@.len() == i,
            left == gas_left_after(views.take(i as int), gas_left),
            forall|k: int|
                0 <= k < i ==> taken@[k] == is_censored(
                    #[trigger] transactions@[k]@,
                    gas_left_after(views.take(k), gas_left),
                ),
        decreases transactions@.len() - i,
    {
        let transaction: &Transaction = &transactions[i];
        let tip: bool = match transaction.max_priority_fee_per_gas {
            Some(fee) => fee > 0,
            None => false,
        };
        let take: bool = tip && left > 0;
        proof {
            assert(views.take(i + 1).drop_last() =~= views.take(i as int));
            assert(views.take(i + 1).last() == transactions@[i as int]@);
        }
        taken.push(take);
        if take {
            left = left.saturating_sub(transaction.gas_limit);
        }
        i = i + 1;
    }
    taken
}

/// Where the transaction at `i` counts as censored, the censored ones up
/// to and with it are those before it, and it.
pub proof fn lemma_censored_step(transactions: Seq<TransactionView>, gas_left: u64, i: int)
    requires
        0 <= i < transactions.len(),
    ensures
        censored(transactions.take(i + 1), gas_left) == if is_censored(
            transactions[i],
            gas_left_after(transactions.take(i), gas_left),
        ) {
            censored(transactions.take(i), gas_left).push(transactions[i])
        } else {
            censored(transactions.take(i), gas_left)
        },
{
    assert(transactions.take(i + 1).drop_last() =~= transactions.take(i));
}

/// Transactions without a tip never count as censored, however much gas
/// is left, and use up none of it.
pub proof fn lemma_no_tip_none_taken(transactions: Seq<TransactionView>, gas_left: u64)
    requires
        forall|i: int| 0 <= i < transactions.len() ==> !pays_tip(#[trigger] transactions[i]),
    ensures
        censored(transactions, gas_left) == Seq::<TransactionView>::empty(),
        gas_left_after(transactions, gas_left) == gas_left,
    decreases transactions.len(),
{
    if transactions.len() > 0 {
        lemma_no_tip_none_taken(transactions.drop_last(), gas_left);
        assert(!pays_tip(transactions[transactions.len() - 1]));
    }
}

/// Where a block left gas unused and exactly one pending transaction offers
/// a tip, that transaction counts as censored and no other, whatever its
/// gas limit.
pub proof fn lemma_single_tip_is_taken(transactions: Seq<TransactionView>, block: BlockView, k: int)
    requires
        block.gas_used < block.gas_limit,
        0 <= k < transactions.len(),
        pays_tip(transactions[k]),
        forall|i: int| 0 <= i < transactions.len() && i != k ==> !pays_tip(#[trigger] transactions[i]),
    ensures
        censored(transactions, unused_gas(block)) == seq![transactions[k]],
    decreases transactions.len(),
{
    let gas_left = unused_gas(block);
    let before = transactions.drop_last();
    if k == transactions.len() - 1 {
        lemma_no_tip_none_taken(before, gas_left);
        assert(censored(transactions, gas_left) =~= seq![transactions[k]]);
    } else {
        assert(!pays_tip(transactions[transactions.len() - 1]));
        lemma_single_tip_is_taken(before, block, k);
    }
}

/// Once no gas is left, no later transaction counts as censored: whether
/// gas is left is asked before each transaction, not after it.
pub proof fn lemma_nothing_taken_without_gas(
    before: Seq<TransactionView>,
    after: Seq<TransactionView>,
    gas_left: u64,
)
    requires
        gas_left_after(before, gas_left) == 0,
    ensures
        censored(before + after, gas_left) == censored(before, gas_left),
        gas_left_after(before + after, gas_left) == 0,
    decreases after.len(),
{
    if after.len() == 0 {
        assert(before + after =~= before);
    } else {
        lemma_nothing_taken_without_gas(before, after.drop_last(), gas_left);
        assert((before + after).drop_last() =~= before + after.drop_last());
    }
}

/// Path under which the relay of the default protocol takes signed
/// inclusion lists.
pub const CONSTRAINTS_PATH: &'static str = "/eth/v1/builder/set_constraints";

/// Path under which the relay of the default protocol takes signed
/// delegations.
pub const DELEGATE_PATH: &'static str = "/eth/v1/builder/elect_preconfer";

/// The chain that delegations are made for in the default protocol.
pub const DELEGATE_CHAIN_ID: u64 = 7014190335;

/// The gas limit written into a delegation in the default protocol: the
/// largest there is, which tells the relay that gas is not restricted.
pub const DELEGATE_GAS_LIMIT: u64 = u64::MAX;

/// Seconds that the relay is given to answer one submission in the default
/// protocol.
pub const RELAY_TIMEOUT_SECS: u64 = 10;

/// What a deployment may set of the protocol between this module and the
/// relay.  The default is the protocol of the relay that the constants of
/// this module describe.
#[derive(Debug)]
pub struct ProtocolConfig {
    /// Path of the relay under which it takes signed inclusion lists.
    pub constraints_path: String,
    /// Path of the relay under which it takes signed delegations.
    pub delegate_path: String,
    /// The chain that delegations are made for.
    pub chain_id: u64,
    /// The gas limit written into a delegation.
    pub delegate_gas_limit: u64,
    /// Seconds that the relay is given to answer one submission.
    pub relay_timeout_secs: u64,
}

/// What a protocol configuration is in contracts.
pub struct ProtocolConfigView {
    pub constraints_path: Seq<char>,
    pub delegate_path: Seq<char>,
    pub chain_id: u64,
    pub delegate_gas_limit: u64,
    pub relay_timeout_secs: u64,
}

impl View for ProtocolConfig {
    type V = ProtocolConfigView;

    open spec fn view(&self) -> ProtocolConfigView {
        ProtocolConfigView {
            constraints_path: self.constraints_path@,
            delegate_path: self.delegate_path@,
            chain_id: self.chain_id,
            delegate_gas_limit: self.delegate_gas_limit,
            relay_timeout_secs: self.relay_timeout_secs,
        }
    }
}

/// The protocol that the constants of this module describe.
pub open spec fn default_protocol() -> ProtocolConfigView {
    ProtocolConfigView {
        constraints_path: CONSTRAINTS_PATH@,
        delegate_path: DELEGATE_PATH@,
        chain_id: DELEGATE_CHAIN_ID,
        delegate_gas_limit: DELEGATE_GAS_LIMIT,
        relay_timeout_secs: RELAY_TIMEOUT_SECS,
    }
}

impl Default for ProtocolConfig {
    fn default() -> (protocol: Self)
        ensures
            protocol@ == default_protocol(),
    {
        ProtocolConfig {
            constraints_path: CONSTRAINTS_PATH.to_owned(),
            delegate_path: DELEGATE_PATH.to_owned(),
            chain_id: DELEGATE_CHAIN_ID,
            delegate_gas_limit: DELEGATE_GAS_LIMIT,
            relay_timeout_secs: RELAY_TIMEOUT_SECS,
        }
    }
}

impl Clone for ProtocolConfig {
    fn clone(&self) -> (copy: Self)
        ensures
            copy@ == self@,
    {
        ProtocolConfig {
            constraints_path: self.constraints_path.clone(),
            delegate_path: self.delegate_path.clone(),
            chain_id: self.chain_id,
            delegate_gas_limit: self.delegate_gas_limit,
            relay_timeout_secs: self.relay_timeout_secs,
        }
    }
}

/// What the signer service is asked: to sign `object_root` under `pubkey`
/// for the module `id`.
#[derive(Debug, PartialEq, Eq)]
pub struct SignRequest {
    pub id: String,
    pub pubkey: BlsPublicKey,
    pub object_root: Hash256,
}

/// What a request for a signature is in contracts.
pub struct SignRequestView {
    pub id: Seq<char>,
    pub pubkey: BlsPublicKey,
    pub object_root: Seq<u8>,
}

impl View for SignRequest {
    type V = SignRequestView;

    open spec fn view(&self) -> SignRequestView {
        SignRequestView { id: self.id@, pubkey: self.pubkey, object_root: self.object_root@ }
    }
}

/// A delegation message together with the request to sign it.
#[derive(Debug, PartialEq, Eq)]
pub struct Delegation {
    pub message: InclusionListDelegateMessage,
    pub request: SignRequest,
}

/// What is sent to the relay in the body of a submission.
#[derive(Debug, PartialEq, Eq)]
pub enum RelayBody {
    Constraints(InclusionRequest),
    Delegation(InclusionListDelegateSignedMessage),
}

/// What the body of a submission is in contracts.
pub enum RelayBodyView {
    Constraints { message: InclusionListView, signature: BlsSignature },
    Delegation(InclusionListDelegateSignedMessage),
}

impl View for RelayBody {
    type V = RelayBodyView;

    open spec fn view(&self) -> RelayBodyView {
        match self {
            RelayBody::Constraints(request) => RelayBodyView::Constraints {
                message: request.message@,
                signature: request.signature,
            },
            RelayBody::Delegation(signed) => RelayBodyView::Delegation(*signed),
        }
    }
}

/// One submission to the relay: the body goes as JSON in a POST request to
/// `url`, and the relay has `timeout_secs` seconds to answer.
#[derive(Debug, PartialEq, Eq)]
pub struct RelayPost {
    pub url: String,
    pub body: RelayBody,
    pub timeout_secs: u64,
}

/// What a submission is in contracts.
pub struct RelayPostView {
    pub url: Seq<char>,
    pub body: RelayBodyView,
    pub timeout_secs: u64,
}

impl View for RelayPost {
    type V = RelayPostView;

    open spec fn view(&self) -> RelayPostView {
        RelayPostView { url: self.url@, body: self.body@, timeout_secs: self.timeout_secs }
    }
}

/// Whether an HTTP status tells success: the codes from 200 to 299.
pub open spec fn is_success(status: u16) -> bool {
    200 <= status < 300
}

/// The delegation message for the proposer with key `key` in `slot`.
pub open spec fn delegate_message_for(protocol: ProtocolConfigView, key: BlsPublicKey, slot: u64) -> InclusionListDelegateMessage {
    InclusionListDelegateMessage {
        preconfer_pubkey: key,
        slot_number: slot,
        chain_id: protocol.chain_id,
        gas_limit: protocol.delegate_gas_limit,
    }
}

/// What a completed exchange with the relay means for a submission: the
/// relay took it where it answered with success, and did not where it
/// answered with anything else.  The latter is an outcome, not an error.
pub fn relay_outcome(status: u16) -> (outcome: Option<()>)
    ensures
        outcome.is_some() == is_success(status),
{
    if 200 <= status && status < 300 {
        Some(())
    } else {
        None
    }
}

/// What an attempt to reach the relay means for a submission: a failure of
/// the transport is handed on as the error it is, a status is read as
/// `relay_outcome` reads it.
pub fn submission_outcome(answer: Result<u16, InclusionListBoostError>) -> (outcome: Result<
    Option<()>,
    InclusionListBoostError,
>)
    ensures
        match answer {
            Ok(status) => outcome matches Ok(taken) && taken.is_some() == is_success(status),
            Err(error) => outcome == Err::<Option<()>, InclusionListBoostError>(error),
        },
{
    match answer {
        Ok(status) => Ok(relay_outcome(status)),
        Err(error) => Err(error),
    }
}

/// The inclusion-list side of the signer and relay protocol, for the
/// validators whose keys the signer holds.
#[derive(Debug)]
pub struct InclusionBoost {
    /// Name under which this module is known to the signer.
    pub module_id: String,
    /// The public key of each validator that the signer signs for, by
    /// validator index.
    pub validator_keys: HashMap<usize, BlsPublicKey>,
    /// Base URL of the relay.
    pub relay_url: String,
    /// The protocol that the relay speaks.
    pub protocol: ProtocolConfig,
}

/// What the module is in contracts: its name, the keys by validator index,
/// the relay and its protocol.
pub struct InclusionBoostView {
    pub module_id: Seq<char>,
    pub validator_keys: Map<usize, BlsPublicKey>,
    pub relay_url: Seq<char>,
    pub protocol: ProtocolConfigView,
}

impl View for InclusionBoost {
    type V = InclusionBoostView;

    open spec fn view(&self) -> InclusionBoostView {
        InclusionBoostView {
            module_id: self.module_id@,
            validator_keys: self.validator_keys@,
            relay_url: self.relay_url@,
            protocol: self.protocol@,
        }
    }
}

impl InclusionBoost {
    /// The module `module_id` with the keys `validator_keys`, submitting to
    /// the relay at `relay_url` in the default protocol.
    pub fn new(module_id: String, validator_keys: HashMap<usize, BlsPublicKey>, relay_url: String) -> (boost:
        Self)
        ensures
            boost@.module_id == module_id@,
            boost@.validator_keys == validator_keys@,
            boost@.relay_url == relay_url@,
            boost@.protocol == default_protocol(),
    {
        InclusionBoost { module_id, validator_keys, relay_url, protocol: ProtocolConfig::default() }
    }

    /// The same module, speaking `protocol` to the relay.
    pub fn with_protocol(self, protocol: ProtocolConfig) -> (boost: Self)
        ensures
            boost@ == (InclusionBoostView { protocol: protocol@, ..self@ }),
    {
        InclusionBoost {
            module_id: self.module_id,
            validator_keys: self.validator_keys,
            relay_url: self.relay_url,
            protocol,
        }
    }

    /// The pending transactions that a builder could have put into `block` and
    /// did not, as constraints in the order of `transactions`: every
    /// transaction that offers a tip while the block's unused gas is not used
    /// up by those before it.
    pub fn get_filtered_transactions(transactions: &Vec<Transaction>, block: &Block) -> (filtered: Vec<
        Constraint,
    >)
        requires
            block.gas_used <= block.gas_limit,
        ensures
            constraint_views(filtered@) == censored(
                transaction_views(transactions@),
                unused_gas(block@),
            ).map_values(|t: TransactionView| constraint_of(t)),
    {
        let gas_left: u64 = block.gas_limit - block.gas_used;
        let taken: Vec<bool> = select(transactions, gas_left);
        let ghost views = transaction_views(transactions@);
        let ghost wrap = |t: TransactionView| constraint_of(t);
        let mut filtered: Vec<Constraint> = Vec::new();
        let mut i: usize = 0;
        while i < transactions.len()
            invariant
                i <= transactions@.len(),
                taken@.len() == transactions@.len(),
                views == transaction_views(transactions@),
                wrap == |t: TransactionView| constraint_of(t),
                forall|k: int|
                    0 <= k < transactions@.len() ==> taken@[k] == is_censored(
                        #[trigger] transactions@[k]@,
                        gas_left_after(views.take(k), gas_left),
                    ),
                constraint_views(filtered@) == censored(views.take(i as int), gas_left).map_values(wrap),
            decreases transactions@.len() - i,
        {
            proof {
                lemma_censored_step(views, gas_left, i as int);
                assert(views[i as int] == transactions@[i as int]@);
            }
            if taken[i] {
                let transaction: &Transaction = &transactions[i];
                let raw: Vec<u8> = transaction.raw.clone();
                assert(raw@ =~= transaction.raw@);
                let constraint: Constraint = Constraint::new(raw, transaction.hash);
                assert(constraint@ == constraint_of(views[i as int]));
                let ghost before = constraint_views(filtered@);
                filtered.push(constraint);
                assert(constraint_views(filtered@) =~= before.push(constraint@));
                assert(constraint_views(filtered@) =~= censored(views.take(i + 1), gas_left).map_values(
                    wrap,
                ));
            }
            i = i + 1;
        }
        assert(views.take(i as int) =~= views);
        filtered
    }

    /// The key of validator `validator_index`, where the signer holds it.
    pub fn validator_key(&self, validator_index: usize) -> (key: Option<BlsPublicKey>)
        ensures
            match key {
                Some(found) => self@.validator_keys.contains_key(validator_index)
                    && self@.validator_keys[validator_index] == found,
                None => !self@.validator_keys.contains_key(validator_index),
            },
    {
        match self.validator_keys.get(&validator_index) {
            Some(key) => Some(*key),
            None => None,
        }
    }

    /// The request to sign `inclusion_list` under `validator_key`: it
    /// carries the hash-tree root of the list.
    pub fn sign_inclusion_list(&self, inclusion_list: &InclusionList, validator_key: BlsPublicKey) -> (request:
        SignRequest)
        ensures
            request@.id == self@.module_id,
            request@.pubkey == validator_key,
            request@.object_root == inclusion_list_root(inclusion_list@),
    {
        SignRequest {
            id: self.module_id.clone(),
            pubkey: validator_key,
            object_root: inclusion_list.tree_hash_root(),
        }
    }

    /// First step of delegating the inclusion list of `slot` to this
    /// module: the delegation message and the request to sign it.  `None`
    /// where the signer holds no key of `validator_index`; nothing is then
    /// signed or sent.
    pub fn delegate_inclusion_list_authority(&self, validator_index: usize, slot: u64) -> (delegation:
        Option<Delegation>)
        ensures
            match delegation {
                Some(found) => {
                    &&& self@.validator_keys.contains_key(validator_index)
                    &&& found.message == delegate_message_for(
                        self@.protocol,
                        self@.validator_keys[validator_index],
                        slot,
                    )
                    &&& found.request@.id == self@.module_id
                    &&& found.request@.pubkey == self@.validator_keys[validator_index]
                    &&& found.request@.object_root == delegate_message_root(found.message)
                },
                None => !self@.validator_keys.contains_key(validator_index),
            },
    {
        match self.validator_key(validator_index) {
            None => None,
            Some(key) => {
                let message = InclusionListDelegateMessage {
                    preconfer_pubkey: key,
                    slot_number: slot,
                    chain_id: self.protocol.chain_id,
                    gas_limit: self.protocol.delegate_gas_limit,
                };
                let request = SignRequest {
                    id: self.module_id.clone(),
                    pubkey: key,
                    object_root: message.tree_hash_root(),
                };
                Some(Delegation { message, request })
            },
        }
    }

    /// First step of submitting `inclusion_list` for `validator_index`:
    /// the request to sign it.  `None` where the signer holds no key of
    /// that validator; nothing is then signed or sent.
    pub fn submit_inclusion_list_to_relay(&self, validator_index: usize, inclusion_list: &InclusionList) -> (request:
        Option<SignRequest>)
        ensures
            match request {
                Some(found) => {
                    &&& self@.validator_keys.contains_key(validator_index)
                    &&& found@.id == self@.module_id
                    &&& found@.pubkey == self@.validator_keys[validator_index]
                    &&& found@.object_root == inclusion_list_root(inclusion_list@)
                },
                None => !self@.validator_keys.contains_key(validator_index),
            },
    {
        match self.validator_key(validator_index) {
            None => None,
            Some(key) => Some(self.sign_inclusion_list(inclusion_list, key)),
        }
    }

    /// The submission of a signed inclusion list to the relay.
    pub fn post_inclusion_request(&self, signature: BlsSignature, inclusion_list: InclusionList) -> (post:
        RelayPost)
        ensures
            post@.url == self@.relay_url + self@.protocol.constraints_path,
            post@.body == (RelayBodyView::Constraints { message: inclusion_list@, signature }),
            post@.timeout_secs == self@.protocol.relay_timeout_secs,
    {
        RelayPost {
            url: concat(self.relay_url.as_str(), self.protocol.constraints_path.as_str()),
            body: RelayBody::Constraints(InclusionRequest { message: inclusion_list, signature }),
            timeout_secs: self.protocol.relay_timeout_secs,
        }
    }

    /// The submission of a signed delegation to the relay.
    pub fn post_inclusion_delegate_request(&self, signed_message: InclusionListDelegateSignedMessage) -> (post:
        RelayPost)
        ensures
            post@.url == self@.relay_url + self@.protocol.delegate_path,
            post@.body == RelayBodyView::Delegation(signed_message),
            post@.timeout_secs == self@.protocol.relay_timeout_secs,
    {
        RelayPost {
            url: concat(self.relay_url.as_str(), self.protocol.delegate_path.as_str()),
            body: RelayBody::Delegation(signed_message),
            timeout_secs: self.protocol.relay_timeout_secs,
        }
    }
}

} // verus!
