//! The duty cycle: which outside operation the sidecar asks for next.
//!
//! The cycle is a state machine.  The program that embeds it performs one
//! outside operation at a time, the one that the machine asked for last,
//! and hands the result back as an event; the machine answers with its next
//! state and the next operation.

use vstd::prelude::*;
use vstd::string::StringExecFns;
use std::collections::HashMap;
use crate::config::InclusionListConfig;
use crate::inclusion_boost::cache::{inserted, InclusionBoostCache, InclusionBoostCacheView};
use crate::inclusion_boost::error::{ErrorKind, InclusionListBoostError};
use crate::inclusion_boost::types::{
    capped, delegate_message_root, inclusion_list_root, transaction_views, Block,
    BlockView, BlsPublicKey, BlsSignature, Constraint, Hash256, InclusionList,
    InclusionListDelegateMessage, InclusionListDelegateSignedMessage, InclusionListView, Transaction,
    TransactionView, MAX_INCLUSION_LIST_LENGTH,
};
use crate::inclusion_boost::{
    censored, constraint_of, delegate_message_for, unused_gas, InclusionBoost, InclusionBoostView,
    default_protocol, ProtocolConfig, RelayBodyView, RelayPost, RelayPostView, SignRequest,
    SignRequestView,
};
use crate::lookahead::error::{LookaheadError, LookaheadErrorKind};
use crate::lookahead::{
    epoch_of, number_field, read_number_field, reports, upcoming, FieldReading, LookaheadProvider,
    ProposerDuty, SLOTS_PER_EPOCH,
};
use crate::text::{concat, decimal_digits, hex_encode, prefixed_hex, u64_to_string};

verus! {

broadcast use vstd::std_specs::hash::group_hash_axioms;

/// Seconds to wait before an operation of the start is tried once more:
/// asking the signer for its keys, or the beacon node for a validator.
pub const PUBKEY_RETRY_SECS: u64 = 5;

/// A change of the head of the beacon chain, as the beacon node announces
/// it.
#[derive(Clone, Copy, Debug, PartialEq, Eq)]
pub struct HeadEvent {
    pub slot: u64,
    pub block: Hash256,
    pub epoch_transition: bool,
}

/// The result of the outside operation that the machine asked for last.
#[derive(Debug)]
pub enum Event {
    /// Nothing was asked for yet: the cycle begins.
    Start,
    /// The public keys that the signer holds.
    Pubkeys(Vec<BlsPublicKey>),
    /// The time asked for has passed.
    Waited,
    /// The body of the beacon node's answer to a GET request.
    Body(String),
    /// The proposer duties of the epoch asked for.
    Duties(Vec<ProposerDuty>),
    /// The signature asked for.
    Signature(BlsSignature),
    /// The status of the relay's answer to a submission.
    RelayStatus(u16),
    /// The next head event of the stream.
    Head(HeadEvent),
    /// The stream of head events has ended.
    StreamEnded,
    /// The block asked for, or its absence.
    Block(Option<Block>),
    /// The pending transactions of the execution node's pool.
    Pending(Vec<Transaction>),
    /// The operation failed.
    Failed(InclusionListBoostError),
}

/// What an event is in contracts.  Of a failure only the kind counts.
pub enum EventView {
    Start,
    Pubkeys(Seq<BlsPublicKey>),
    Waited,
    Body(Seq<char>),
    Duties(Seq<ProposerDuty>),
    Signature(BlsSignature),
    RelayStatus(u16),
    Head(HeadEvent),
    StreamEnded,
    Block(Option<BlockView>),
    Pending(Seq<TransactionView>),
    Failed(ErrorKind),
}

impl View for Event {
    type V = EventView;

    open spec fn view(&self) -> EventView {
        match self {
            Event::Start => EventView::Start,
            Event::Pubkeys(keys) => EventView::Pubkeys(keys@),
            Event::Waited => EventView::Waited,
            Event::Body(text) => EventView::Body(text@),
            Event::Duties(duties) => EventView::Duties(duties@),
            Event::Signature(signature) => EventView::Signature(*signature),
            Event::RelayStatus(status) => EventView::RelayStatus(*status),
            Event::Head(head) => EventView::Head(*head),
            Event::StreamEnded => EventView::StreamEnded,
            Event::Block(Some(block)) => EventView::Block(Some(block@)),
            Event::Block(None) => EventView::Block(None),
            Event::Pending(transactions) => EventView::Pending(transaction_views(transactions@)),
            Event::Failed(error) => EventView::Failed(error@),
        }
    }
}

/// The outside operation that the machine asks for.
#[derive(Debug)]
pub enum Action {
    /// Ask the signer for the public keys it holds.
    LoadPubkeys,
    /// Let this many seconds pass.
    Wait { secs: u64 },
    /// Send a GET request to the beacon node and hand back the body.
    Get { url: String },
    /// Ask the beacon node for the proposer duties of an epoch.
    FetchDuties { epoch: u64 },
    /// Ask the signer for a signature.
    Sign(SignRequest),
    /// Submit to the relay.
    Post(RelayPost),
    /// Wait for the next head event of the stream.
    NextHead,
    /// Ask the execution node for a block with its transactions.
    FetchBlock { number: u64 },
    /// Ask the execution node for the pending transactions of its pool.
    FetchPending,
    /// End the cycle, with this result.
    Stop(Result<(), InclusionListBoostError>),
}

/// What an operation is in contracts.  Of an error only the kind counts.
pub enum ActionView {
    LoadPubkeys,
    Wait { secs: u64 },
    Get { url: Seq<char> },
    FetchDuties { epoch: u64 },
    Sign(SignRequestView),
    Post(RelayPostView),
    NextHead,
    FetchBlock { number: u64 },
    FetchPending,
    Stop(Result<(), ErrorKind>),
}

impl View for Action {
    type V = ActionView;

    open spec fn view(&self) -> ActionView {
        match self {
            Action::LoadPubkeys => ActionView::LoadPubkeys,
            Action::Wait { secs } => ActionView::Wait { secs: *secs },
            Action::Get { url } => ActionView::Get { url: url@ },
            Action::FetchDuties { epoch } => ActionView::FetchDuties { epoch: *epoch },
            Action::Sign(request) => ActionView::Sign(request@),
            Action::Post(post) => ActionView::Post(post@),
            Action::NextHead => ActionView::NextHead,
            Action::FetchBlock { number } => ActionView::FetchBlock { number: *number },
            Action::FetchPending => ActionView::FetchPending,
            Action::Stop(Ok(())) => ActionView::Stop(Ok(())),
            Action::Stop(Err(error)) => ActionView::Stop(Err(error@)),
        }
    }
}

/// What the machine is waiting for.
#[derive(Debug)]
pub enum Phase {
    /// For the cycle to begin.
    Idle,
    /// For the signer's public keys.
    LoadingPubkeys,
    /// For the time to pass after which the signer is asked again.
    WaitingToRetry,
    /// For the beacon node's answer on the validator with key
    /// `pubkeys[next]`.
    ResolvingIndex { pubkeys: Vec<BlsPublicKey>, next: usize },
    /// For the time to pass after which the beacon node is asked again for
    /// the validator with key `pubkeys[next]`.
    WaitingToResolve { pubkeys: Vec<BlsPublicKey>, next: usize },
    /// For the header of the head, to fetch the duties of its epoch or, with
    /// `next_epoch`, of the epoch after it.  `resume` is the head event
    /// whose handling the refresh interrupts.
    FetchingHeadSlot { next_epoch: bool, resume: Option<HeadEvent> },
    /// For the duties of the epoch asked for.
    FetchingDuties { next_epoch: bool, head_slot: u64, resume: Option<HeadEvent> },
    /// For the signature under the delegation of the duty at `index` of the
    /// next epoch's lookahead.
    SigningDelegation { index: usize, message: InclusionListDelegateMessage, resume: Option<HeadEvent> },
    /// For the relay's answer to that delegation.
    PostingDelegation { index: usize, resume: Option<HeadEvent> },
    /// For the next head event.
    Listening,
    /// For the beacon block of the slot before the head, which names the
    /// execution block.
    FetchingBlockNumber { duty: ProposerDuty },
    /// For that execution block.
    FetchingBlock { duty: ProposerDuty },
    /// For the pending transactions.
    FetchingPending { duty: ProposerDuty, block: Block },
    /// For the signature under the inclusion list.
    SigningList { duty: ProposerDuty, block: Block, list: InclusionList },
    /// For the relay's answer to the inclusion list.
    PostingList { duty: ProposerDuty, block: Block, list: InclusionList },
    /// For nothing: the cycle has ended.
    Stopped,
}

/// What a phase is in contracts.
pub enum PhaseView {
    Idle,
    LoadingPubkeys,
    WaitingToRetry,
    ResolvingIndex { pubkeys: Seq<BlsPublicKey>, next: usize },
    WaitingToResolve { pubkeys: Seq<BlsPublicKey>, next: usize },
    FetchingHeadSlot { next_epoch: bool, resume: Option<HeadEvent> },
    FetchingDuties { next_epoch: bool, head_slot: u64, resume: Option<HeadEvent> },
    SigningDelegation { index: usize, message: InclusionListDelegateMessage, resume: Option<HeadEvent> },
    PostingDelegation { index: usize, resume: Option<HeadEvent> },
    Listening,
    FetchingBlockNumber { duty: ProposerDuty },
    FetchingBlock { duty: ProposerDuty },
    FetchingPending { duty: ProposerDuty, block: BlockView },
    SigningList { duty: ProposerDuty, block: BlockView, list: InclusionListView },
    PostingList { duty: ProposerDuty, block: BlockView, list: InclusionListView },
    Stopped,
}

impl View for Phase {
    type V = PhaseView;

    open spec fn view(&self) -> PhaseView {
        match self {
            Phase::Idle => PhaseView::Idle,
            Phase::LoadingPubkeys => PhaseView::LoadingPubkeys,
            Phase::WaitingToRetry => PhaseView::WaitingToRetry,
            Phase::ResolvingIndex { pubkeys, next } => PhaseView::ResolvingIndex {
                pubkeys: pubkeys@,
                next: *next,
            },
            Phase::WaitingToResolve { pubkeys, next } => PhaseView::WaitingToResolve {
                pubkeys: pubkeys@,
                next: *next,
            },
            Phase::FetchingHeadSlot { next_epoch, resume } => PhaseView::FetchingHeadSlot {
                next_epoch: *next_epoch,
                resume: *resume,
            },
            Phase::FetchingDuties { next_epoch, head_slot, resume } => PhaseView::FetchingDuties {
                next_epoch: *next_epoch,
                head_slot: *head_slot,
                resume: *resume,
            },
            Phase::SigningDelegation { index, message, resume } => PhaseView::SigningDelegation {
                index: *index,
                message: *message,
                resume: *resume,
            },
            Phase::PostingDelegation { index, resume } => PhaseView::PostingDelegation {
                index: *index,
                resume: *resume,
            },
            Phase::Listening => PhaseView::Listening,
            Phase::FetchingBlockNumber { duty } => PhaseView::FetchingBlockNumber { duty: *duty },
            Phase::FetchingBlock { duty } => PhaseView::FetchingBlock { duty: *duty },
            Phase::FetchingPending { duty, block } => PhaseView::FetchingPending {
                duty: *duty,
                block: block@,
            },
            Phase::SigningList { duty, block, list } => PhaseView::SigningList {
                duty: *duty,
                block: block@,
                list: list@,
            },
            Phase::PostingList { duty, block, list } => PhaseView::PostingList {
                duty: *duty,
                block: block@,
                list: list@,
            },
            Phase::Stopped => PhaseView::Stopped,
        }
    }
}

/// The sidecar: the keys it signs for, the duties it knows of, and what it
/// is waiting for.
#[derive(Debug)]
pub struct InclusionSideCar {
    inclusion_boost: InclusionBoost,
    il_config: InclusionListConfig,
    lookahead: Vec<ProposerDuty>,
    next_lookahead: Vec<ProposerDuty>,
    phase: Phase,
}

/// What the sidecar is in contracts.
pub struct InclusionSideCarView {
    /// Module name, validator keys and relay.
    pub boost: InclusionBoostView,
    /// Base URL of the beacon node.
    pub beacon_api: Seq<char>,
    /// The duties of the current epoch that were still to come when they
    /// were fetched.
    pub lookahead: Seq<ProposerDuty>,
    /// The duties of the next epoch.
    pub next_lookahead: Seq<ProposerDuty>,
    /// What the machine is waiting for.
    pub phase: PhaseView,
}

impl View for InclusionSideCar {
    type V = InclusionSideCarView;

    closed spec fn view(&self) -> InclusionSideCarView {
        InclusionSideCarView {
            boost: self.inclusion_boost@,
            beacon_api: self.il_config.beacon_api@,
            lookahead: self.lookahead@,
            next_lookahead: self.next_lookahead@,
            phase: self.phase@,
        }
    }
}

/// What the machine says where it ends the cycle because an event does not
/// answer the operation it asked for.
pub const UNEXPECTED_EVENT: &'static str = "unexpected event";

/// What the machine says where it ends the cycle because a block claims to
/// have used more gas than its limit.
pub const GAS_OVER_LIMIT: &'static str = "block used more gas than its limit";

/// Where the beacon node holds the validator index in its answer on one
/// validator.
pub const VALIDATOR_INDEX_POINTER: &'static str = "/data/0/index";

/// Where the beacon node holds the number of the execution block in its
/// answer on one beacon block.
pub const BLOCK_NUMBER_POINTER: &'static str = "/data/message/body/execution_payload/block_number";

/// The URL that tells the header of the head.
pub open spec fn head_url(beacon_api: Seq<char>) -> Seq<char> {
    beacon_api + "/eth/v1/beacon/headers/"@ + "head"@
}

/// The URL that tells the validator with the public key `key`.
pub open spec fn validator_url(beacon_api: Seq<char>, key: BlsPublicKey) -> Seq<char> {
    beacon_api + "/eth/v1/beacon/states/head/validators?id="@ + prefixed_hex(key.bytes@)
}

/// The URL that tells the beacon block of `slot`.
pub open spec fn block_url(beacon_api: Seq<char>, slot: u64) -> Seq<char> {
    beacon_api + "/eth/v1/beacon/blocks/"@ + decimal_digits(slot as nat)
}

/// The URL of the stream of head events.
pub open spec fn events_url(beacon_api: Seq<char>) -> Seq<char> {
    beacon_api + "/eth/v1/events?topics=head"@
}

/// The next state of the machine and the operation it asks for.
pub struct Next {
    pub state: InclusionSideCarView,
    pub action: ActionView,
}

/// The machine in `phase`, asking for `action`.
pub open spec fn go(state: InclusionSideCarView, phase: PhaseView, action: ActionView) -> Next {
    Next { state: InclusionSideCarView { phase, ..state }, action }
}

/// The machine at its end because of an error of kind `kind`.
pub open spec fn stop(state: InclusionSideCarView, kind: ErrorKind) -> Next {
    go(state, PhaseView::Stopped, ActionView::Stop(Err(kind)))
}

/// The machine waiting for the next head event.
pub open spec fn listen(state: InclusionSideCarView) -> Next {
    go(state, PhaseView::Listening, ActionView::NextHead)
}

/// The machine asking for the header of the head, to fetch the current
/// lookahead and after it the next one.
pub open spec fn refresh(state: InclusionSideCarView, resume: Option<HeadEvent>) -> Next {
    go(
        state,
        PhaseView::FetchingHeadSlot { next_epoch: false, resume },
        ActionView::Get { url: head_url(state.beacon_api) },
    )
}

/// The machine resolving the keys from `pubkeys[i]` on, and refreshing the
/// lookaheads once all are resolved.
pub open spec fn resolve_from(state: InclusionSideCarView, pubkeys: Seq<BlsPublicKey>, i: int) -> Next {
    if 0 <= i < pubkeys.len() && i <= usize::MAX {
        go(
            state,
            PhaseView::ResolvingIndex { pubkeys, next: i as usize },
            ActionView::Get { url: validator_url(state.beacon_api, pubkeys[i]) },
        )
    } else {
        refresh(state, None)
    }
}

/// The state in which the validator with index `index` is known to have
/// the key `key`.  An index that is no `usize` is not recorded.
pub open spec fn register(state: InclusionSideCarView, index: u64, key: BlsPublicKey) -> InclusionSideCarView {
    if index <= usize::MAX {
        InclusionSideCarView {
            boost: InclusionBoostView {
                validator_keys: state.boost.validator_keys.insert(index as usize, key),
                ..state.boost
            },
            ..state
        }
    } else {
        state
    }
}

/// The first index from `from` on at which `duties` names a validator
/// whose key is in `keys`, or the length of `duties` where there is none.
pub open spec fn next_controlled(duties: Seq<ProposerDuty>, keys: Map<usize, BlsPublicKey>, from: int) -> int
    decreases duties.len() - from,
{
    if from < 0 || from >= duties.len() {
        duties.len() as int
    } else if keys.contains_key(duties[from].validator_index) {
        from
    } else {
        next_controlled(duties, keys, from + 1)
    }
}

/// `next_controlled` finds the first duty from `from` on whose validator
/// has a key in `keys`: no duty before the one it finds has one.  So the
/// machine, which goes on from behind each duty it has delegated for,
/// delegates once for each such duty of the next epoch, in their order.
pub proof fn lemma_next_controlled(duties: Seq<ProposerDuty>, keys: Map<usize, BlsPublicKey>, from: int)
    requires
        0 <= from <= duties.len(),
    ensures
        from <= next_controlled(duties, keys, from) <= duties.len(),
        forall|k: int|
            from <= k < next_controlled(duties, keys, from) ==> !keys.contains_key(
                (#[trigger] duties[k]).validator_index,
            ),
        next_controlled(duties, keys, from) < duties.len() ==> keys.contains_key(
            duties[next_controlled(duties, keys, from)].validator_index,
        ),
    decreases duties.len() - from,
{
    if from < duties.len() && !keys.contains_key(duties[from].validator_index) {
        lemma_next_controlled(duties, keys, from + 1);
    }
}

/// The first duty for `slot` from index `from` on, if there is one.
pub open spec fn find_duty(lookahead: Seq<ProposerDuty>, slot: int, from: int) -> Option<ProposerDuty>
    decreases lookahead.len() - from,
{
    if from < 0 || from >= lookahead.len() {
        None
    } else if lookahead[from].slot == slot {
        Some(lookahead[from])
    } else {
        find_duty(lookahead, slot, from + 1)
    }
}

/// The machine turning to the proposer of the slot after `head`: where a
/// duty for that slot is known and the head has a slot before it, the
/// machine asks for the beacon block of that slot; else it goes back to
/// listening.
pub open spec fn resolve_duty(state: InclusionSideCarView, head: HeadEvent) -> Next {
    match find_duty(state.lookahead, head.slot + 1, 0) {
        Some(duty) if head.slot > 0 => go(
            state,
            PhaseView::FetchingBlockNumber { duty },
            ActionView::Get { url: block_url(state.beacon_api, (head.slot - 1) as u64) },
        ),
        _ => listen(state),
    }
}

/// The machine after a refresh: back to the head event that the refresh
/// interrupted, or listening where there was none.
pub open spec fn after_refresh(state: InclusionSideCarView, resume: Option<HeadEvent>) -> Next {
    match resume {
        Some(head) => resolve_duty(state, head),
        None => listen(state),
    }
}

/// The machine delegating for the duties of the next epoch from index
/// `from` on: it asks for the signature under the delegation of the first
/// duty whose validator it signs for, and is done with the refresh where
/// there is none.
pub open spec fn delegate_from(state: InclusionSideCarView, from: int, resume: Option<HeadEvent>) -> Next {
    let index = next_controlled(state.next_lookahead, state.boost.validator_keys, from);
    if 0 <= index < state.next_lookahead.len() && index <= usize::MAX {
        let duty = state.next_lookahead[index];
        let key = state.boost.validator_keys[duty.validator_index];
        let message = delegate_message_for(state.boost.protocol, key, duty.slot);
        go(
            state,
            PhaseView::SigningDelegation { index: index as usize, message, resume },
            ActionView::Sign(
                SignRequestView {
                    id: state.boost.module_id,
                    pubkey: key,
                    object_root: delegate_message_root(message),
                },
            ),
        )
    } else {
        after_refresh(state, resume)
    }
}

/// The kind of error that a reading which is no number and no absence
/// stands for.
pub open spec fn reading_error(reading: FieldReading) -> LookaheadErrorKind {
    match reading {
        FieldReading::NotJson => LookaheadErrorKind::Serde,
        _ => LookaheadErrorKind::ParseInt,
    }
}

/// The inclusion list that the proposer of `slot` attests to, given the
/// pending transactions and the previous block.
pub open spec fn list_for(
    slot: u64,
    validator_index: usize,
    pending: Seq<TransactionView>,
    block: BlockView,
) -> InclusionListView {
    InclusionListView {
        slot,
        validator_index,
        constraints: capped(
            censored(pending, unused_gas(block)).map_values(|t: TransactionView| constraint_of(t)),
            MAX_INCLUSION_LIST_LENGTH,
        ),
    }
}

/// The cache after the transactions of `block` have been put in.
pub open spec fn with_block(cache: InclusionBoostCacheView, block: BlockView) -> InclusionBoostCacheView {
    InclusionBoostCacheView {
        blocks: inserted(cache.blocks, block.number, block.transactions, cache.retention_offset),
        ..cache
    }
}

/// The cache after `list` has been put in for `slot`.
pub open spec fn with_list(cache: InclusionBoostCacheView, slot: u64, list: InclusionListView) -> InclusionBoostCacheView {
    InclusionBoostCacheView {
        inclusion_lists: inserted(cache.inclusion_lists, slot, list, cache.retention_offset),
        ..cache
    }
}

/// What the machine does with the cache on `event`: it remembers the
/// observed block once the pending transactions have arrived for a slot
/// whose proposer it does not sign for, and the block and the list once
/// the relay has answered a submission.
pub open spec fn cache_after(state: InclusionSideCarView, cache: InclusionBoostCacheView, event: EventView) -> InclusionBoostCacheView {
    match (state.phase, event) {
        (PhaseView::FetchingPending { duty, block }, EventView::Pending(_)) => {
            if state.boost.validator_keys.contains_key(duty.validator_index) {
                cache
            } else {
                with_block(cache, block)
            }
        },
        (PhaseView::PostingList { duty, block, list }, EventView::RelayStatus(_)) => with_list(
            with_block(cache, block),
            duty.slot,
            list,
        ),
        _ => cache,
    }
}

/// The next state and operation of the machine in `state` on `event`.
pub open spec fn next(state: InclusionSideCarView, event: EventView) -> Next {
    match (state.phase, event) {
        (PhaseView::Idle, EventView::Start) => go(
            state,
            PhaseView::LoadingPubkeys,
            ActionView::LoadPubkeys,
        ),
        (PhaseView::LoadingPubkeys, EventView::Pubkeys(pubkeys)) => resolve_from(state, pubkeys, 0),
        (PhaseView::LoadingPubkeys, EventView::Failed(_)) => go(
            state,
            PhaseView::WaitingToRetry,
            ActionView::Wait { secs: PUBKEY_RETRY_SECS },
        ),
        (PhaseView::WaitingToRetry, EventView::Waited) => go(
            state,
            PhaseView::LoadingPubkeys,
            ActionView::LoadPubkeys,
        ),
        (PhaseView::ResolvingIndex { pubkeys, next }, EventView::Body(text)) => {
            if next < pubkeys.len() {
                match number_field(text, VALIDATOR_INDEX_POINTER@) {
                    FieldReading::Number(index) => resolve_from(
                        register(state, index, pubkeys[next as int]),
                        pubkeys,
                        next + 1,
                    ),
                    FieldReading::Absent => resolve_from(state, pubkeys, next + 1),
                    reading => stop(state, ErrorKind::Lookahead(reading_error(reading))),
                }
            } else {
                stop(state, ErrorKind::Generic(UNEXPECTED_EVENT@))
            }
        },
        (PhaseView::ResolvingIndex { pubkeys, next }, EventView::Failed(_)) => go(
            state,
            PhaseView::WaitingToResolve { pubkeys, next },
            ActionView::Wait { secs: PUBKEY_RETRY_SECS },
        ),
        (PhaseView::WaitingToResolve { pubkeys, next }, EventView::Waited) => {
            if next < pubkeys.len() {
                resolve_from(state, pubkeys, next as int)
            } else {
                stop(state, ErrorKind::Generic(UNEXPECTED_EVENT@))
            }
        },
        (PhaseView::FetchingHeadSlot { next_epoch, resume }, EventView::Body(text)) => {
            match number_field(text, "/data/header/message/slot"@) {
                FieldReading::Number(head_slot) => go(
                    state,
                    PhaseView::FetchingDuties { next_epoch, head_slot, resume },
                    ActionView::FetchDuties {
                        epoch: if next_epoch {
                            (epoch_of(head_slot) + 1) as u64
                        } else {
                            epoch_of(head_slot)
                        },
                    },
                ),
                FieldReading::Absent => stop(
                    state,
                    ErrorKind::Lookahead(LookaheadErrorKind::FailedLookahead),
                ),
                reading => stop(state, ErrorKind::Lookahead(reading_error(reading))),
            }
        },
        (PhaseView::FetchingDuties { next_epoch, head_slot, resume }, EventView::Duties(duties)) => {
            if next_epoch {
                delegate_from(
                    InclusionSideCarView { next_lookahead: upcoming(duties, head_slot), ..state },
                    0,
                    resume,
                )
            } else {
                go(
                    InclusionSideCarView { lookahead: upcoming(duties, head_slot), ..state },
                    PhaseView::FetchingHeadSlot { next_epoch: true, resume },
                    ActionView::Get { url: head_url(state.beacon_api) },
                )
            }
        },
        (PhaseView::SigningDelegation { index, message, resume }, EventView::Signature(signature)) => go(
            state,
            PhaseView::PostingDelegation { index, resume },
            ActionView::Post(
                RelayPostView {
                    url: state.boost.relay_url + state.boost.protocol.delegate_path,
                    body: RelayBodyView::Delegation(
                        InclusionListDelegateSignedMessage { message, signature },
                    ),
                    timeout_secs: state.boost.protocol.relay_timeout_secs,
                },
            ),
        ),
        (PhaseView::SigningDelegation { index, message, resume }, EventView::Failed(_)) => delegate_from(
            state,
            index + 1,
            resume,
        ),
        (PhaseView::PostingDelegation { index, resume }, EventView::RelayStatus(_)) => delegate_from(
            state,
            index + 1,
            resume,
        ),
        (PhaseView::PostingDelegation { index, resume }, EventView::Failed(_)) => delegate_from(
            state,
            index + 1,
            resume,
        ),
        (PhaseView::Listening, EventView::Head(head)) => {
            if head.epoch_transition {
                refresh(state, Some(head))
            } else {
                resolve_duty(state, head)
            }
        },
        (PhaseView::Listening, EventView::StreamEnded) => go(
            state,
            PhaseView::Stopped,
            ActionView::Stop(Ok(())),
        ),
        (PhaseView::FetchingBlockNumber { duty }, EventView::Body(text)) => {
            match number_field(text, BLOCK_NUMBER_POINTER@) {
                FieldReading::Number(number) => go(
                    state,
                    PhaseView::FetchingBlock { duty },
                    ActionView::FetchBlock { number },
                ),
                FieldReading::Absent => listen(state),
                FieldReading::NotJson => stop(state, ErrorKind::Serde),
                FieldReading::NotANumber => stop(state, ErrorKind::ParseInt),
            }
        },
        (PhaseView::FetchingBlock { duty }, EventView::Block(Some(block))) => go(
            state,
            PhaseView::FetchingPending { duty, block },
            ActionView::FetchPending,
        ),
        (PhaseView::FetchingBlock { duty }, EventView::Block(None)) => listen(state),
        (PhaseView::FetchingPending { duty, block }, EventView::Pending(pending)) => {
            if !state.boost.validator_keys.contains_key(duty.validator_index) {
                listen(state)
            } else if block.gas_used > block.gas_limit {
                stop(state, ErrorKind::Generic(GAS_OVER_LIMIT@))
            } else {
                let list = list_for(duty.slot, duty.validator_index, pending, block);
                go(
                    state,
                    PhaseView::SigningList { duty, block, list },
                    ActionView::Sign(
                        SignRequestView {
                            id: state.boost.module_id,
                            pubkey: state.boost.validator_keys[duty.validator_index],
                            object_root: inclusion_list_root(list),
                        },
                    ),
                )
            }
        },
        (PhaseView::SigningList { duty, block, list }, EventView::Signature(signature)) => go(
            state,
            PhaseView::PostingList { duty, block, list },
            ActionView::Post(
                RelayPostView {
                    url: state.boost.relay_url + state.boost.protocol.constraints_path,
                    body: RelayBodyView::Constraints { message: list, signature },
                    timeout_secs: state.boost.protocol.relay_timeout_secs,
                },
            ),
        ),
        (PhaseView::PostingList { duty, block, list }, EventView::RelayStatus(_)) => listen(state),
        (PhaseView::Stopped, _) => stop(state, ErrorKind::Generic(UNEXPECTED_EVENT@)),
        (_, EventView::Failed(kind)) => stop(state, kind),
        _ => stop(state, ErrorKind::Generic(UNEXPECTED_EVENT@)),
    }
}

/// The validator index in the beacon node's answer on one validator.
pub fn get_validator_index(body: &str) -> (index: Result<Option<u64>, LookaheadError>)
    ensures
        reports(index, number_field(body@, VALIDATOR_INDEX_POINTER@)),
{
    read_number_field(body, VALIDATOR_INDEX_POINTER)
}

/// Whether `result` reports `reading` as the number of an execution
/// block: the number or its absence, a `Serde` error for an answer that is
/// no JSON, a `ParseIntError` for a field that holds no number.
pub open spec fn reports_block_number(
    result: Result<Option<u64>, InclusionListBoostError>,
    reading: FieldReading,
) -> bool {
    match reading {
        FieldReading::Number(number) => result == Ok::<Option<u64>, InclusionListBoostError>(
            Some(number),
        ),
        FieldReading::Absent => result == Ok::<Option<u64>, InclusionListBoostError>(None),
        FieldReading::NotJson => result matches Err(InclusionListBoostError::Serde(_)),
        FieldReading::NotANumber => result matches Err(InclusionListBoostError::ParseIntError),
    }
}

/// The number of the execution block in the beacon node's answer on one
/// beacon block.
pub fn get_block_number_by_slot(body: &str) -> (number: Result<Option<u64>, InclusionListBoostError>)
    ensures
        reports_block_number(number, number_field(body@, BLOCK_NUMBER_POINTER@)),
{
    match read_number_field(body, BLOCK_NUMBER_POINTER) {
        Ok(number) => Ok(number),
        Err(LookaheadError::Serde(error)) => Err(InclusionListBoostError::Serde(error)),
        Err(LookaheadError::ParseIntError) => Err(InclusionListBoostError::ParseIntError),
        Err(LookaheadError::FailedLookahead) => Err(
            InclusionListBoostError::LookaheadError(LookaheadError::FailedLookahead),
        ),
    }
}

impl InclusionSideCar {
    /// A sidecar for the module `module_id` and the services of
    /// `il_config`, speaking the default protocol to the relay.  It knows
    /// no validator keys and no duties yet.
    pub fn new(module_id: String, il_config: InclusionListConfig) -> (sidecar: Self)
        ensures
            sidecar@.boost.protocol == default_protocol(),
            sidecar@.boost.module_id == module_id@,
            sidecar@.boost.validator_keys == Map::<usize, BlsPublicKey>::empty(),
            sidecar@.boost.relay_url == il_config.relay@,
            sidecar@.beacon_api == il_config.beacon_api@,
            sidecar@.lookahead == Seq::<ProposerDuty>::empty(),
            sidecar@.next_lookahead == Seq::<ProposerDuty>::empty(),
            sidecar@.phase == PhaseView::Idle,
    {
        let inclusion_boost = InclusionBoost::new(module_id, HashMap::new(), il_config.relay.clone());
        InclusionSideCar {
            inclusion_boost,
            il_config,
            lookahead: Vec::new(),
            next_lookahead: Vec::new(),
            phase: Phase::Idle,
        }
    }

    /// The same sidecar, speaking `protocol` to the relay.
    pub fn with_protocol(self, protocol: ProtocolConfig) -> (sidecar: Self)
        ensures
            sidecar@ == (InclusionSideCarView {
                boost: InclusionBoostView { protocol: protocol@, ..self@.boost },
                ..self@
            }),
    {
        InclusionSideCar {
            inclusion_boost: self.inclusion_boost.with_protocol(protocol),
            il_config: self.il_config,
            lookahead: self.lookahead,
            next_lookahead: self.next_lookahead,
            phase: self.phase,
        }
    }

    /// What the machine is waiting for.
    pub fn phase(&self) -> (phase: &Phase)
        ensures
            phase@ == self@.phase,
    {
        &self.phase
    }

    /// The duties of the current epoch that the machine knows of.
    pub fn lookahead(&self) -> (lookahead: &Vec<ProposerDuty>)
        ensures
            lookahead@ == self@.lookahead,
    {
        &self.lookahead
    }

    /// The duties of the next epoch that the machine knows of.
    pub fn next_lookahead(&self) -> (lookahead: &Vec<ProposerDuty>)
        ensures
            lookahead@ == self@.next_lookahead,
    {
        &self.next_lookahead
    }

    /// The keys that the machine signs for, with the module name and the
    /// relay.
    pub fn inclusion_boost(&self) -> (boost: &InclusionBoost)
        ensures
            boost@ == self@.boost,
    {
        &self.inclusion_boost
    }

    /// The URL under which the beacon node streams its head events.
    pub fn events_url(&self) -> (url: String)
        ensures
            url@ == events_url(self@.beacon_api),
    {
        concat(self.il_config.beacon_api.as_str(), "/eth/v1/events?topics=head")
    }

    /// The inclusion list of `validator_index` for `slot`: the pending
    /// transactions that a builder could have put into `latest_block` and
    /// did not, as far as a list holds them.
    pub fn build_inclusion_list(
        pending: &Vec<Transaction>,
        latest_block: &Block,
        slot: u64,
        validator_index: usize,
    ) -> (list: InclusionList)
        requires
            latest_block.gas_used <= latest_block.gas_limit,
        ensures
            list@ == list_for(slot, validator_index, transaction_views(pending@), latest_block@),
    {
        let constraints: Vec<Constraint> = InclusionBoost::get_filtered_transactions(
            pending,
            latest_block,
        );
        InclusionList::new(slot, validator_index, constraints)
    }

    fn go(self, phase: Phase, action: Action) -> (next: (Self, Action))
        ensures
            next.0@ == go(self@, phase@, action@).state,
            next.1 == action,
    {
        (
            InclusionSideCar {
                inclusion_boost: self.inclusion_boost,
                il_config: self.il_config,
                lookahead: self.lookahead,
                next_lookahead: self.next_lookahead,
                phase,
            },
            action,
        )
    }

    fn stop(self, error: InclusionListBoostError) -> (next: (Self, Action))
        ensures
            next.0@ == stop(self@, error@).state,
            next.1 == Action::Stop(Err(error)),
            next.1@ == stop(self@, error@).action,
    {
        self.go(Phase::Stopped, Action::Stop(Err(error)))
    }

    fn unexpected(self) -> (next: (Self, Action))
        ensures
            next.0@ == stop(self@, ErrorKind::Generic(UNEXPECTED_EVENT@)).state,
            next.1@ == stop(self@, ErrorKind::Generic(UNEXPECTED_EVENT@)).action,
    {
        self.stop(InclusionListBoostError::GenericError(UNEXPECTED_EVENT.to_owned()))
    }

    fn listen(self) -> (next: (Self, Action))
        ensures
            next.0@ == listen(self@).state,
            next.1@ == listen(self@).action,
    {
        self.go(Phase::Listening, Action::NextHead)
    }

    fn head_url(&self) -> (url: String)
        ensures
            url@ == head_url(self@.beacon_api),
    {
        LookaheadProvider::new(self.il_config.beacon_api.as_str()).header_url("head")
    }

    fn refresh(self, resume: Option<HeadEvent>) -> (next: (Self, Action))
        ensures
            next.0@ == refresh(self@, resume).state,
            next.1@ == refresh(self@, resume).action,
    {
        let url: String = self.head_url();
        self.go(Phase::FetchingHeadSlot { next_epoch: false, resume }, Action::Get { url })
    }

    fn resolve_from(self, pubkeys: Vec<BlsPublicKey>, i: usize) -> (next: (Self, Action))
        ensures
            next.0@ == resolve_from(self@, pubkeys@, i as int).state,
            next.1@ == resolve_from(self@, pubkeys@, i as int).action,
    {
        if i < pubkeys.len() {
            let mut url: String = concat(
                self.il_config.beacon_api.as_str(),
                "/eth/v1/beacon/states/head/validators?id=",
            );
            let key: String = hex_encode(pubkeys[i].bytes.as_slice());
            url.append(key.as_str());
            self.go(Phase::ResolvingIndex { pubkeys, next: i }, Action::Get { url })
        } else {
            self.refresh(None)
        }
    }

    fn resolve_duty(self, head: HeadEvent) -> (next: (Self, Action))
        ensures
            next.0@ == resolve_duty(self@, head).state,
            next.1@ == resolve_duty(self@, head).action,
    {
        let mut found: Option<ProposerDuty> = None;
        let mut i: usize = 0;
        while i < self.lookahead.len() && found.is_none()
            invariant
                i <= self.lookahead@.len(),
                match found {
                    Some(duty) => find_duty(self.lookahead@, head.slot + 1, 0) == Some(duty),
                    None => find_duty(self.lookahead@, head.slot + 1, 0) == find_duty(
                        self.lookahead@,
                        head.slot + 1,
                        i as int,
                    ),
                },
            decreases self.lookahead@.len() - i + if found.is_none() { 1int } else { 0int },
        {
            let duty: ProposerDuty = self.lookahead[i];
            if head.slot < u64::MAX && duty.slot == head.slot + 1 {
                found = Some(duty);
            } else {
                i = i + 1;
            }
        }
        match found {
            Some(duty) => {
                if head.slot > 0 {
                    let mut url: String = concat(
                        self.il_config.beacon_api.as_str(),
                        "/eth/v1/beacon/blocks/",
                    );
                    let slot: String = u64_to_string(head.slot - 1);
                    url.append(slot.as_str());
                    self.go(Phase::FetchingBlockNumber { duty }, Action::Get { url })
                } else {
                    self.listen()
                }
            },
            None => self.listen(),
        }
    }

    fn after_refresh(self, resume: Option<HeadEvent>) -> (next: (Self, Action))
        ensures
            next.0@ == after_refresh(self@, resume).state,
            next.1@ == after_refresh(self@, resume).action,
    {
        match resume {
            Some(head) => self.resolve_duty(head),
            None => self.listen(),
        }
    }

    fn delegate_from(self, from: usize, resume: Option<HeadEvent>) -> (next: (Self, Action))
        ensures
            next.0@ == delegate_from(self@, from as int, resume).state,
            next.1@ == delegate_from(self@, from as int, resume).action,
    {
        let mut i: usize = from;
        let mut found: Option<BlsPublicKey> = None;
        while i < self.next_lookahead.len() && found.is_none()
            invariant
                from <= i,
                next_controlled(self.next_lookahead@, self.inclusion_boost@.validator_keys, from as int)
                    == next_controlled(
                    self.next_lookahead@,
                    self.inclusion_boost@.validator_keys,
                    i as int,
                ),
                match found {
                    Some(key) => {
                        &&& i < self.next_lookahead@.len()
                        &&& self.inclusion_boost@.validator_keys.contains_key(
                            self.next_lookahead@[i as int].validator_index,
                        )
                        &&& self.inclusion_boost@.validator_keys[self.next_lookahead@[i as int].validator_index]
                            == key
                    },
                    None => true,
                },
            decreases self.next_lookahead@.len() - i + if found.is_none() { 1int } else { 0int },
        {
            match self.inclusion_boost.validator_key(self.next_lookahead[i].validator_index) {
                Some(key) => {
                    found = Some(key);
                },
                None => {
                    i = i + 1;
                },
            }
        }
        match found {
            Some(key) => {
                let duty: ProposerDuty = self.next_lookahead[i];
                match self.inclusion_boost.delegate_inclusion_list_authority(
                    duty.validator_index,
                    duty.slot,
                ) {
                    Some(delegation) => self.go(
                        Phase::SigningDelegation { index: i, message: delegation.message, resume },
                        Action::Sign(delegation.request),
                    ),
                    None => self.after_refresh(resume),
                }
            },
            None => self.after_refresh(resume),
        }
    }
}

/// Whatever the relay answers to an inclusion list, the machine goes back
/// to listening: an answer that is no success is an outcome of the slot
/// and no error.
pub proof fn lemma_rejection_is_no_error(state: InclusionSideCarView, status: u16)
    requires
        state.phase is PostingList,
    ensures
        next(state, EventView::RelayStatus(status)) == listen(state),
{
}

/// A head event that begins an epoch is taken up only after the refresh:
/// the machine first asks for the header of the head, and keeps the event
/// until both lookaheads are fetched and the delegations are made.
pub proof fn lemma_epoch_transition_refreshes_first(state: InclusionSideCarView, head: HeadEvent)
    requires
        state.phase is Listening,
        head.epoch_transition,
    ensures
        next(state, EventView::Head(head)) == go(
            state,
            PhaseView::FetchingHeadSlot { next_epoch: false, resume: Some(head) },
            ActionView::Get { url: head_url(state.beacon_api) },
        ),
{
}

/// Whether the machine, waiting in `phase`, goes on after a failure of the
/// operation it asked for.  It does so while it loads the signer's keys and
/// resolves them to validators, which it tries again without end, and
/// while it delegates, where it turns to the next duty.  In every other
/// phase a failure ends the cycle at once.
pub open spec fn survives_failure(phase: PhaseView) -> bool {
    phase is LoadingPubkeys || phase is ResolvingIndex || phase is SigningDelegation
        || phase is PostingDelegation
}

impl InclusionSideCar {
    /// Takes the duty cycle one step further: `event` is the result of the
    /// operation that the machine asked for last, and the operation that
    /// it answers with is the next to perform.  The first event is
    /// `Event::Start`; after `Action::Stop` the cycle is over.
    ///
    /// An event that does not answer the operation asked for ends the
    /// cycle with a `GenericError`, and so does every event after the end.
    pub fn run(self, cache: &mut InclusionBoostCache, event: Event) -> (step: (Self, Action))
        ensures
            step.0@ == next(self@, event@).state,
            step.1@ == next(self@, event@).action,
            final(cache)@ == cache_after(self@, old(cache)@, event@),
            event matches Event::Failed(error) ==> (!survives_failure(self@.phase) && !(self@.phase
                is Stopped) ==> step.1 == Action::Stop(Err(error))),
    {
        let InclusionSideCar { inclusion_boost, il_config, lookahead, next_lookahead, phase } = self;
        let mut base = InclusionSideCar {
            inclusion_boost,
            il_config,
            lookahead,
            next_lookahead,
            phase: Phase::Stopped,
        };
        match (phase, event) {
            (Phase::Stopped, _) => base.unexpected(),
            (Phase::Idle, Event::Start) => base.go(Phase::LoadingPubkeys, Action::LoadPubkeys),
            (Phase::LoadingPubkeys, Event::Pubkeys(pubkeys)) => base.resolve_from(pubkeys, 0),
            (Phase::LoadingPubkeys, Event::Failed(_)) => base.go(
                Phase::WaitingToRetry,
                Action::Wait { secs: PUBKEY_RETRY_SECS },
            ),
            (Phase::WaitingToRetry, Event::Waited) => base.go(
                Phase::LoadingPubkeys,
                Action::LoadPubkeys,
            ),
            (Phase::ResolvingIndex { pubkeys, next }, Event::Body(text)) => {
                if next < pubkeys.len() {
                    match get_validator_index(text.as_str()) {
                        Ok(Some(index)) => {
                            if index <= usize::MAX as u64 {
                                let _ = base.inclusion_boost.validator_keys.insert(
                                    index as usize,
                                    pubkeys[next],
                                );
                            }
                            assert(base@ == (InclusionSideCarView {
                                phase: PhaseView::Stopped,
                                ..register(self@, index, pubkeys@[next as int])
                            }));
                            base.resolve_from(pubkeys, next + 1)
                        },
                        Ok(None) => base.resolve_from(pubkeys, next + 1),
                        Err(error) => base.stop(InclusionListBoostError::LookaheadError(error)),
                    }
                } else {
                    base.unexpected()
                }
            },
            (Phase::ResolvingIndex { pubkeys, next }, Event::Failed(_)) => base.go(
                Phase::WaitingToResolve { pubkeys, next },
                Action::Wait { secs: PUBKEY_RETRY_SECS },
            ),
            (Phase::WaitingToResolve { pubkeys, next }, Event::Waited) => {
                if next < pubkeys.len() {
                    base.resolve_from(pubkeys, next)
                } else {
                    base.unexpected()
                }
            },
            (Phase::FetchingHeadSlot { next_epoch, resume }, Event::Body(text)) => {
                match crate::lookahead::get_slot(text.as_str()) {
                    Ok(Some(head_slot)) => {
                        let epoch: u64 = if next_epoch {
                            head_slot / SLOTS_PER_EPOCH + 1
                        } else {
                            head_slot / SLOTS_PER_EPOCH
                        };
                        base.go(
                            Phase::FetchingDuties { next_epoch, head_slot, resume },
                            Action::FetchDuties { epoch },
                        )
                    },
                    Ok(None) => base.stop(
                        InclusionListBoostError::LookaheadError(LookaheadError::FailedLookahead),
                    ),
                    Err(error) => base.stop(InclusionListBoostError::LookaheadError(error)),
                }
            },
            (Phase::FetchingDuties { next_epoch, head_slot, resume }, Event::Duties(duties)) => {
                let provider = LookaheadProvider::new(base.il_config.beacon_api.as_str());
                if next_epoch {
                    base.next_lookahead = provider.get_next_epoch_lookahead(head_slot, duties);
                    base.delegate_from(0, resume)
                } else {
                    base.lookahead = provider.get_current_lookahead(head_slot, duties);
                    let url: String = base.head_url();
                    base.go(
                        Phase::FetchingHeadSlot { next_epoch: true, resume },
                        Action::Get { url },
                    )
                }
            },
            (Phase::SigningDelegation { index, message, resume }, Event::Signature(signature)) => {
                let post: RelayPost = base.inclusion_boost.post_inclusion_delegate_request(
                    InclusionListDelegateSignedMessage { message, signature },
                );
                base.go(Phase::PostingDelegation { index, resume }, Action::Post(post))
            },
            (Phase::SigningDelegation { index, message, resume }, Event::Failed(_)) => {
                base.delegate_after(index, resume)
            },
            (Phase::PostingDelegation { index, resume }, Event::RelayStatus(_)) => {
                base.delegate_after(index, resume)
            },
            (Phase::PostingDelegation { index, resume }, Event::Failed(_)) => {
                base.delegate_after(index, resume)
            },
            (Phase::Listening, Event::Head(head)) => {
                if head.epoch_transition {
                    base.refresh(Some(head))
                } else {
                    base.resolve_duty(head)
                }
            },
            (Phase::Listening, Event::StreamEnded) => base.go(Phase::Stopped, Action::Stop(Ok(()))),
            (Phase::FetchingBlockNumber { duty }, Event::Body(text)) => {
                match get_block_number_by_slot(text.as_str()) {
                    Ok(Some(number)) => base.go(
                        Phase::FetchingBlock { duty },
                        Action::FetchBlock { number },
                    ),
                    Ok(None) => base.listen(),
                    Err(error) => base.stop(error),
                }
            },
            (Phase::FetchingBlock { duty }, Event::Block(Some(block))) => base.go(
                Phase::FetchingPending { duty, block },
                Action::FetchPending,
            ),
            (Phase::FetchingBlock { duty }, Event::Block(None)) => base.listen(),
            (Phase::FetchingPending { duty, block }, Event::Pending(pending)) => {
                match base.inclusion_boost.validator_key(duty.validator_index) {
                    None => {
                        cache.insert_block(block.number, block.transactions);
                        base.listen()
                    },
                    Some(key) => {
                        if block.gas_used > block.gas_limit {
                            base.stop(InclusionListBoostError::GenericError(GAS_OVER_LIMIT.to_owned()))
                        } else {
                            let list: InclusionList = InclusionSideCar::build_inclusion_list(
                                &pending,
                                &block,
                                duty.slot,
                                duty.validator_index,
                            );
                            let request: SignRequest = base.inclusion_boost.sign_inclusion_list(
                                &list,
                                key,
                            );
                            base.go(Phase::SigningList { duty, block, list }, Action::Sign(request))
                        }
                    },
                }
            },
            (Phase::SigningList { duty, block, list }, Event::Signature(signature)) => {
                let post: RelayPost = base.inclusion_boost.post_inclusion_request(
                    signature,
                    list.clone(),
                );
                base.go(Phase::PostingList { duty, block, list }, Action::Post(post))
            },
            (Phase::PostingList { duty, block, list }, Event::RelayStatus(_)) => {
                cache.insert_block(block.number, block.transactions);
                cache.insert_inclusion_list(duty.slot, list);
                base.listen()
            },
            (_, Event::Failed(error)) => base.stop(error),
            _ => base.unexpected(),
        }
    }

    fn delegate_after(self, index: usize, resume: Option<HeadEvent>) -> (step: (Self, Action))
        ensures
            step.0@ == delegate_from(self@, index + 1, resume).state,
            step.1@ == delegate_from(self@, index + 1, resume).action,
    {
        if index < self.next_lookahead.len() {
            self.delegate_from(index + 1, resume)
        } else {
            self.after_refresh(resume)
        }
    }
}

} // verus!
