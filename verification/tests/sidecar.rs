use inclusion_boost::config::InclusionListConfig;
use inclusion_boost::inclusion_boost::cache::InclusionBoostCache;
use inclusion_boost::inclusion_boost::error::InclusionListBoostError;
use inclusion_boost::inclusion_boost::sidecar::{
    get_block_number_by_slot, get_validator_index, Action, Event, HeadEvent, InclusionSideCar, Phase,
};
use inclusion_boost::inclusion_boost::types::{
    Block, BlsPublicKey, BlsSignature, Constraint, InclusionList, InclusionListDelegateMessage, Transaction,
};
use inclusion_boost::inclusion_boost::{ProtocolConfig, RelayBody, RelayPost, SignRequest};
use inclusion_boost::lookahead::error::LookaheadError;
use inclusion_boost::lookahead::ProposerDuty;

const BEACON: &str = "http://beacon:5052";
const RELAY: &str = "http://relay:4040";
const HEAD_URL: &str = "http://beacon:5052/eth/v1/beacon/headers/head";

fn key(tag: u8) -> BlsPublicKey {
    BlsPublicKey { bytes: [tag; 48] }
}

fn duty(slot: u64, validator_index: usize, tag: u8) -> ProposerDuty {
    ProposerDuty { pubkey: key(tag), validator_index, slot }
}

fn head(slot: u64, epoch_transition: bool) -> HeadEvent {
    HeadEvent { slot, block: [slot as u8; 32], epoch_transition }
}

fn header(slot: u64) -> Event {
    Event::Body(format!(r#"{{"data":{{"header":{{"message":{{"slot":"{slot}"}}}}}}}}"#))
}

fn validator(index: u64) -> Event {
    Event::Body(format!(r#"{{"data":[{{"index":"{index}","balance":"32000000000"}}]}}"#))
}

fn beacon_block(number: u64) -> Event {
    Event::Body(format!(
        r#"{{"data":{{"message":{{"body":{{"execution_payload":{{"block_number":"{number}"}}}}}}}}}}"#
    ))
}

fn signature(tag: u8) -> BlsSignature {
    BlsSignature { bytes: [tag; 96] }
}

fn tx(tag: u8, gas_limit: u64, fee: Option<u128>) -> Transaction {
    Transaction { hash: [tag; 32], raw: vec![tag; 4], gas_limit, max_priority_fee_per_gas: fee, is_eip4844: false }
}

fn config() -> InclusionListConfig {
    InclusionListConfig {
        beacon_api: BEACON.to_string(),
        execution_api: "http://execution:8545".to_string(),
        relay: RELAY.to_string(),
    }
}

struct Machine {
    sidecar: Option<InclusionSideCar>,
    cache: InclusionBoostCache,
    log: Vec<String>,
}

impl Machine {
    fn new() -> Machine {
        Machine {
            sidecar: Some(InclusionSideCar::new("IL_BOOST".to_string(), config())),
            cache: InclusionBoostCache::new(10),
            log: Vec::new(),
        }
    }

    fn feed(&mut self, event: Event) -> Action {
        let (next, action) = self.sidecar.take().unwrap().run(&mut self.cache, event);
        self.sidecar = Some(next);
        self.log.push(match &action {
            Action::LoadPubkeys => "keys".to_string(),
            Action::Wait { secs } => format!("wait {secs}"),
            Action::Get { url } => format!("get {url}"),
            Action::FetchDuties { epoch } => format!("duties {epoch}"),
            Action::Sign(request) => format!("sign {}", request.pubkey.bytes[0]),
            Action::Post(post) => format!("post {}", post.url),
            Action::NextHead => "head".to_string(),
            Action::FetchBlock { number } => format!("block {number}"),
            Action::FetchPending => "pending".to_string(),
            Action::Stop(Ok(())) => "stop".to_string(),
            Action::Stop(Err(_)) => "fail".to_string(),
        });
        action
    }

    fn sidecar(&self) -> &InclusionSideCar {
        self.sidecar.as_ref().unwrap()
    }

    /// A machine that signs for validators 7 (key 1) and 9 (key 2), knows the
    /// duties of slots 61 to 64 and is listening.
    fn listening() -> Machine {
        let mut machine = Machine::new();
        machine.feed(Event::Start);
        machine.feed(Event::Pubkeys(vec![key(1), key(2)]));
        machine.feed(validator(7));
        machine.feed(validator(9));
        machine.feed(header(60));
        machine.feed(Event::Duties(vec![duty(60, 5, 0), duty(61, 7, 1), duty(62, 6, 0), duty(63, 9, 2), duty(64, 7, 1)]));
        machine.feed(header(60));
        let action = machine.feed(Event::Duties(Vec::new()));
        assert!(matches!(action, Action::NextHead));
        machine.log.clear();
        machine
    }
}

#[test]
fn the_cycle_begins_by_asking_for_the_keys() {
    let mut machine = Machine::new();
    assert!(matches!(machine.sidecar().phase(), Phase::Idle));
    assert!(matches!(machine.feed(Event::Start), Action::LoadPubkeys));
    assert!(matches!(machine.sidecar().phase(), Phase::LoadingPubkeys));
}

#[test]
fn the_keys_are_asked_for_again_after_five_seconds() {
    let mut machine = Machine::new();
    machine.feed(Event::Start);
    for _ in 0..3 {
        let action = machine.feed(Event::Failed(InclusionListBoostError::SignerClientError("down".to_string())));
        assert!(matches!(action, Action::Wait { secs: 5 }));
        assert!(matches!(machine.feed(Event::Waited), Action::LoadPubkeys));
    }
    assert!(matches!(machine.feed(Event::Pubkeys(Vec::new())), Action::Get { .. }));
}

#[test]
fn each_key_is_resolved_to_its_validator() {
    let mut machine = Machine::new();
    machine.feed(Event::Start);
    let action = machine.feed(Event::Pubkeys(vec![key(0xab), key(0x01), key(0x02)]));
    let expected = format!("{BEACON}/eth/v1/beacon/states/head/validators?id=0x{}", "ab".repeat(48));
    assert!(matches!(action, Action::Get { url } if url == expected));
    let action = machine.feed(validator(7));
    let expected = format!("{BEACON}/eth/v1/beacon/states/head/validators?id=0x{}", "01".repeat(48));
    assert!(matches!(action, Action::Get { url } if url == expected));
    // the beacon node does not know the second key
    machine.feed(Event::Body(r#"{"data":[]}"#.to_string()));
    let action = machine.feed(validator(9));
    assert!(matches!(action, Action::Get { url } if url == HEAD_URL));
    let keys = &machine.sidecar().inclusion_boost().validator_keys;
    assert_eq!(keys.len(), 2);
    assert_eq!(keys.get(&7), Some(&key(0xab)));
    assert_eq!(keys.get(&9), Some(&key(0x02)));
}

#[test]
fn a_broken_answer_on_a_validator_ends_the_start() {
    let mut machine = Machine::new();
    machine.feed(Event::Start);
    machine.feed(Event::Pubkeys(vec![key(1)]));
    let action = machine.feed(Event::Body("not json".to_string()));
    assert!(matches!(
        action,
        Action::Stop(Err(InclusionListBoostError::LookaheadError(LookaheadError::Serde(_))))
    ));
    assert!(matches!(machine.sidecar().phase(), Phase::Stopped));

    let mut machine = Machine::new();
    machine.feed(Event::Start);
    machine.feed(Event::Pubkeys(vec![key(1)]));
    let action = machine.feed(Event::Body(r#"{"data":[{"index":"seven"}]}"#.to_string()));
    assert!(matches!(
        action,
        Action::Stop(Err(InclusionListBoostError::LookaheadError(LookaheadError::ParseIntError)))
    ));

}

#[test]
fn a_validator_is_asked_for_again_after_five_seconds() {
    let mut machine = Machine::new();
    machine.feed(Event::Start);
    machine.feed(Event::Pubkeys(vec![key(1), key(2)]));
    machine.feed(validator(7));
    let second = format!("{BEACON}/eth/v1/beacon/states/head/validators?id=0x{}", "02".repeat(48));
    for _ in 0..3 {
        let action = machine.feed(Event::Failed(InclusionListBoostError::Reqwest("refused".to_string())));
        assert!(matches!(action, Action::Wait { secs: 5 }));
        assert!(matches!(machine.sidecar().phase(), Phase::WaitingToResolve { next: 1, .. }));
        let action = machine.feed(Event::Waited);
        assert!(matches!(action, Action::Get { url } if url == second));
    }
    let action = machine.feed(validator(9));
    assert!(matches!(action, Action::Get { url } if url == HEAD_URL));
    assert_eq!(machine.sidecar().inclusion_boost().validator_keys.len(), 2);
}

#[test]
fn a_failure_while_the_lookahead_is_fetched_ends_the_start() {
    let mut machine = Machine::new();
    machine.feed(Event::Start);
    machine.feed(Event::Pubkeys(Vec::new()));
    let action = machine.feed(Event::Failed(InclusionListBoostError::Reqwest("refused".to_string())));
    assert!(matches!(action, Action::Stop(Err(InclusionListBoostError::Reqwest(text))) if text == "refused"));
    let mut machine = Machine::new();
    machine.feed(Event::Start);
    machine.feed(Event::Pubkeys(Vec::new()));
    machine.feed(header(5));
    let action = machine.feed(Event::Failed(InclusionListBoostError::BeaconApiError("no".to_string())));
    assert!(matches!(action, Action::Stop(Err(InclusionListBoostError::BeaconApiError(_)))));
}

#[test]
fn the_start_fetches_both_lookaheads_and_delegates() {
    let mut machine = Machine::new();
    machine.feed(Event::Start);
    machine.feed(Event::Pubkeys(vec![key(1)]));
    let action = machine.feed(validator(7));
    assert!(matches!(action, Action::Get { url } if url == HEAD_URL));
    let action = machine.feed(header(40));
    assert!(matches!(action, Action::FetchDuties { epoch: 1 }));
    let action = machine.feed(Event::Duties(vec![duty(39, 7, 1), duty(40, 7, 1), duty(41, 3, 0), duty(42, 7, 1)]));
    assert!(matches!(action, Action::Get { url } if url == HEAD_URL));
    assert_eq!(machine.sidecar().lookahead(), &vec![duty(41, 3, 0), duty(42, 7, 1)]);
    let action = machine.feed(header(40));
    assert!(matches!(action, Action::FetchDuties { epoch: 2 }));
    let action = machine.feed(Event::Duties(vec![duty(64, 3, 0), duty(65, 7, 1)]));
    assert_eq!(machine.sidecar().next_lookahead(), &vec![duty(64, 3, 0), duty(65, 7, 1)]);
    let expected = InclusionListDelegateMessage {
        preconfer_pubkey: key(1),
        slot_number: 65,
        chain_id: 7014190335,
        gas_limit: u64::MAX,
    };
    match action {
        Action::Sign(SignRequest { id, pubkey, object_root }) => {
            assert_eq!(id, "IL_BOOST");
            assert_eq!(pubkey, key(1));
            assert_eq!(object_root, expected.tree_hash_root());
        }
        other => panic!("{other:?}"),
    }
    match machine.feed(Event::Signature(signature(5))) {
        Action::Post(RelayPost { url, body: RelayBody::Delegation(signed), timeout_secs }) => {
            assert_eq!(url, "http://relay:4040/eth/v1/builder/elect_preconfer");
            assert_eq!(timeout_secs, 10);
            assert_eq!(signed.message, expected);
            assert_eq!(signed.signature, signature(5));
        }
        other => panic!("{other:?}"),
    }
    assert!(matches!(machine.feed(Event::RelayStatus(200)), Action::NextHead));
    assert!(matches!(machine.sidecar().phase(), Phase::Listening));
}

#[test]
fn a_header_without_slot_ends_the_cycle() {
    let mut machine = Machine::new();
    machine.feed(Event::Start);
    machine.feed(Event::Pubkeys(Vec::new()));
    let action = machine.feed(Event::Body(r#"{"data":{}}"#.to_string()));
    assert!(matches!(
        action,
        Action::Stop(Err(InclusionListBoostError::LookaheadError(LookaheadError::FailedLookahead)))
    ));
}

#[test]
fn an_epoch_transition_refreshes_once_and_delegates_once_for_each_own_validator() {
    let mut machine = Machine::listening();
    let action = machine.feed(Event::Head(head(63, true)));
    assert!(matches!(action, Action::Get { url } if url == HEAD_URL));
    assert!(matches!(machine.feed(header(63)), Action::FetchDuties { epoch: 1 }));
    // the current epoch has no duty left after slot 63
    machine.feed(Event::Duties((32..64).map(|slot| duty(slot, 100 + slot as usize, 0)).collect()));
    assert!(matches!(machine.feed(header(63)), Action::FetchDuties { epoch: 2 }));
    // in the next epoch validators 7 and 9 propose, among thirty others
    let mut next: Vec<ProposerDuty> = (64..96).map(|slot| duty(slot, 100 + slot as usize, 0)).collect();
    next[0] = duty(64, 7, 1);
    next[5] = duty(69, 9, 2);
    machine.feed(Event::Duties(next));
    machine.feed(Event::Signature(signature(1)));
    machine.feed(Event::RelayStatus(200));
    machine.feed(Event::Signature(signature(2)));
    let action = machine.feed(Event::RelayStatus(200));
    // slot 64 has no duty in the lookahead of the epoch that has just ended
    assert!(matches!(action, Action::NextHead));
    assert_eq!(
        machine.log,
        vec![
            format!("get {HEAD_URL}"),
            "duties 1".to_string(),
            format!("get {HEAD_URL}"),
            "duties 2".to_string(),
            "sign 1".to_string(),
            format!("post {RELAY}/eth/v1/builder/elect_preconfer"),
            "sign 2".to_string(),
            format!("post {RELAY}/eth/v1/builder/elect_preconfer"),
            "head".to_string(),
        ]
    );
}

#[test]
fn after_the_refresh_the_duty_of_the_next_slot_is_taken_up() {
    let mut machine = Machine::listening();
    machine.feed(Event::Head(head(31, true)));
    machine.feed(header(31));
    // the beacon node already counts the head into the next epoch
    machine.feed(Event::Duties(vec![duty(31, 5, 0), duty(32, 7, 1), duty(33, 9, 2)]));
    machine.feed(header(31));
    let action = machine.feed(Event::Duties(Vec::new()));
    assert!(matches!(action, Action::Get { url } if url == "http://beacon:5052/eth/v1/beacon/blocks/30"));
    assert!(matches!(machine.sidecar().phase(), Phase::FetchingBlockNumber { duty } if duty.slot == 32));
}

#[test]
fn a_failed_delegation_does_not_stop_the_others() {
    let mut machine = Machine::listening();
    machine.feed(Event::Head(head(95, true)));
    machine.feed(header(95));
    machine.feed(Event::Duties(Vec::new()));
    machine.feed(header(95));
    let action = machine.feed(Event::Duties(vec![duty(96, 7, 1), duty(97, 9, 2), duty(98, 7, 1)]));
    assert!(matches!(action, Action::Sign(request) if request.pubkey == key(1)));
    let action = machine.feed(Event::Failed(InclusionListBoostError::SignerClientError("busy".to_string())));
    assert!(matches!(action, Action::Sign(request) if request.pubkey == key(2)));
    machine.feed(Event::Signature(signature(2)));
    let action = machine.feed(Event::Failed(InclusionListBoostError::Reqwest("timeout".to_string())));
    assert!(matches!(action, Action::Sign(request) if request.pubkey == key(1)));
    machine.feed(Event::Signature(signature(1)));
    assert!(matches!(machine.feed(Event::RelayStatus(500)), Action::NextHead));
}

#[test]
fn a_head_without_duty_for_the_next_slot_goes_back_to_listening() {
    let mut machine = Machine::listening();
    assert!(matches!(machine.feed(Event::Head(head(64, false))), Action::NextHead));
    assert!(matches!(machine.feed(Event::Head(head(59, false))), Action::NextHead));
    assert!(matches!(machine.feed(Event::Head(head(u64::MAX, false))), Action::NextHead));
    assert!(matches!(machine.sidecar().phase(), Phase::Listening));
}

#[test]
fn an_inclusion_list_is_built_signed_and_submitted() {
    let mut machine = Machine::listening();
    let action = machine.feed(Event::Head(head(60, false)));
    assert!(matches!(action, Action::Get { url } if url == "http://beacon:5052/eth/v1/beacon/blocks/59"));
    assert!(matches!(machine.feed(beacon_block(1234)), Action::FetchBlock { number: 1234 }));
    let block = Block { number: 1234, gas_limit: 30_000_000, gas_used: 29_990_000, transactions: vec![[8u8; 32]] };
    assert!(matches!(machine.feed(Event::Block(Some(block))), Action::FetchPending));
    let pending = vec![tx(1, 21_000, None), tx(2, 21_000, Some(3)), tx(3, 21_000, Some(4))];
    let expected = InclusionList::new(61, 7, vec![Constraint::new(vec![2; 4], [2u8; 32])]);
    match machine.feed(Event::Pending(pending)) {
        Action::Sign(request) => {
            assert_eq!(request.id, "IL_BOOST");
            assert_eq!(request.pubkey, key(1));
            assert_eq!(request.object_root, expected.tree_hash_root());
        }
        other => panic!("{other:?}"),
    }
    match machine.feed(Event::Signature(signature(9))) {
        Action::Post(RelayPost { url, body: RelayBody::Constraints(request), timeout_secs }) => {
            assert_eq!(url, "http://relay:4040/eth/v1/builder/set_constraints");
            assert_eq!(timeout_secs, 10);
            assert_eq!(request.message, expected);
            assert_eq!(request.signature, signature(9));
        }
        other => panic!("{other:?}"),
    }
    assert!(machine.cache.block_numbers().is_empty());
    assert!(matches!(machine.feed(Event::RelayStatus(200)), Action::NextHead));
    assert_eq!(machine.cache.get_block(1234), Some(&vec![[8u8; 32]]));
    assert_eq!(machine.cache.get_inclusion_list(61), Some(&expected));
}

#[test]
fn a_relay_that_answers_500_is_no_error() {
    let mut machine = Machine::listening();
    machine.feed(Event::Head(head(60, false)));
    machine.feed(beacon_block(1234));
    machine.feed(Event::Block(Some(Block { number: 1234, gas_limit: 10, gas_used: 0, transactions: Vec::new() })));
    machine.feed(Event::Pending(vec![tx(2, 5, Some(3))]));
    machine.feed(Event::Signature(signature(9)));
    let action = machine.feed(Event::RelayStatus(500));
    assert!(matches!(action, Action::NextHead));
    assert!(matches!(machine.sidecar().phase(), Phase::Listening));
    // the next head event is handled as any other
    let action = machine.feed(Event::Head(head(62, false)));
    assert!(matches!(action, Action::Get { url } if url == "http://beacon:5052/eth/v1/beacon/blocks/61"));
}

#[test]
fn a_relay_that_cannot_be_reached_ends_the_cycle() {
    let mut machine = Machine::listening();
    machine.feed(Event::Head(head(60, false)));
    machine.feed(beacon_block(1234));
    machine.feed(Event::Block(Some(Block { number: 1234, gas_limit: 10, gas_used: 0, transactions: Vec::new() })));
    machine.feed(Event::Pending(Vec::new()));
    machine.feed(Event::Signature(signature(9)));
    let action = machine.feed(Event::Failed(InclusionListBoostError::Reqwest("timed out".to_string())));
    assert!(matches!(action, Action::Stop(Err(InclusionListBoostError::Reqwest(text))) if text == "timed out"));
    assert!(machine.cache.block_numbers().is_empty());
}

#[test]
fn a_signer_that_does_not_sign_ends_the_cycle() {
    let mut machine = Machine::listening();
    machine.feed(Event::Head(head(60, false)));
    machine.feed(beacon_block(1234));
    machine.feed(Event::Block(Some(Block { number: 1234, gas_limit: 10, gas_used: 0, transactions: Vec::new() })));
    machine.feed(Event::Pending(Vec::new()));
    let action = machine.feed(Event::Failed(InclusionListBoostError::SignerClientError("no".to_string())));
    assert!(matches!(action, Action::Stop(Err(InclusionListBoostError::SignerClientError(_)))));
    assert!(matches!(machine.feed(Event::Head(head(61, false))), Action::Stop(Err(InclusionListBoostError::GenericError(_)))));
}

#[test]
fn the_block_before_a_foreign_proposer_is_remembered_and_nothing_is_signed() {
    let mut machine = Machine::listening();
    // slot 62 is proposed by validator 6, whose key the signer does not hold
    machine.feed(Event::Head(head(61, false)));
    machine.feed(beacon_block(77));
    machine.feed(Event::Block(Some(Block { number: 77, gas_limit: 10, gas_used: 0, transactions: vec![[1u8; 32], [2u8; 32]] })));
    let action = machine.feed(Event::Pending(vec![tx(2, 5, Some(3))]));
    assert!(matches!(action, Action::NextHead));
    assert_eq!(machine.cache.get_block(77), Some(&vec![[1u8; 32], [2u8; 32]]));
    assert!(machine.cache.get_inclusion_list(62).is_none());
}

#[test]
fn a_missing_block_goes_back_to_listening() {
    let mut machine = Machine::listening();
    machine.feed(Event::Head(head(60, false)));
    assert!(matches!(machine.feed(Event::Body(r#"{"data":{"message":{"body":{}}}}"#.to_string())), Action::NextHead));
    machine.feed(Event::Head(head(60, false)));
    machine.feed(beacon_block(1));
    assert!(matches!(machine.feed(Event::Block(None)), Action::NextHead));
    assert!(matches!(machine.sidecar().phase(), Phase::Listening));
}

#[test]
fn a_broken_beacon_block_ends_the_cycle() {
    let mut machine = Machine::listening();
    machine.feed(Event::Head(head(60, false)));
    assert!(matches!(machine.feed(Event::Body("{".to_string())), Action::Stop(Err(InclusionListBoostError::Serde(_)))));
    let mut machine = Machine::listening();
    machine.feed(Event::Head(head(60, false)));
    let body = r#"{"data":{"message":{"body":{"execution_payload":{"block_number":"0x10"}}}}}"#;
    assert!(matches!(
        machine.feed(Event::Body(body.to_string())),
        Action::Stop(Err(InclusionListBoostError::ParseIntError))
    ));
}

#[test]
fn a_block_that_used_more_gas_than_its_limit_ends_the_cycle() {
    let mut machine = Machine::listening();
    machine.feed(Event::Head(head(60, false)));
    machine.feed(beacon_block(1234));
    machine.feed(Event::Block(Some(Block { number: 1234, gas_limit: 10, gas_used: 11, transactions: Vec::new() })));
    let action = machine.feed(Event::Pending(vec![tx(2, 5, Some(3))]));
    assert!(matches!(
        action,
        Action::Stop(Err(InclusionListBoostError::GenericError(text))) if text == "block used more gas than its limit"
    ));
}

#[test]
fn the_head_of_slot_zero_has_no_block_before_it() {
    let mut machine = Machine::new();
    machine.feed(Event::Start);
    machine.feed(Event::Pubkeys(Vec::new()));
    machine.feed(header(0));
    machine.feed(Event::Duties(vec![duty(0, 1, 1), duty(1, 2, 2)]));
    machine.feed(header(0));
    machine.feed(Event::Duties(Vec::new()));
    assert!(matches!(machine.feed(Event::Head(head(0, false))), Action::NextHead));
}

#[test]
fn the_end_of_the_stream_ends_the_cycle() {
    let mut machine = Machine::listening();
    assert!(matches!(machine.feed(Event::StreamEnded), Action::Stop(Ok(()))));
    assert!(matches!(machine.sidecar().phase(), Phase::Stopped));
    assert!(matches!(machine.feed(Event::Start), Action::Stop(Err(InclusionListBoostError::GenericError(_)))));
}

#[test]
fn a_broken_stream_ends_the_cycle_with_its_error() {
    let mut machine = Machine::listening();
    let action = machine.feed(Event::Failed(InclusionListBoostError::SseError("bad payload".to_string())));
    assert!(matches!(action, Action::Stop(Err(InclusionListBoostError::SseError(text))) if text == "bad payload"));
}

#[test]
fn an_event_that_was_not_asked_for_ends_the_cycle() {
    let mut machine = Machine::listening();
    let action = machine.feed(Event::Waited);
    assert!(matches!(action, Action::Stop(Err(InclusionListBoostError::GenericError(text))) if text == "unexpected event"));
    let mut machine = Machine::new();
    assert!(matches!(machine.feed(Event::StreamEnded), Action::Stop(Err(InclusionListBoostError::GenericError(_)))));
}

#[test]
fn the_head_events_have_their_url() {
    let machine = Machine::new();
    assert_eq!(machine.sidecar().events_url(), "http://beacon:5052/eth/v1/events?topics=head");
}

#[test]
fn validator_index_and_block_number_are_read_from_the_answers() {
    assert_eq!(get_validator_index(r#"{"data":[{"index":"123"}]}"#).unwrap(), Some(123));
    assert_eq!(get_validator_index(r#"{"data":[]}"#).unwrap(), None);
    assert!(matches!(get_validator_index("x"), Err(LookaheadError::Serde(_))));
    let body = r#"{"data":{"message":{"body":{"execution_payload":{"block_number":"20000001"}}}}}"#;
    assert_eq!(get_block_number_by_slot(body).unwrap(), Some(20000001));
    assert_eq!(get_block_number_by_slot("{}").unwrap(), None);
    assert!(matches!(get_block_number_by_slot("x"), Err(InclusionListBoostError::Serde(_))));
}

#[test]
fn the_cycle_speaks_the_protocol_it_is_given() {
    let protocol = ProtocolConfig {
        constraints_path: "/c".to_string(),
        delegate_path: "/d".to_string(),
        chain_id: 5,
        delegate_gas_limit: 6,
        relay_timeout_secs: 7,
    };
    let mut machine = Machine::new();
    machine.sidecar = Some(machine.sidecar.take().unwrap().with_protocol(protocol));
    machine.feed(Event::Start);
    machine.feed(Event::Pubkeys(vec![key(1)]));
    machine.feed(validator(7));
    machine.feed(header(40));
    machine.feed(Event::Duties(vec![duty(41, 7, 1)]));
    machine.feed(header(40));
    machine.feed(Event::Duties(vec![duty(65, 7, 1)]));
    match machine.feed(Event::Signature(signature(5))) {
        Action::Post(RelayPost { url, body: RelayBody::Delegation(signed), timeout_secs }) => {
            assert_eq!(url, "http://relay:4040/d");
            assert_eq!(timeout_secs, 7);
            assert_eq!(signed.message.chain_id, 5);
            assert_eq!(signed.message.gas_limit, 6);
        }
        other => panic!("{other:?}"),
    }
    machine.feed(Event::RelayStatus(200));
    machine.feed(Event::Head(head(40, false)));
    machine.feed(beacon_block(1));
    machine.feed(Event::Block(Some(Block { number: 1, gas_limit: 10, gas_used: 0, transactions: Vec::new() })));
    machine.feed(Event::Pending(Vec::new()));
    let action = machine.feed(Event::Signature(signature(5)));
    assert!(matches!(action, Action::Post(RelayPost { url, timeout_secs: 7, .. }) if url == "http://relay:4040/c"));
}
