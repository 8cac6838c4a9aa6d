use inclusion_boost::inclusion_boost::types::BlsPublicKey;
use inclusion_boost::json::parse_u64;
use inclusion_boost::lookahead::error::LookaheadError;
use inclusion_boost::lookahead::{get_slot, number_from_field, LookaheadProvider, ProposerDuty};

fn duty(slot: u64) -> ProposerDuty {
    ProposerDuty { pubkey: BlsPublicKey { bytes: [slot as u8; 48] }, validator_index: slot as usize + 100, slot }
}

fn slots(duties: &[ProposerDuty]) -> Vec<u64> {
    duties.iter().map(|d| d.slot).collect()
}

#[test]
fn the_lookahead_holds_the_duties_after_the_head() {
    let provider = LookaheadProvider::new("http://beacon");
    let lookahead = provider.get_current_lookahead(10, vec![duty(10), duty(11), duty(12)]);
    assert_eq!(slots(&lookahead), vec![11, 12]);
    assert_eq!(lookahead[0], duty(11));
}

#[test]
fn the_lookahead_keeps_the_order_of_the_duties() {
    let provider = LookaheadProvider::new("http://beacon");
    let lookahead = provider.get_current_lookahead(3, vec![duty(9), duty(2), duty(4), duty(3), duty(7)]);
    assert_eq!(slots(&lookahead), vec![9, 4, 7]);
}

#[test]
fn the_lookahead_at_the_end_of_an_epoch_is_empty() {
    let provider = LookaheadProvider::new("http://beacon");
    let duties: Vec<ProposerDuty> = (32..64).map(duty).collect();
    assert!(provider.get_current_lookahead(63, duties).is_empty());
    assert!(provider.get_current_lookahead(0, Vec::new()).is_empty());
}

#[test]
fn the_next_lookahead_holds_all_duties_of_the_next_epoch() {
    let provider = LookaheadProvider::new("http://beacon");
    let duties: Vec<ProposerDuty> = (64..96).map(duty).collect();
    let lookahead = provider.get_next_epoch_lookahead(63, duties.clone());
    assert_eq!(lookahead, duties);
}

#[test]
fn an_epoch_has_thirty_two_slots() {
    let provider = LookaheadProvider::new("http://beacon");
    assert_eq!(provider.current_epoch(Some(0)).unwrap(), 0);
    assert_eq!(provider.current_epoch(Some(31)).unwrap(), 0);
    assert_eq!(provider.current_epoch(Some(32)).unwrap(), 1);
    assert_eq!(provider.current_epoch(Some(63)).unwrap(), 1);
    assert_eq!(provider.current_epoch(Some(u64::MAX)).unwrap(), u64::MAX / 32);
    assert_eq!(provider.next_epoch(Some(63)).unwrap(), 2);
    assert_eq!(provider.next_epoch(Some(u64::MAX)).unwrap(), u64::MAX / 32 + 1);
}

#[test]
fn without_a_head_slot_there_is_no_lookahead() {
    let provider = LookaheadProvider::new("http://beacon");
    assert!(matches!(provider.current_epoch(None), Err(LookaheadError::FailedLookahead)));
    assert!(matches!(provider.next_epoch(None), Err(LookaheadError::FailedLookahead)));
}

#[test]
fn the_header_of_the_head_has_its_url() {
    let provider = LookaheadProvider::new("http://beacon:5052");
    assert_eq!(provider.header_url("head"), "http://beacon:5052/eth/v1/beacon/headers/head");
    assert_eq!(provider.header_url("17"), "http://beacon:5052/eth/v1/beacon/headers/17");
}

#[test]
fn the_slot_is_read_from_the_header() {
    let body = r#"{"data":{"root":"0x00","header":{"message":{"slot":"4711","proposer_index":"3"},"signature":"0x"}}}"#;
    assert_eq!(get_slot(body).unwrap(), Some(4711));
}

#[test]
fn an_answer_without_the_slot_gives_none() {
    assert_eq!(get_slot(r#"{"data":{"header":{"message":{}}}}"#).unwrap(), None);
    assert_eq!(get_slot(r#"{}"#).unwrap(), None);
    assert_eq!(get_slot(r#"[1,2,3]"#).unwrap(), None);
}

#[test]
fn a_slot_that_is_no_string_gives_none() {
    assert_eq!(get_slot(r#"{"data":{"header":{"message":{"slot":4711}}}}"#).unwrap(), None);
    assert_eq!(get_slot(r#"{"data":{"header":{"message":{"slot":null}}}}"#).unwrap(), None);
}

#[test]
fn a_slot_that_is_no_number_is_an_error() {
    let answer = get_slot(r#"{"data":{"header":{"message":{"slot":"soon"}}}}"#);
    assert!(matches!(answer, Err(LookaheadError::ParseIntError)));
    let answer = get_slot(r#"{"data":{"header":{"message":{"slot":""}}}}"#);
    assert!(matches!(answer, Err(LookaheadError::ParseIntError)));
    let answer = get_slot(r#"{"data":{"header":{"message":{"slot":"18446744073709551616"}}}}"#);
    assert!(matches!(answer, Err(LookaheadError::ParseIntError)));
}

#[test]
fn an_answer_that_is_no_json_is_an_error() {
    assert!(matches!(get_slot("<html>bad gateway</html>"), Err(LookaheadError::Serde(_))));
    assert!(matches!(get_slot(""), Err(LookaheadError::Serde(_))));
    assert!(matches!(get_slot(r#"{"data":"#), Err(LookaheadError::Serde(_))));
}

#[test]
fn a_field_is_read_as_a_number() {
    assert_eq!(number_from_field(None).unwrap(), None);
    assert_eq!(number_from_field(Some("12".to_string())).unwrap(), Some(12));
    assert!(matches!(number_from_field(Some("1 2".to_string())), Err(LookaheadError::ParseIntError)));
}

#[test]
fn numbers_are_read_as_the_standard_library_reads_them() {
    let cases = [
        "0", "7", "007", "+5", "+0", "18446744073709551615", "18446744073709551616", "99999999999999999999999",
        "", "+", "-", "-1", "+-1", "++1", "1+", " 1", "1 ", "1_000", "0x10", "1e3", "１２", "٣", "12a", "a12",
        "00000000000000000000000000000000000018446744073709551615", "184467440737095516150",
    ];
    for case in cases {
        assert_eq!(parse_u64(case), case.parse::<u64>().ok(), "{case:?}");
    }
    assert_eq!(parse_u64("18446744073709551615"), Some(u64::MAX));
    assert_eq!(parse_u64("+42"), Some(42));
    assert_eq!(parse_u64("18446744073709551616"), None);
}
