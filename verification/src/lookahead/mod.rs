//! Proposer duties of the current and of the next epoch.

pub mod error;

use vstd::prelude::*;
use vstd::string::StringExecFns;
use crate::inclusion_boost::types::BlsPublicKey;
use crate::json::{json_from_str, json_string_at, json_strings_of, parse_u64, parse_u64_spec};
use crate::lookahead::error::LookaheadError;
use crate::text::concat;

verus! {

/// Slots in one epoch.
pub const SLOTS_PER_EPOCH: u64 = 32;

/// The assignment of one validator to propose the block of one slot.
#[derive(Clone, Copy, Debug, PartialEq, Eq)]
pub struct ProposerDuty {
    pub pubkey: BlsPublicKey,
    pub validator_index: usize,
    pub slot: u64,
}

/// The epoch that a slot belongs to.
pub open spec fn epoch_of(slot: u64) -> u64 {
    slot / SLOTS_PER_EPOCH
}

/// The duties whose slot lies after `current_slot`, in their order.
pub open spec fn upcoming(duties: Seq<ProposerDuty>, current_slot: u64) -> Seq<ProposerDuty> {
    duties.filter(|duty: ProposerDuty| duty.slot > current_slot)
}

/// What a JSON answer holds in a field that should hold a number as a
/// string.
pub enum FieldReading {
    /// The field holds this number.
    Number(u64),
    /// The answer has no such field, or the field holds no string.
    Absent,
    /// The answer is no JSON document.
    NotJson,
    /// The field holds a string that writes no `u64`.
    NotANumber,
}

/// What the answer `text` holds in the field that `pointer` leads to.
pub open spec fn number_field(text: Seq<char>, pointer: Seq<char>) -> FieldReading {
    match json_strings_of(text) {
        None => FieldReading::NotJson,
        Some(strings) => if strings.contains_key(pointer) {
            match parse_u64_spec(strings[pointer]) {
                Some(number) => FieldReading::Number(number),
                None => FieldReading::NotANumber,
            }
        } else {
            FieldReading::Absent
        },
    }
}

/// Whether `result` reports `reading`: the number or its absence, a `Serde`
/// error for an answer that is no JSON, a `ParseIntError` for a field that
/// holds no number.
pub open spec fn reports(result: Result<Option<u64>, LookaheadError>, reading: FieldReading) -> bool {
    match reading {
        FieldReading::Number(number) => result == Ok::<Option<u64>, LookaheadError>(Some(number)),
        FieldReading::Absent => result == Ok::<Option<u64>, LookaheadError>(None),
        FieldReading::NotJson => result matches Err(LookaheadError::Serde(_)),
        FieldReading::NotANumber => result matches Err(LookaheadError::ParseIntError),
    }
}

/// Reads the number in a field of a JSON answer that holds it as a string.
/// `None` stands for an answer without such a field.
pub fn number_from_field(field: Option<String>) -> (number: Result<Option<u64>, LookaheadError>)
    ensures
        match field {
            None => number == Ok::<Option<u64>, LookaheadError>(None),
            Some(text) => match parse_u64_spec(text@) {
                Some(value) => number == Ok::<Option<u64>, LookaheadError>(Some(value)),
                None => number matches Err(LookaheadError::ParseIntError),
            },
        },
{
    match field {
        None => Ok(None),
        Some(text) => match parse_u64(text.as_str()) {
            Some(value) => Ok(Some(value)),
            None => Err(LookaheadError::ParseIntError),
        },
    }
}

/// Reads the number that a JSON answer holds as a string under `pointer`.
pub fn read_number_field(body: &str, pointer: &str) -> (number: Result<Option<u64>, LookaheadError>)
    ensures
        reports(number, number_field(body@, pointer@)),
{
    match json_from_str(body) {
        Ok(document) => number_from_field(json_string_at(&document, pointer)),
        Err(error) => Err(LookaheadError::from(error)),
    }
}

/// The slot in the beacon node's answer to a request for a block header.
pub fn get_slot(body: &str) -> (slot: Result<Option<u64>, LookaheadError>)
    ensures
        reports(slot, number_field(body@, "/data/header/message/slot"@)),
{
    read_number_field(body, "/data/header/message/slot")
}

/// Asks the beacon node behind one URL for proposer duties.
#[derive(Debug, Clone)]
pub struct LookaheadProvider {
    url: String,
}

impl View for LookaheadProvider {
    type V = Seq<char>;

    closed spec fn view(&self) -> Seq<char> {
        self.url@
    }
}

impl LookaheadProvider {
    /// A provider for the beacon node at `url`.
    pub fn new(url: &str) -> (provider: Self)
        ensures
            provider@ == url@,
    {
        LookaheadProvider { url: url.to_owned() }
    }

    /// The URL under which the beacon node tells the header of block `id`.
    pub fn header_url(&self, id: &str) -> (url: String)
        ensures
            url@ == self@ + "/eth/v1/beacon/headers/"@ + id@,
    {
        let mut url: String = concat(self.url.as_str(), "/eth/v1/beacon/headers/");
        url.append(id);
        url
    }

    /// The epoch whose duties make the current lookahead, given the slot of
    /// the head as the beacon node told it.
    pub fn current_epoch(&self, head_slot: Option<u64>) -> (epoch: Result<u64, LookaheadError>)
        ensures
            match head_slot {
                Some(slot) => epoch == Ok::<u64, LookaheadError>(epoch_of(slot)),
                None => epoch matches Err(LookaheadError::FailedLookahead),
            },
    {
        match head_slot {
            Some(slot) => Ok(slot / SLOTS_PER_EPOCH),
            None => Err(LookaheadError::FailedLookahead),
        }
    }

    /// The epoch after the one of the head.
    pub fn next_epoch(&self, head_slot: Option<u64>) -> (epoch: Result<u64, LookaheadError>)
        ensures
            match head_slot {
                Some(slot) => epoch == Ok::<u64, LookaheadError>((epoch_of(slot) + 1) as u64),
                None => epoch matches Err(LookaheadError::FailedLookahead),
            },
    {
        match head_slot {
            Some(slot) => Ok(slot / SLOTS_PER_EPOCH + 1),
            None => Err(LookaheadError::FailedLookahead),
        }
    }

    /// Of the duties of the current epoch, those that are still to come:
    /// the ones whose slot lies after the slot of the head.
    pub fn get_current_lookahead(&self, current_slot: u64, duties: Vec<ProposerDuty>) -> (lookahead:
        Vec<ProposerDuty>)
        ensures
            lookahead@ == upcoming(duties@, current_slot),
    {
        let ghost wanted = |duty: ProposerDuty| duty.slot > current_slot;
        let mut lookahead: Vec<ProposerDuty> = Vec::new();
        let mut i: usize = 0;
        proof {
            reveal(Seq::filter);
        }
        while i < duties.len()
            invariant
                i <= duties@.len(),
                wanted == |duty: ProposerDuty| duty.slot > current_slot,
                lookahead@ == duties@.take(i as int).filter(wanted),
            decreases duties@.len() - i,
        {
            let duty: ProposerDuty = duties[i];
            proof {
                reveal(Seq::filter);
                assert(duties@.take(i + 1).drop_last() =~= duties@.take(i as int));
            }
            if duty.slot > current_slot {
                lookahead.push(duty);
            }
            i = i + 1;
        }
        assert(duties@.take(i as int) =~= duties@);
        lookahead
    }

    /// Of the duties of the next epoch, those whose slot lies after the slot
    /// of the head.
    pub fn get_next_epoch_lookahead(&self, current_slot: u64, duties: Vec<ProposerDuty>) -> (lookahead:
        Vec<ProposerDuty>)
        ensures
            lookahead@ == upcoming(duties@, current_slot),
    {
        self.get_current_lookahead(current_slot, duties)
    }
}

} // verus!
