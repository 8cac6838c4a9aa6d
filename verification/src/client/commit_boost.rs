//! The signer service as a client sees it: which keys it holds, and what
//! its answers to a request for keys or for a signature mean.

use vstd::prelude::*;
use crate::inclusion_boost::types::{inclusion_list_root, BlsPublicKey, BlsSignature, InclusionList};
use crate::inclusion_boost::{is_success, SignRequest, SignRequestView};

verus! {

/// Name under which this client asks for signatures.
pub const ID: &'static str = "inclusion-list-boost";

/// Seconds to wait before the signer is asked for its keys once more.
pub const RETRY_SECS: u64 = 5;

/// A client of the signer service at one URL, with the keys it has loaded.
#[derive(Debug)]
pub struct CommitBoostClient {
    url: String,
    pubkeys: Vec<BlsPublicKey>,
}

/// What a client is in contracts: its URL and the keys it has loaded.
pub struct CommitBoostClientView {
    pub url: Seq<char>,
    pub pubkeys: Seq<BlsPublicKey>,
}

impl View for CommitBoostClient {
    type V = CommitBoostClientView;

    closed spec fn view(&self) -> CommitBoostClientView {
        CommitBoostClientView { url: self.url@, pubkeys: self.pubkeys@ }
    }
}

/// The key that stands in for the signer's keys where no signer is asked:
/// 48 zero bytes.
pub open spec fn is_mock_key(key: BlsPublicKey) -> bool {
    key.bytes@ == Seq::new(48, |i: int| 0u8)
}

/// Whether a request for the keys is to be made again: it is, after
/// `RETRY_SECS` seconds, unless the signer answered with success.  `None`
/// as the status stands for a signer that could not be reached.
pub open spec fn retry_after(status: Option<u16>) -> Option<u64> {
    match status {
        Some(code) if is_success(code) => None,
        _ => Some(RETRY_SECS),
    }
}

impl CommitBoostClient {
    /// A client of the signer at `url` that has loaded no keys yet.
    pub fn new(url: String) -> (client: Self)
        ensures
            client@.url == url@,
            client@.pubkeys == Seq::<BlsPublicKey>::empty(),
    {
        CommitBoostClient { url, pubkeys: Vec::new() }
    }

    /// A client that asks no signer and holds the mock key.
    pub fn new_mock(url: String) -> (client: Self)
        ensures
            client@.url == url@,
            client@.pubkeys.len() == 1,
            is_mock_key(client@.pubkeys[0]),
    {
        let mut client = CommitBoostClient::new(url);
        client.load_mock_pubkeys();
        client
    }

    /// The URL of the signer.
    pub fn url(&self) -> (url: &String)
        ensures
            url@ == self@.url,
    {
        &self.url
    }

    /// The keys that the client has loaded.
    pub fn pubkeys(&self) -> (pubkeys: &Vec<BlsPublicKey>)
        ensures
            pubkeys@ == self@.pubkeys,
    {
        &self.pubkeys
    }

    /// Takes in the signer's answer to a request for its keys.  `status`
    /// is the status of the answer, `None` where the signer could not be
    /// reached, and `pubkeys` are the keys in its body.  An answer with
    /// success replaces the loaded keys; after any other the keys stay as
    /// they are and the request is to be made again after the seconds
    /// returned.
    pub fn load_pubkeys(&mut self, status: Option<u16>, pubkeys: Vec<BlsPublicKey>) -> (retry: Option<u64>)
        ensures
            retry == retry_after(status),
            final(self)@.url == old(self)@.url,
            final(self)@.pubkeys == if retry is None {
                pubkeys@
            } else {
                old(self)@.pubkeys
            },
    {
        match status {
            Some(code) => {
                if 200 <= code && code < 300 {
                    self.pubkeys = pubkeys;
                    None
                } else {
                    Some(RETRY_SECS)
                }
            },
            None => Some(RETRY_SECS),
        }
    }

    /// Replaces the loaded keys by the mock key.
    pub fn load_mock_pubkeys(&mut self)
        ensures
            final(self)@.url == old(self)@.url,
            final(self)@.pubkeys.len() == 1,
            is_mock_key(final(self)@.pubkeys[0]),
    {
        let key = BlsPublicKey { bytes: [0u8; 48] };
        assert(key.bytes@ =~= Seq::new(48, |i: int| 0u8));
        let mut pubkeys: Vec<BlsPublicKey> = Vec::new();
        pubkeys.push(key);
        self.pubkeys = pubkeys;
    }

    /// The request to sign `inclusion_list` under the first key loaded, or
    /// `None` where no key is loaded.
    pub fn submit_inclusion_list(&self, inclusion_list: &InclusionList) -> (request: Option<SignRequest>)
        ensures
            match request {
                Some(found) => self@.pubkeys.len() > 0 && found@ == (SignRequestView {
                    id: ID@,
                    pubkey: self@.pubkeys[0],
                    object_root: inclusion_list_root(inclusion_list@),
                }),
                None => self@.pubkeys.len() == 0,
            },
    {
        if self.pubkeys.len() == 0 {
            None
        } else {
            Some(
                SignRequest {
                    id: ID.to_owned(),
                    pubkey: self.pubkeys[0],
                    object_root: inclusion_list.tree_hash_root(),
                },
            )
        }
    }
}

/// The signature in the signer's answer to a request for one: the 96 bytes
/// of the body where the signer answered with success, and none where it
/// answered with anything else or with a body of another length.
pub fn signature_from_answer(status: u16, body: &[u8]) -> (signature: Option<BlsSignature>)
    ensures
        match signature {
            Some(found) => is_success(status) && found.bytes@ == body@,
            None => !is_success(status) || body@.len() != 96,
        },
{
    if !(200 <= status && status < 300) || body.len() != 96 {
        return None;
    }
    let mut bytes: [u8; 96] = [0u8; 96];
    let mut i: usize = 0;
    while i < 96
        invariant
            i <= 96,
            body@.len() == 96,
            forall|k: int| 0 <= k < i ==> bytes@[k] == body@[k],
        decreases 96 - i,
    {
        bytes[i] = body[i];
        i = i + 1;
    }
    assert(bytes@ =~= body@);
    Some(BlsSignature { bytes })
}

} // verus!
