//! Pending transactions as the execution node reports them, and their
//! signed network form, which the `alloy` crate computes.

use vstd::prelude::*;
use alloy::consensus::{SignableTransaction, TxEip1559, TxEnvelope, TxLegacy};
use alloy::eips::eip2718::Encodable2718;
use alloy::eips::eip2930::{AccessList, AccessListItem};
use alloy::primitives::{Address, Bytes, Signature, TxKind, B256, U256};
use crate::inclusion_boost::types::{Hash256, Transaction, TransactionView};

verus! {

/// The signature of a transaction as the execution node reports it.
#[derive(Clone, Copy, Debug, PartialEq, Eq)]
pub struct RpcSignature {
    /// The scalar `r`, big-endian.
    pub r: [u8; 32],
    /// The scalar `s`, big-endian.
    pub s: [u8; 32],
    /// The parity of the curve point's `y`, where the node tells it.
    pub y_parity: Option<bool>,
}

/// A transaction of the pending pool as the execution node reports it.
#[derive(Debug, PartialEq, Eq)]
pub struct RpcTransaction {
    pub chain_id: Option<u64>,
    pub nonce: u64,
    /// The gas price: present in a legacy transaction, absent in one with
    /// a fee market.
    pub gas_price: Option<u128>,
    /// The gas limit.
    pub gas: u64,
    pub max_fee_per_gas: Option<u128>,
    pub max_priority_fee_per_gas: Option<u128>,
    /// The recipient; absent where the transaction creates a contract.
    pub to: Option<[u8; 20]>,
    /// The value, big-endian.
    pub value: [u8; 32],
    pub input: Vec<u8>,
    pub signature: Option<RpcSignature>,
}

/// What a reported transaction is in contracts.
pub struct RpcTransactionView {
    pub chain_id: Option<u64>,
    pub nonce: u64,
    pub gas_price: Option<u128>,
    pub gas: u64,
    pub max_fee_per_gas: Option<u128>,
    pub max_priority_fee_per_gas: Option<u128>,
    pub to: Option<[u8; 20]>,
    pub value: [u8; 32],
    pub input: Seq<u8>,
    pub signature: Option<RpcSignature>,
}

impl View for RpcTransaction {
    type V = RpcTransactionView;

    open spec fn view(&self) -> RpcTransactionView {
        RpcTransactionView {
            chain_id: self.chain_id,
            nonce: self.nonce,
            gas_price: self.gas_price,
            gas: self.gas,
            max_fee_per_gas: self.max_fee_per_gas,
            max_priority_fee_per_gas: self.max_priority_fee_per_gas,
            to: self.to,
            value: self.value,
            input: self.input@,
            signature: self.signature,
        }
    }
}

/// What a reported transaction can lack for a signed network form.
#[derive(Clone, Copy, Debug, PartialEq, Eq)]
pub enum ConversionError {
    /// The node reported no signature.
    MissingSignature,
    /// The transaction has no recipient.
    MissingRecipient,
    /// A transaction with a fee market names no chain.
    MissingChainId,
    /// A transaction with a fee market names no fee cap.
    MissingMaxFee,
    /// A transaction with a fee market names no priority fee.
    MissingPriorityFee,
}

/// The network encoding that `alloy` gives a signed legacy transaction.
pub uninterp spec fn legacy_encoding_of(
    chain_id: Option<u64>,
    nonce: u64,
    gas_price: u128,
    gas_limit: u64,
    to: [u8; 20],
    value: [u8; 32],
    input: Seq<u8>,
    r: [u8; 32],
    s: [u8; 32],
    parity: bool,
) -> Seq<u8>;

/// The hash that `alloy` gives a signed legacy transaction.
pub uninterp spec fn legacy_hash_of(
    chain_id: Option<u64>,
    nonce: u64,
    gas_price: u128,
    gas_limit: u64,
    to: [u8; 20],
    value: [u8; 32],
    input: Seq<u8>,
    r: [u8; 32],
    s: [u8; 32],
    parity: bool,
) -> [u8; 32];

/// The network encoding that `alloy` gives a signed transaction with a fee
/// market.
pub uninterp spec fn eip1559_encoding_of(
    chain_id: u64,
    nonce: u64,
    gas_limit: u64,
    max_fee_per_gas: u128,
    max_priority_fee_per_gas: u128,
    to: [u8; 20],
    value: [u8; 32],
    access_list: Seq<([u8; 20], Seq<[u8; 32]>)>,
    input: Seq<u8>,
    r: [u8; 32],
    s: [u8; 32],
    parity: bool,
) -> Seq<u8>;

/// The hash that `alloy` gives a signed transaction with a fee market.
pub uninterp spec fn eip1559_hash_of(
    chain_id: u64,
    nonce: u64,
    gas_limit: u64,
    max_fee_per_gas: u128,
    max_priority_fee_per_gas: u128,
    to: [u8; 20],
    value: [u8; 32],
    access_list: Seq<([u8; 20], Seq<[u8; 32]>)>,
    input: Seq<u8>,
    r: [u8; 32],
    s: [u8; 32],
    parity: bool,
) -> [u8; 32];

/// Builds an `alloy::consensus::TxLegacy` that calls `to`, signs it with
/// `SignableTransaction::into_signed` and returns what
/// `Encodable2718::encoded_2718` and `TxEnvelope::tx_hash` give for it.
///
/// Trusted: both results are functions of the arguments alone, named
/// `legacy_encoding_of` and `legacy_hash_of`.
#[verifier::external_body]
pub(crate) fn legacy_envelope(
    transaction: &RpcTransaction,
    gas_price: u128,
    to: &[u8; 20],
    signature: &RpcSignature,
    parity: bool,
) -> (envelope: (Vec<u8>, Hash256))
    ensures
        envelope.0@ == legacy_encoding_of(
            transaction.chain_id,
            transaction.nonce,
            gas_price,
            transaction.gas,
            *to,
            transaction.value,
            transaction.input@,
            signature.r,
            signature.s,
            parity,
        ),
        envelope.1 == legacy_hash_of(
            transaction.chain_id,
            transaction.nonce,
            gas_price,
            transaction.gas,
            *to,
            transaction.value,
            transaction.input@,
            signature.r,
            signature.s,
            parity,
        ),
{
    let signed = TxLegacy {
        chain_id: transaction.chain_id,
        nonce: transaction.nonce,
        gas_price,
        gas_limit: transaction.gas,
        to: TxKind::Call(Address::from(*to)),
        value: U256::from_be_bytes(transaction.value),
        input: Bytes::copy_from_slice(&transaction.input),
    }.into_signed(Signature::from_scalars_and_parity(B256::from(signature.r), B256::from(signature.s), parity));
    let envelope = TxEnvelope::Legacy(signed);
    (envelope.encoded_2718(), envelope.tx_hash().0)
}

/// An access list as plain values: addresses, each with storage keys.
pub open spec fn access_list_view(access_list: Seq<([u8; 20], Vec<[u8; 32]>)>) -> Seq<
    ([u8; 20], Seq<[u8; 32]>),
> {
    access_list.map_values(|item: ([u8; 20], Vec<[u8; 32]>)| (item.0, item.1@))
}

/// Builds an `alloy::consensus::TxEip1559` that calls `to`, signs it with
/// `SignableTransaction::into_signed` and returns what
/// `Encodable2718::encoded_2718` and `TxEnvelope::tx_hash` give for it.
///
/// Trusted: both results are functions of the arguments alone, named
/// `eip1559_encoding_of` and `eip1559_hash_of`.
#[verifier::external_body]
pub(crate) fn eip1559_envelope(
    transaction: &RpcTransaction,
    chain_id: u64,
    max_fee_per_gas: u128,
    max_priority_fee_per_gas: u128,
    to: &[u8; 20],
    access_list: &Vec<([u8; 20], Vec<[u8; 32]>)>,
    signature: &RpcSignature,
    parity: bool,
) -> (envelope: (Vec<u8>, Hash256))
    ensures
        envelope.0@ == eip1559_encoding_of(
            chain_id,
            transaction.nonce,
            transaction.gas,
            max_fee_per_gas,
            max_priority_fee_per_gas,
            *to,
            transaction.value,
            access_list_view(access_list@),
            transaction.input@,
            signature.r,
            signature.s,
            parity,
        ),
        envelope.1 == eip1559_hash_of(
            chain_id,
            transaction.nonce,
            transaction.gas,
            max_fee_per_gas,
            max_priority_fee_per_gas,
            *to,
            transaction.value,
            access_list_view(access_list@),
            transaction.input@,
            signature.r,
            signature.s,
            parity,
        ),
{
    let items = access_list.iter().map(|item| AccessListItem { address: Address::from(item.0), storage_keys: item.1.iter().map(|key| B256::from(*key)).collect() });
    let signed = TxEip1559 {
        chain_id,
        nonce: transaction.nonce,
        gas_limit: transaction.gas,
        max_fee_per_gas,
        max_priority_fee_per_gas,
        to: TxKind::Call(Address::from(*to)),
        value: U256::from_be_bytes(transaction.value),
        access_list: AccessList(items.collect()),
        input: Bytes::copy_from_slice(&transaction.input),
    }.into_signed(Signature::from_scalars_and_parity(B256::from(signature.r), B256::from(signature.s), parity));
    let envelope = TxEnvelope::Eip1559(signed);
    (envelope.encoded_2718(), envelope.tx_hash().0)
}

/// The parity that a reported signature stands for: the one it tells, or
/// even where it tells none.
pub open spec fn parity_of(signature: RpcSignature) -> bool {
    match signature.y_parity {
        Some(parity) => parity,
        None => false,
    }
}

/// What a reported transaction lacks for a signed network form, or `None`
/// where it lacks nothing.  Each transaction needs a signature and a
/// recipient.  A transaction with a gas price is a legacy transaction and
/// needs no more; every other is one with a fee market and needs a chain,
/// a fee cap and a priority fee.
pub open spec fn conversion_error_of(value: RpcTransactionView) -> Option<ConversionError> {
    if value.signature is None {
        Some(ConversionError::MissingSignature)
    } else if value.gas_price is Some {
        if value.to is None {
            Some(ConversionError::MissingRecipient)
        } else {
            None
        }
    } else if value.chain_id is None {
        Some(ConversionError::MissingChainId)
    } else if value.max_fee_per_gas is None {
        Some(ConversionError::MissingMaxFee)
    } else if value.max_priority_fee_per_gas is None {
        Some(ConversionError::MissingPriorityFee)
    } else if value.to is None {
        Some(ConversionError::MissingRecipient)
    } else {
        None
    }
}

/// Whether a reported transaction has a signed network form: it has a
/// signature and a recipient, and a gas price or else a chain, a fee cap
/// and a priority fee.
pub open spec fn convertible(value: RpcTransactionView) -> bool {
    &&& value.signature is Some
    &&& value.to is Some
    &&& value.gas_price is Some || (value.chain_id is Some && value.max_fee_per_gas is Some
        && value.max_priority_fee_per_gas is Some)
}

/// The transaction that the selection reads for a reported one.  A
/// transaction with a gas price is encoded as a legacy transaction, every
/// other as one with a fee market and an empty access list.
pub open spec fn converted(value: RpcTransactionView) -> TransactionView
    recommends
        convertible(value),
{
    let signature = value.signature->0;
    let to = value.to->0;
    match value.gas_price {
        Some(gas_price) => TransactionView {
            hash: legacy_hash_of(
                value.chain_id,
                value.nonce,
                gas_price,
                value.gas,
                to,
                value.value,
                value.input,
                signature.r,
                signature.s,
                parity_of(signature),
            ),
            raw: legacy_encoding_of(
                value.chain_id,
                value.nonce,
                gas_price,
                value.gas,
                to,
                value.value,
                value.input,
                signature.r,
                signature.s,
                parity_of(signature),
            ),
            gas_limit: value.gas,
            max_priority_fee_per_gas: value.max_priority_fee_per_gas,
            is_eip4844: false,
        },
        None => TransactionView {
            hash: eip1559_hash_of(
                value.chain_id->0,
                value.nonce,
                value.gas,
                value.max_fee_per_gas->0,
                value.max_priority_fee_per_gas->0,
                to,
                value.value,
                Seq::empty(),
                value.input,
                signature.r,
                signature.s,
                parity_of(signature),
            ),
            raw: eip1559_encoding_of(
                value.chain_id->0,
                value.nonce,
                value.gas,
                value.max_fee_per_gas->0,
                value.max_priority_fee_per_gas->0,
                to,
                value.value,
                Seq::empty(),
                value.input,
                signature.r,
                signature.s,
                parity_of(signature),
            ),
            gas_limit: value.gas,
            max_priority_fee_per_gas: value.max_priority_fee_per_gas,
            is_eip4844: false,
        },
    }
}

/// A reported transaction has a signed network form exactly where it lacks
/// nothing.
pub proof fn lemma_convertible_lacks_nothing(value: RpcTransactionView)
    ensures
        convertible(value) <==> conversion_error_of(value) is None,
{
}

impl RpcTransaction {
    /// What the transaction lacks for a signed network form, or `None`
    /// where `Transaction::from` can be called on it.
    pub fn conversion_error(&self) -> (error: Option<ConversionError>)
        ensures
            error == conversion_error_of(self@),
            error is None <==> convertible(self@),
    {
        if self.signature.is_none() {
            Some(ConversionError::MissingSignature)
        } else if self.gas_price.is_some() {
            if self.to.is_none() {
                Some(ConversionError::MissingRecipient)
            } else {
                None
            }
        } else if self.chain_id.is_none() {
            Some(ConversionError::MissingChainId)
        } else if self.max_fee_per_gas.is_none() {
            Some(ConversionError::MissingMaxFee)
        } else if self.max_priority_fee_per_gas.is_none() {
            Some(ConversionError::MissingPriorityFee)
        } else if self.to.is_none() {
            Some(ConversionError::MissingRecipient)
        } else {
            None
        }
    }
}

impl Transaction {
    /// The transaction that the selection reads for one that the execution
    /// node reports: its signed network encoding, its hash, its gas limit
    /// and its tip.  The reported transaction has a signature and a
    /// recipient, and a gas price or else a chain, a fee cap and a
    /// priority fee.
    pub fn from(value: RpcTransaction) -> (transaction: Transaction)
        requires
            convertible(value@),
        ensures
            transaction@ == converted(value@),
    {
        let signature: RpcSignature = value.signature.unwrap();
        let to: [u8; 20] = value.to.unwrap();
        let parity: bool = match signature.y_parity {
            Some(parity) => parity,
            None => false,
        };
        match value.gas_price {
            Some(gas_price) => {
                let (raw, hash) = legacy_envelope(&value, gas_price, &to, &signature, parity);
                Transaction {
                    hash,
                    raw,
                    gas_limit: value.gas,
                    max_priority_fee_per_gas: value.max_priority_fee_per_gas,
                    is_eip4844: false,
                }
            },
            None => {
                let access_list: Vec<([u8; 20], Vec<[u8; 32]>)> = Vec::new();
                assert(access_list_view(access_list@) =~= Seq::empty());
                let (raw, hash) = eip1559_envelope(
                    &value,
                    value.chain_id.unwrap(),
                    value.max_fee_per_gas.unwrap(),
                    value.max_priority_fee_per_gas.unwrap(),
                    &to,
                    &access_list,
                    &signature,
                    parity,
                );
                Transaction {
                    hash,
                    raw,
                    gas_limit: value.gas,
                    max_priority_fee_per_gas: value.max_priority_fee_per_gas,
                    is_eip4844: false,
                }
            },
        }
    }
}

} // verus!
