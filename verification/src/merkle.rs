//! Hash-tree roots, computed by the crates `tree_hash` and `ssz_types`.

use vstd::prelude::*;
use ssz_types::typenum::U1000;
use ssz_types::VariableList;
use tree_hash::TreeHash;

verus! {

/// Largest input, in bytes and in leaves, that this crate hands to the hasher.
pub const MERKLE_LIMIT: usize = 0x10_0000;

/// The root that `tree_hash::merkle_root` computes for `bytes`, split into
/// leaves of 32 bytes and padded with zero leaves up to `minimum_leaf_count`.
pub uninterp spec fn merkle_root_of(bytes: Seq<u8>, minimum_leaf_count: usize) -> Seq<u8>;

/// The node that `tree_hash::mix_in_length` computes from a root and a length.
pub uninterp spec fn mix_in_length_of(root: Seq<u8>, length: usize) -> Seq<u8>;

/// Most bytes that a list of bytes holds.
pub const BYTE_LIST_LIMIT: usize = 1000;

/// A list of at most 1000 bytes, as `ssz_types` holds it.
pub type ByteList = VariableList<u8, U1000>;

/// Makes `ssz_types::VariableList` known as a type.
#[verifier::external_type_specification]
#[verifier::external_body]
#[verifier::reject_recursive_types(T)]
#[verifier::reject_recursive_types(N)]
pub struct ExVariableList<T, N>(ssz_types::VariableList<T, N>);

/// Makes `typenum::UInt` known as a type: a number by its bits, of which
/// the limit of a list is one.
#[verifier::external_type_specification]
#[verifier::external_body]
#[verifier::reject_recursive_types(U)]
#[verifier::reject_recursive_types(B)]
pub struct ExUInt<U, B>(ssz_types::typenum::UInt<U, B>);

/// Makes `typenum::UTerm` known as a type: the end of the bits of a number.
#[verifier::external_type_specification]
#[verifier::external_body]
pub struct ExUTerm(ssz_types::typenum::UTerm);

/// Makes `typenum::B0` known as a type: the bit 0.
#[verifier::external_type_specification]
#[verifier::external_body]
pub struct ExB0(ssz_types::typenum::B0);

/// Makes `typenum::B1` known as a type: the bit 1.
#[verifier::external_type_specification]
#[verifier::external_body]
pub struct ExB1(ssz_types::typenum::B1);

/// The bytes that a list holds, in their order.
pub uninterp spec fn byte_list_bytes(list: VariableList<u8, U1000>) -> Seq<u8>;

/// The root that `ssz_types` computes for a list that holds `bytes`.
pub uninterp spec fn byte_list_root_of(bytes: Seq<u8>) -> Seq<u8>;

/// Calls `tree_hash::merkle_root`.
///
/// Trusted: the result is a function of the two arguments alone, named
/// `merkle_root_of`.  The bounds keep the tree far below the depth at which
/// the hasher gives up.
#[verifier::external_body]
pub(crate) fn merkle_root(bytes: &[u8], minimum_leaf_count: usize) -> (root: [u8; 32])
    requires
        bytes@.len() <= MERKLE_LIMIT,
        minimum_leaf_count <= MERKLE_LIMIT,
    ensures
        root@ == merkle_root_of(bytes@, minimum_leaf_count),
{
    tree_hash::merkle_root(bytes, minimum_leaf_count).0
}

/// Calls `tree_hash::mix_in_length`.
///
/// Trusted: the result is a function of the root and the length alone, named
/// `mix_in_length_of`.
#[verifier::external_body]
pub(crate) fn mix_in_length(root: &[u8; 32], length: usize) -> (mixed: [u8; 32])
    ensures
        mixed@ == mix_in_length_of(root@, length),
{
    tree_hash::mix_in_length(&tree_hash::Hash256::from(*root), length).0
}

/// Calls `ssz_types::VariableList::new`.
///
/// Trusted: a list is made of at most 1000 bytes and of no more, and it
/// holds the bytes it was made of.
#[verifier::external_body]
pub(crate) fn byte_list_new(bytes: Vec<u8>) -> (list: Option<VariableList<u8, U1000>>)
    ensures
        match list {
            Some(made) => bytes@.len() <= BYTE_LIST_LIMIT && byte_list_bytes(made) == bytes@,
            None => bytes@.len() > BYTE_LIST_LIMIT,
        },
{
    VariableList::new(bytes).ok()
}

/// Borrows the bytes of a list through its `Deref` to a slice.
///
/// Trusted: the slice holds what the list holds.
#[verifier::external_body]
pub(crate) fn byte_list_as_slice(list: &VariableList<u8, U1000>) -> (bytes: &[u8])
    ensures
        bytes@ == byte_list_bytes(*list),
{
    list
}

/// Calls `Clone::clone` of `ssz_types::VariableList`.
///
/// Trusted: the copy holds what the list holds.
#[verifier::external_body]
pub(crate) fn byte_list_clone(list: &VariableList<u8, U1000>) -> (copy: VariableList<u8, U1000>)
    ensures
        byte_list_bytes(copy) == byte_list_bytes(*list),
{
    list.clone()
}

/// Calls `TreeHash::tree_hash_root` of `ssz_types::VariableList`.
///
/// Trusted: the root is a function of the bytes that the list holds, named
/// `byte_list_root_of`.
#[verifier::external_body]
pub(crate) fn byte_list_root(list: &VariableList<u8, U1000>) -> (root: [u8; 32])
    ensures
        root@ == byte_list_root_of(byte_list_bytes(*list)),
{
    list.tree_hash_root().0
}

/// The leaf that stands for an unsigned integer: its eight little-endian
/// bytes, followed by zeros.
pub open spec fn uint_chunk(value: u64) -> Seq<u8> {
    vstd::bytes::spec_u64_to_le_bytes(value) + Seq::new(24, |i: int| 0u8)
}

/// Appends the leaf of `value` to `out`.
pub fn push_uint_chunk(out: &mut Vec<u8>, value: u64)
    ensures
        final(out)@ == old(out)@ + uint_chunk(value),
        final(out)@.len() == old(out)@.len() + 32,
{
    let mut le: Vec<u8> = vstd::bytes::u64_to_le_bytes(value);
    let ghost before = out@;
    out.append(&mut le);
    let mut i: usize = 0;
    while i < 24
        invariant
            i <= 24,
            out@ == before + vstd::bytes::spec_u64_to_le_bytes(value) + Seq::new(i as nat, |k: int| 0u8),
        decreases 24 - i,
    {
        out.push(0u8);
        i = i + 1;
    }
    assert(out@ == before + uint_chunk(value));
}

} // verus!
