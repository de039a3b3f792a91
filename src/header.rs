//! The consensus-layer block header and its tree-hash root.

use vstd::prelude::*;

verus! {

/// A beacon block header, with the fields in the order of its SSZ container.
#[derive(Clone, Copy, Debug, PartialEq, Eq)]
pub struct BeaconBlockHeader {
    pub slot: u64,
    pub proposer_index: u64,
    pub parent_root: [u8; 32],
    pub state_root: [u8; 32],
    pub body_root: [u8; 32],
}

/// The 32-byte leaf of a `uint64`: its eight little-endian bytes, then zeros.
pub open spec fn uint64_chunk(v: u64) -> Seq<u8> {
    Seq::new(32, |i: int| if i < 8 { ((v >> ((8 * i) as u64)) & 0xff) as u8 } else { 0u8 })
}

/// The root of the binary Merkle tree over the 32-byte chunks of `bytes`.
pub uninterp spec fn merkle_root_of(bytes: Seq<u8>) -> Seq<u8>;

/// The leaves of a header's container: one chunk per field, in field order.
pub open spec fn header_chunks(h: BeaconBlockHeader) -> Seq<u8> {
    uint64_chunk(h.slot) + uint64_chunk(h.proposer_index) + h.parent_root@ + h.state_root@
        + h.body_root@
}

/// The tree-hash root of a header.
pub open spec fn header_root(h: BeaconBlockHeader) -> Seq<u8> {
    merkle_root_of(header_chunks(h))
}

/// Relies on tree_hash's `TreeHash::tree_hash_root` for `u64`, which writes the
/// value's little-endian bytes at the start of an otherwise zero chunk.
#[verifier::external_body]
fn uint64_leaf(v: u64) -> (r: [u8; 32])
    ensures
        r@ == uint64_chunk(v),
{
    <u64 as tree_hash::TreeHash>::tree_hash_root(&v).0
}

/// Relies on `tree_hash::merkle_root` with no minimum leaf count: the Merkle
/// root of the chunks of `bytes`, a function of the bytes alone. Up to 2^16
/// chunks the tree stays within the depth of its table of zero hashes.
#[verifier::external_body]
fn merkle_root(bytes: &[u8]) -> (r: [u8; 32])
    requires
        bytes@.len() <= 0x20_0000,
    ensures
        r@ == merkle_root_of(bytes@),
{
    tree_hash::merkle_root(bytes, 0).0
}

/// Appends the 32 bytes of `chunk` to `out`.
fn push_chunk(out: &mut Vec<u8>, chunk: &[u8; 32])
    ensures
        final(out)@ == old(out)@ + chunk@,
{
    let ghost start = old(out)@;
    let mut i: usize = 0;
    while i < 32
        invariant
            i <= 32,
            out@ == start + chunk@.subrange(0, i as int),
        decreases 32 - i,
    {
        out.push(chunk[i]);
        assert(chunk@.subrange(0, i + 1) =~= chunk@.subrange(0, i as int).push(chunk@[i as int]));
        i = i + 1;
    }
    assert(chunk@.subrange(0, 32) =~= chunk@);
}

impl BeaconBlockHeader {
    /// The leaves of this header's container, laid out as 160 bytes.
    pub fn chunks(&self) -> (r: Vec<u8>)
        ensures
            r@ == header_chunks(*self),
            r@.len() == 160,
    {
        let mut out: Vec<u8> = Vec::new();
        push_chunk(&mut out, &uint64_leaf(self.slot));
        push_chunk(&mut out, &uint64_leaf(self.proposer_index));
        push_chunk(&mut out, &self.parent_root);
        push_chunk(&mut out, &self.state_root);
        push_chunk(&mut out, &self.body_root);
        out
    }

    /// The tree-hash root of this header.
    pub fn tree_hash_root(&self) -> (r: [u8; 32])
        ensures
            r@ == header_root(*self),
    {
        let leaves = self.chunks();
        merkle_root(leaves.as_slice())
    }
}

} // verus!
