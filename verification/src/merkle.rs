//! Hashing and merkle-proof verification for whitelisted membership.
use vstd::prelude::*;

verus! {

/// A 256-bit digest.
pub type H256 = [u8; 32];

/// The Blake2b digest of 256 bits of a byte string.
pub uninterp spec fn blake2_256(data: Seq<u8>) -> Seq<u8>;

/// The eight bytes of `value`, least significant first.
pub open spec fn le_bytes(value: u64) -> Seq<u8> {
    vstd::bytes::spec_u64_to_le_bytes(value)
}

/// Which side of the running digest a proof node is hashed on.
#[derive(Clone, Copy, Debug, PartialEq, Eq, Structural)]
pub enum MerkleSide {
    /// The node is appended to the right of the running digest.
    Right,
    /// The node is prepended to the left of the running digest.
    Left,
}

impl Default for MerkleSide {
    fn default() -> (r: Self)
        ensures
            r == MerkleSide::Right,
    {
        MerkleSide::Right
    }
}

/// The path from a leaf to the root: sibling digests with their sides.
#[derive(Clone, Debug, PartialEq, Eq)]
pub struct MerkleProof(pub Vec<(H256, MerkleSide)>);

/// The digest of a whitelisted member id.
pub open spec fn member_leaf(member_id: u64) -> Seq<u8> {
    blake2_256(le_bytes(member_id))
}

/// One step up the tree from `acc` past the sibling `node`.
pub open spec fn merkle_step(acc: Seq<u8>, node: Seq<u8>, side: MerkleSide) -> Seq<u8> {
    match side {
        MerkleSide::Left => blake2_256(node + acc),
        MerkleSide::Right => blake2_256(acc + node),
    }
}

/// The digest reached from `acc` by folding the first `n` nodes of `path`.
pub open spec fn merkle_fold(acc: Seq<u8>, path: Seq<(H256, MerkleSide)>, n: nat) -> Seq<u8>
    recommends
        n <= path.len(),
    decreases n,
{
    if n == 0 {
        acc
    } else {
        let (node, side) = path[n - 1];
        merkle_step(merkle_fold(acc, path, (n - 1) as nat), node@, side)
    }
}

/// The root that `path` leads to from the leaf of `member_id`.
pub open spec fn merkle_root_of(member_id: u64, path: Seq<(H256, MerkleSide)>) -> Seq<u8> {
    merkle_fold(member_leaf(member_id), path, path.len())
}

/// Whether `path` proves that `member_id` is under `root`.
pub open spec fn merkle_verifies(member_id: u64, path: Seq<(H256, MerkleSide)>, root: H256) -> bool {
    merkle_root_of(member_id, path) == root@
}

/// Calls `sp_core::Blake2Hasher::hash`, the `hash_db::Hasher` that wraps
/// `sp_crypto_hashing::blake2_256`, and hands out the digest's bytes.
///
/// Claimed of it: the digest is a function of the bytes hashed alone.
#[verifier::external_body]
fn blake2_256_digest(data: &Vec<u8>) -> (out: H256)
    ensures
        out@ == blake2_256(data@),
{
    <sp_core::Blake2Hasher as sp_core::Hasher>::hash(data.as_slice()).to_fixed_bytes()
}

/// Calls `parity_scale_codec::Encode::encode` on a `u64`.
///
/// Claimed of it: fixed-width integers are encoded as their bytes, least
/// significant first; the source writes `to_le_bytes()`.
#[verifier::external_body]
fn encode_u64(value: u64) -> (out: Vec<u8>)
    ensures
        out@ == le_bytes(value),
{
    parity_scale_codec::Encode::encode(&value)
}

/// Calls `parity_scale_codec::Encode::encode` on a pair of digests.
///
/// Claimed of it: a tuple is encoded as its fields one after the other,
/// and a byte array of fixed length as its bytes.
#[verifier::external_body]
fn encode_pair(left: &H256, right: &H256) -> (out: Vec<u8>)
    ensures
        out@ == left@ + right@,
{
    parity_scale_codec::Encode::encode(&(left, right))
}

/// The digest of a byte string.
pub fn hash_bytes(data: &Vec<u8>) -> (out: H256)
    ensures
        out@ == blake2_256(data@),
{
    blake2_256_digest(data)
}

/// The leaf digest of a member id.
pub fn hash_member(member_id: u64) -> (out: H256)
    ensures
        out@ == member_leaf(member_id),
{
    let encoded = encode_u64(member_id);
    blake2_256_digest(&encoded)
}

/// The digest of two digests, `left` first.
pub fn hash_pair(left: &H256, right: &H256) -> (out: H256)
    ensures
        out@ == blake2_256(left@ + right@),
{
    let encoded = encode_pair(left, right);
    blake2_256_digest(&encoded)
}

/// Whether two digests hold the same bytes.
pub fn hash_eq(a: &H256, b: &H256) -> (r: bool)
    ensures
        r == (a@ == b@),
        r == (*a == *b),
{
    let mut i: usize = 0;
    while i < 32
        invariant
            i <= 32,
            forall|j: int| 0 <= j < i ==> a@[j] == b@[j],
        decreases 32 - i,
    {
        if a[i] != b[i] {
            return false;
        }
        i += 1;
    }
    proof {
        broadcast use vstd::array::group_array_axioms;

        assert(a@ =~= b@);
        assert(*a =~= *b);
    }
    true
}

impl MerkleProof {
    /// The proof's nodes, leaf side first.
    pub open spec fn path(&self) -> Seq<(H256, MerkleSide)> {
        self.0@
    }

    /// Folds the proof from the leaf of `member_id` and compares the
    /// digest reached with `root`.
    pub fn verify(&self, member_id: u64, root: &H256) -> (r: bool)
        ensures
            r == merkle_verifies(member_id, self.path(), *root),
    {
        let mut acc = hash_member(member_id);
        let mut i: usize = 0;
        while i < self.0.len()
            invariant
                i <= self.0.len(),
                acc@ == merkle_fold(member_leaf(member_id), self.0@, i as nat),
            decreases self.0.len() - i,
        {
            let node = self.0[i].0;
            let side = self.0[i].1;
            acc =
            match side {
                MerkleSide::Left => hash_pair(&node, &acc),
                MerkleSide::Right => hash_pair(&acc, &node),
            };
            i += 1;
        }
        hash_eq(&acc, root)
    }
}

/// The root over the two members `a` and `b`, `a` on the left.
pub open spec fn pair_root(a: u64, b: u64) -> Seq<u8> {
    blake2_256(member_leaf(a) + member_leaf(b))
}

/// In the tree over two members, the right leaf as a right-hand sibling
/// proves the left member, and the left leaf as a left-hand sibling proves
/// the right member.
pub proof fn lemma_pair_proofs_verify(a: u64, b: u64, leaf_a: H256, leaf_b: H256, root: H256)
    requires
        leaf_a@ == member_leaf(a),
        leaf_b@ == member_leaf(b),
        root@ == pair_root(a, b),
    ensures
        merkle_verifies(a, seq![(leaf_b, MerkleSide::Right)], root),
        merkle_verifies(b, seq![(leaf_a, MerkleSide::Left)], root),
{
    let pa = seq![(leaf_b, MerkleSide::Right)];
    let pb = seq![(leaf_a, MerkleSide::Left)];
    assert(merkle_fold(member_leaf(a), pa, 0) == member_leaf(a));
    assert(merkle_fold(member_leaf(a), pa, 1) == merkle_step(member_leaf(a), leaf_b@, MerkleSide::Right)) by {
        reveal_with_fuel(merkle_fold, 2);
    }
    assert(merkle_fold(member_leaf(b), pb, 1) == merkle_step(member_leaf(b), leaf_a@, MerkleSide::Left)) by {
        reveal_with_fuel(merkle_fold, 2);
    }
}

} // verus!
