//! Merkle inclusion-proof verification.
//!
//! An inclusion proof carries a leaf hash and an ordered path of sibling
//! hashes, read from the leaf toward the root. The root is recomputed by
//! repeatedly concatenating the current hash with the next sibling — the
//! lexicographically smaller one first — and digesting the concatenation;
//! the proof is accepted iff the recomputed root equals the expected one.

use vstd::prelude::*;
use vstd::string::StringExecFns;
use crate::digest::hash_data;
use crate::digest::sha256_hex_of;
use crate::order::lemma_lex_lt_asymmetric;
use crate::order::lemma_lex_lt_connected;
use crate::order::lex_lt;
use crate::order::str_eq;
use crate::order::str_lt;

verus! {

/// An inclusion proof: the leaf's hash and the sibling hashes needed to
/// recompute the root, ordered from the leaf upward. An empty path means
/// the tree has exactly one leaf.
pub struct MerkleProof {
    pub leaf_hash: String,
    pub proof_path: Vec<String>,
}

impl MerkleProof {
    /// The sibling path as a sequence of character sequences.
    pub open spec fn path_view(&self) -> Seq<Seq<char>> {
        self.proof_path.deep_view()
    }
}

/// One combination step: the two hashes concatenated, the
/// lexicographically smaller first, with no separator.
pub open spec fn spec_combine(a: Seq<char>, b: Seq<char>) -> Seq<char> {
    if lex_lt(a, b) {
        a + b
    } else {
        b + a
    }
}

/// The hash reached from `current` after folding every sibling of `path`
/// into it, in order: each step digests the ordered concatenation of the
/// current hash and the next sibling.
pub open spec fn fold_path(current: Seq<char>, path: Seq<Seq<char>>) -> Seq<char>
    decreases path.len(),
{
    if path.len() == 0 {
        current
    } else {
        fold_path(sha256_hex_of(spec_combine(current, path[0])), path.skip(1))
    }
}

/// What inclusion verification accepts. With an empty path the tree has a
/// single leaf, and the digest of the fingerprint must equal both the
/// claimed leaf hash and the expected root. With a non-empty path the
/// leaf hash is taken as given, and the path folded from it must reach
/// the expected root.
pub open spec fn spec_verify_inclusion(
    leaf: Seq<char>,
    path: Seq<Seq<char>>,
    fingerprint: Seq<char>,
    root: Seq<char>,
) -> bool {
    if path.len() == 0 {
        leaf == sha256_hex_of(fingerprint) && sha256_hex_of(fingerprint) == root
    } else {
        fold_path(leaf, path) == root
    }
}

/// One executable combination step, exactly `spec_combine`.
pub fn combine_hashes(a: &str, b: &str) -> (r: String)
    ensures
        r@ == spec_combine(a@, b@),
{
    if str_lt(a, b) {
        a.to_owned().concat(b)
    } else {
        b.to_owned().concat(a)
    }
}

/// Verify a Merkle inclusion proof for a certificate fingerprint against
/// an expected root hash.
pub fn verify_merkle_proof(proof: &MerkleProof, fingerprint: &str, root_hash: &str) -> (r: bool)
    ensures
        r == spec_verify_inclusion(
            proof.leaf_hash@,
            proof.path_view(),
            fingerprint@,
            root_hash@,
        ),
{
    if proof.proof_path.len() == 0 {
        let fingerprint_hash = hash_data(fingerprint);
        return str_eq(proof.leaf_hash.as_str(), fingerprint_hash.as_str()) && str_eq(
            fingerprint_hash.as_str(),
            root_hash,
        );
    }

    let ghost dv = proof.path_view();
    let mut current_hash: String = proof.leaf_hash.clone();
    let mut i: usize = 0;
    proof {
        assert(dv.skip(0) =~= dv);
    }
    while i < proof.proof_path.len()
        invariant
            i <= proof.proof_path.len(),
            dv == proof.path_view(),
            dv.len() == proof.proof_path.len(),
            fold_path(current_hash@, dv.skip(i as int)) == fold_path(proof.leaf_hash@, dv),
        decreases proof.proof_path.len() - i,
    {
        let sibling: &String = &proof.proof_path[i];
        let combined = combine_hashes(current_hash.as_str(), sibling.as_str());
        proof {
            assert(dv.skip(i as int)[0] == dv[i as int]);
            assert(dv[i as int] == proof.proof_path@[i as int]@);
            assert(dv.skip(i as int).skip(1) =~= dv.skip(i + 1));
        }
        current_hash = hash_data(combined.as_str());
        i = i + 1;
    }
    proof {
        assert(dv.skip(proof.proof_path.len() as int) =~= Seq::<Seq<char>>::empty());
    }
    str_eq(current_hash.as_str(), root_hash)
}

/// With an empty path, a proof whose leaf hash is the digest of the
/// fingerprint is accepted exactly when the expected root is that same
/// digest.
pub proof fn lemma_single_leaf_accepts(fingerprint: Seq<char>)
    ensures
        spec_verify_inclusion(
            sha256_hex_of(fingerprint),
            Seq::<Seq<char>>::empty(),
            fingerprint,
            sha256_hex_of(fingerprint),
        ),
{
}

/// With an empty path, a proof whose leaf hash differs from the digest of
/// the fingerprint is rejected, whatever the expected root.
pub proof fn lemma_single_leaf_rejects_mismatched_leaf(
    leaf: Seq<char>,
    fingerprint: Seq<char>,
    root: Seq<char>,
)
    requires
        leaf != sha256_hex_of(fingerprint),
    ensures
        !spec_verify_inclusion(leaf, Seq::<Seq<char>>::empty(), fingerprint, root),
{
}

/// The combination step is commutative: which of the two hashes is the
/// current one and which the sibling does not matter, since the pair is
/// ordered lexicographically before concatenation.
pub proof fn lemma_combine_commutative(a: Seq<char>, b: Seq<char>)
    ensures
        spec_combine(a, b) == spec_combine(b, a),
{
    lemma_lex_lt_connected(a, b);
    lemma_lex_lt_asymmetric(a, b);
}

/// At any fold step, swapping which hash is the current one and which
/// the sibling yields the same combined digest.
pub proof fn lemma_fold_step_commutative(current: Seq<char>, sibling: Seq<char>)
    ensures
        sha256_hex_of(spec_combine(current, sibling)) == sha256_hex_of(
            spec_combine(sibling, current),
        ),
{
    lemma_combine_commutative(current, sibling);
}

} // verus!
