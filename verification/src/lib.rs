//! Merkle inclusion-proof verification.
//!
//! A claimed certificate fingerprint is checked for inclusion in a Merkle
//! tree identified by a published root hash. The digest primitive is
//! SHA-256, rendered as 64 lower-case hexadecimal characters; sibling
//! hashes are folded toward the root with a lexicographic pair ordering,
//! so a proof needs no per-step direction bits.

pub mod digest;
pub mod order;
pub mod merkle;
pub mod verdict;

pub use digest::calculate_fingerprint;
pub use merkle::MerkleProof;
pub use merkle::verify_merkle_proof;
pub use verdict::CertificateData;
pub use verdict::verify_certificate;
pub use verdict::verify_fingerprint;
