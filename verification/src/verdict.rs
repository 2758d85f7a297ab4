//! Verdict assembly and the fingerprint shape check.
//!
//! Decoding the proof payload and encoding the verdict are the boundary's
//! concern: the verifier takes the decode outcome as a plain `Option` and
//! returns a plain record, so a malformed payload degrades to a negative
//! verdict instead of a fault.

use vstd::prelude::*;
use vstd::string::StrSliceExecFns;
use vstd::string::StringSliceAdditionalSpecFns;
use crate::merkle::MerkleProof;
use crate::merkle::spec_verify_inclusion;
use crate::merkle::verify_merkle_proof;

verus! {

/// The verdict record for one verification call: the inputs echoed back,
/// a status of `"safe"` or `"danger"`, and the verification boolean.
pub struct CertificateData {
    pub domain: String,
    pub fingerprint: String,
    pub merkle_proof: String,
    pub merkle_root: String,
    pub status: String,
    pub sct_valid: bool,
}

/// The characters of the literal prefix `"SHA256:"`.
pub open spec fn sha256_prefix() -> Seq<char> {
    seq!['S', 'H', 'A', '2', '5', '6', ':']
}

/// The shape a fingerprint string must have: it starts with the literal
/// prefix `"SHA256:"`, or it is exactly 64 bytes long (a bare hex
/// digest). A shape check only: the characters after the prefix are not
/// inspected, and nothing is checked to be valid hexadecimal.
pub open spec fn is_fingerprint_shape(s: &str) -> bool {
    (s@.len() >= 7 && s@.subrange(0, 7) == sha256_prefix()) || s.spec_bytes().len() == 64
}

proof fn lemma_prefix_chars()
    ensures
        sha256_prefix().len() == 7,
        sha256_prefix()[0] == 'S',
        sha256_prefix()[1] == 'H',
        sha256_prefix()[2] == 'A',
        sha256_prefix()[3] == '2',
        sha256_prefix()[4] == '5',
        sha256_prefix()[5] == '6',
        sha256_prefix()[6] == ':',
{
}

/// Check that a fingerprint has the accepted shape: the `"SHA256:"`
/// prefix, or byte length exactly 64.
pub fn verify_fingerprint(fingerprint: &str) -> (r: bool)
    ensures
        r == is_fingerprint_shape(fingerprint),
{
    proof {
        lemma_prefix_chars();
    }
    let bytes: &[u8] = fingerprint.as_bytes();
    if bytes.len() == 64 {
        return true;
    }
    if fingerprint.unicode_len() < 7 {
        return false;
    }
    proof {
        assert(fingerprint@.subrange(0, 7)[0] == fingerprint@[0]);
        assert(fingerprint@.subrange(0, 7)[1] == fingerprint@[1]);
        assert(fingerprint@.subrange(0, 7)[2] == fingerprint@[2]);
        assert(fingerprint@.subrange(0, 7)[3] == fingerprint@[3]);
        assert(fingerprint@.subrange(0, 7)[4] == fingerprint@[4]);
        assert(fingerprint@.subrange(0, 7)[5] == fingerprint@[5]);
        assert(fingerprint@.subrange(0, 7)[6] == fingerprint@[6]);
    }
    if fingerprint.get_char(0) != 'S' {
        return false;
    }
    if fingerprint.get_char(1) != 'H' {
        return false;
    }
    if fingerprint.get_char(2) != 'A' {
        return false;
    }
    if fingerprint.get_char(3) != '2' {
        return false;
    }
    if fingerprint.get_char(4) != '5' {
        return false;
    }
    if fingerprint.get_char(5) != '6' {
        return false;
    }
    if fingerprint.get_char(6) != ':' {
        return false;
    }
    proof {
        assert(fingerprint@.subrange(0, 7) =~= sha256_prefix());
    }
    true
}

/// Verify a certificate fingerprint against an expected Merkle root and
/// assemble the verdict record. `parsed` is the outcome of decoding
/// `merkle_proof_json` into an inclusion proof; a failed decode (`None`)
/// yields the negative verdict, never a fault. The raw payload and the
/// other inputs are echoed back unchanged; `status` mirrors the
/// verification boolean as `"safe"` or `"danger"`.
pub fn verify_certificate(
    domain: &str,
    fingerprint: &str,
    merkle_proof_json: &str,
    merkle_root: &str,
    parsed: Option<&MerkleProof>,
) -> (r: CertificateData)
    ensures
        r.domain@ == domain@,
        r.fingerprint@ == fingerprint@,
        r.merkle_proof@ == merkle_proof_json@,
        r.merkle_root@ == merkle_root@,
        r.sct_valid == (match parsed {
            Option::Some(p) => spec_verify_inclusion(
                p.leaf_hash@,
                p.path_view(),
                fingerprint@,
                merkle_root@,
            ),
            Option::None => false,
        }),
        (if r.sct_valid {
            r.status@ == "safe"@
        } else {
            r.status@ == "danger"@
        }),
{
    let is_valid = match parsed {
        Option::Some(p) => verify_merkle_proof(p, fingerprint, merkle_root),
        Option::None => false,
    };

    let status = if is_valid {
        "safe"
    } else {
        "danger"
    };

    CertificateData {
        domain: domain.to_owned(),
        fingerprint: fingerprint.to_owned(),
        merkle_proof: merkle_proof_json.to_owned(),
        merkle_root: merkle_root.to_owned(),
        status: status.to_owned(),
        sct_valid: is_valid,
    }
}

} // verus!
