use merkle_verifier::CertificateData;
use merkle_verifier::MerkleProof;
use merkle_verifier::calculate_fingerprint;
use merkle_verifier::merkle::combine_hashes;
use merkle_verifier::verify_certificate;
use merkle_verifier::verify_fingerprint;
use merkle_verifier::verify_merkle_proof;

/// A parent node's hash, built with plain Rust string ordering so the
/// tree construction is independent of the library's own comparison.
fn parent(a: &str, b: &str) -> String {
    let combined = if a < b {
        format!("{}{}", a, b)
    } else {
        format!("{}{}", b, a)
    };
    calculate_fingerprint(&combined)
}

#[test]
fn digest_is_deterministic() {
    assert_eq!(calculate_fingerprint("example"), calculate_fingerprint("example"));
    assert_eq!(calculate_fingerprint(""), calculate_fingerprint(""));
    let long = "x".repeat(10_000);
    assert_eq!(calculate_fingerprint(&long), calculate_fingerprint(&long));
}

#[test]
fn digest_matches_known_values() {
    assert_eq!(
        calculate_fingerprint(""),
        "e3b0c44298fc1c149afbf4c8996fb92427ae41e4649b934ca495991b7852b855"
    );
    assert_eq!(
        calculate_fingerprint("abc"),
        "ba7816bf8f01cfea414140de5dae2223b00361a396177a9cb410ff61f20015ad"
    );
}

#[test]
fn digest_has_no_collisions_on_corpus() {
    let corpus = ["", "a", "b", "ab", "ba", "example.com", "example.con", "x"];
    let digests: Vec<String> = corpus.iter().map(|s| calculate_fingerprint(s)).collect();
    for i in 0..digests.len() {
        assert_eq!(digests[i].len(), 64);
        for j in 0..digests.len() {
            if i != j {
                assert_ne!(digests[i], digests[j]);
            }
        }
    }
}

#[test]
fn single_leaf_proof_accepts() {
    let fingerprint = "my-certificate";
    let hash = calculate_fingerprint(fingerprint);
    let proof = MerkleProof { leaf_hash: hash.clone(), proof_path: vec![] };
    assert!(verify_merkle_proof(&proof, fingerprint, &hash));
}

#[test]
fn single_leaf_proof_rejects_mismatched_leaf() {
    let fingerprint = "my-certificate";
    let good = calculate_fingerprint(fingerprint);
    let bad = calculate_fingerprint("another-certificate");
    let proof = MerkleProof { leaf_hash: bad.clone(), proof_path: vec![] };
    // Rejected whatever the expected root, even one equal to the leaf hash.
    assert!(!verify_merkle_proof(&proof, fingerprint, &good));
    assert!(!verify_merkle_proof(&proof, fingerprint, &bad));
    assert!(!verify_merkle_proof(&proof, fingerprint, "anything"));
}

#[test]
fn four_leaf_tree_proofs_accept() {
    let leaves = ["alpha", "bravo", "charlie", "delta"];
    let hashes: Vec<String> = leaves.iter().map(|l| calculate_fingerprint(l)).collect();
    let p01 = parent(&hashes[0], &hashes[1]);
    let p23 = parent(&hashes[2], &hashes[3]);
    let root = parent(&p01, &p23);

    let siblings = [
        vec![hashes[1].clone(), p23.clone()],
        vec![hashes[0].clone(), p23.clone()],
        vec![hashes[3].clone(), p01.clone()],
        vec![hashes[2].clone(), p01.clone()],
    ];
    for i in 0..4 {
        let proof = MerkleProof {
            leaf_hash: hashes[i].clone(),
            proof_path: siblings[i].clone(),
        };
        assert!(verify_merkle_proof(&proof, leaves[i], &root));
    }

    // A proof folded against the wrong root is rejected.
    let proof = MerkleProof {
        leaf_hash: hashes[0].clone(),
        proof_path: siblings[0].clone(),
    };
    assert!(!verify_merkle_proof(&proof, leaves[0], &p01));
}

#[test]
fn combination_is_commutative() {
    let a = calculate_fingerprint("left");
    let b = calculate_fingerprint("right");
    assert_eq!(combine_hashes(&a, &b), combine_hashes(&b, &a));
    assert_eq!(combine_hashes(&a, &a), combine_hashes(&a, &a));
    // The ordered concatenation puts the smaller hash first.
    let smaller = if a < b { &a } else { &b };
    assert!(combine_hashes(&a, &b).starts_with(smaller.as_str()));
}

#[test]
fn failed_decode_yields_danger_verdict() {
    let fingerprint = calculate_fingerprint("some-cert");
    let root = calculate_fingerprint("some-root");
    // The raw payload is malformed, so the boundary hands in no parsed proof.
    let raw = "{\"leaf_hash\": 42";
    let verdict: CertificateData =
        verify_certificate("example.com", &fingerprint, raw, &root, None);
    assert_eq!(verdict.status, "danger");
    assert!(!verdict.sct_valid);
    assert_eq!(verdict.domain, "example.com");
    assert_eq!(verdict.merkle_proof, raw);
    assert_eq!(verdict.merkle_root, root);
}

#[test]
fn fingerprint_format_accepts_prefix_and_bare_digest() {
    let prefixed = format!("SHA256:{}", "a".repeat(64));
    assert!(verify_fingerprint(&prefixed));
    assert!(verify_fingerprint(&"a".repeat(64)));
    assert!(!verify_fingerprint("short"));
    assert!(verify_fingerprint("SHA256:"));
    assert!(!verify_fingerprint(&"a".repeat(63)));
}

#[test]
fn end_to_end_two_sibling_path_is_safe() {
    let fingerprint = calculate_fingerprint("server-certificate");
    let leaves = ["server-certificate", "peer-one", "peer-two", "peer-three"];
    let hashes: Vec<String> = leaves.iter().map(|l| calculate_fingerprint(l)).collect();
    let p01 = parent(&hashes[0], &hashes[1]);
    let p23 = parent(&hashes[2], &hashes[3]);
    let root = parent(&p01, &p23);

    let proof = MerkleProof {
        leaf_hash: hashes[0].clone(),
        proof_path: vec![hashes[1].clone(), p23.clone()],
    };
    let raw = format!(
        "{{\"leaf_hash\":\"{}\",\"proof_path\":[\"{}\",\"{}\"]}}",
        hashes[0], hashes[1], p23
    );
    let verdict = verify_certificate("example.com", &fingerprint, &raw, &root, Some(&proof));
    assert_eq!(verdict.status, "safe");
    assert!(verdict.sct_valid);
    assert_eq!(verdict.fingerprint, fingerprint);
    assert_eq!(verdict.domain, "example.com");
    assert_eq!(verdict.merkle_proof, raw);
    assert_eq!(verdict.merkle_root, root);
}
