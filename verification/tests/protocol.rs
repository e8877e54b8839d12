//! End-to-end exercises of the Schnorr protocol: completeness,
//! tampering, location binding, truncation, challenge determinism,
//! nonce freshness, and a hand-checkable small-modulus scenario.

use priv_access::crypto::GroupParams;
use priv_access::rbac::get_role_secret;
use priv_access::zkp::{derive_challenge, response_scalar, Proof, SchnorrProver, SchnorrVerifier};

fn standard_params() -> GroupParams {
    GroupParams::standard().expect("the fixed group literals must parse")
}

fn small_params() -> GroupParams {
    // p = 23 is a safe prime: q = 11 is prime and 2^11 mod 23 == 1.
    GroupParams::from_decimal("23", "2", "11").expect("23/2/11 describes a usable group")
}

fn modpow_u64(mut base: u64, mut exp: u64, modulus: u64) -> u64 {
    let mut acc: u64 = 1 % modulus;
    base %= modulus;
    while exp > 0 {
        if exp & 1 == 1 {
            acc = acc * base % modulus;
        }
        base = base * base % modulus;
        exp >>= 1;
    }
    acc
}

#[test]
fn completeness_standard_group() {
    let secret = get_role_secret("ADMIN").unwrap();
    let prover = SchnorrProver::new(standard_params(), secret);
    let proof = prover.generate_proof("t1q7hk9vj".to_string());
    assert!(SchnorrVerifier::verify_proof(&standard_params(), &proof));
}

#[test]
fn completeness_small_group() {
    let params = small_params();
    let prover = SchnorrProver::new(params.duplicate(), "5".to_string());
    let proof = prover.generate_proof("abcdef".to_string());
    assert!(SchnorrVerifier::verify_proof(&params, &proof));
}

#[test]
fn completeness_every_small_secret() {
    // Every scalar in [1, q - 2] proves successfully, whatever the location.
    let params = small_params();
    for x in 1u64..=9 {
        let prover = SchnorrProver::new(params.duplicate(), x.to_string());
        let proof = prover.generate_proof("anywhere at all".to_string());
        assert!(SchnorrVerifier::verify_proof(&params, &proof));
    }
}

fn flip_first_digit(s: &str) -> String {
    let mut chars: Vec<char> = s.chars().collect();
    chars[0] = if chars[0] == '1' { '2' } else { '1' };
    chars.into_iter().collect()
}

#[test]
fn tampered_commitment_fails() {
    let params = standard_params();
    let prover = SchnorrProver::new(params.duplicate(), get_role_secret("STUDENT").unwrap());
    let proof = prover.generate_proof("t1q7hk9vj".to_string());
    let tampered = Proof {
        public_key: proof.public_key.clone(),
        commitment: flip_first_digit(&proof.commitment),
        response: proof.response.clone(),
        geohash: proof.geohash.clone(),
    };
    assert!(!SchnorrVerifier::verify_proof(&params, &tampered));
}

#[test]
fn tampered_response_fails() {
    let params = standard_params();
    let prover = SchnorrProver::new(params.duplicate(), get_role_secret("STUDENT").unwrap());
    let proof = prover.generate_proof("t1q7hk9vj".to_string());
    let tampered = Proof {
        public_key: proof.public_key.clone(),
        commitment: proof.commitment.clone(),
        response: flip_first_digit(&proof.response),
        geohash: proof.geohash.clone(),
    };
    assert!(!SchnorrVerifier::verify_proof(&params, &tampered));
}

#[test]
fn tampered_public_key_fails() {
    let params = standard_params();
    let prover = SchnorrProver::new(params.duplicate(), get_role_secret("STUDENT").unwrap());
    let proof = prover.generate_proof("t1q7hk9vj".to_string());
    let tampered = Proof {
        public_key: flip_first_digit(&proof.public_key),
        commitment: proof.commitment.clone(),
        response: proof.response.clone(),
        geohash: proof.geohash.clone(),
    };
    assert!(!SchnorrVerifier::verify_proof(&params, &tampered));
}

#[test]
fn swapped_location_fails() {
    let params = standard_params();
    let prover = SchnorrProver::new(params.duplicate(), get_role_secret("FACULTY").unwrap());
    let proof = prover.generate_proof("t1q7hk9vj".to_string());
    let swapped = Proof {
        public_key: proof.public_key.clone(),
        commitment: proof.commitment.clone(),
        response: proof.response.clone(),
        geohash: "zzzzzz9vj".to_string(),
    };
    assert!(!SchnorrVerifier::verify_proof(&params, &swapped));
}

#[test]
fn truncation_rule_all_lengths() {
    // Locations shorter than, exactly, and longer than six characters
    // all round-trip: prover and verifier truncate alike.
    let params = standard_params();
    let prover = SchnorrProver::new(params.duplicate(), get_role_secret("FACULTY").unwrap());
    for loc in ["abc", "abcdef", "abcdefghijkl"] {
        let proof = prover.generate_proof(loc.to_string());
        assert_eq!(proof.geohash, loc);
        assert!(SchnorrVerifier::verify_proof(&params, &proof));
    }
}

#[test]
fn truncation_only_first_six_bind() {
    // Two locations sharing their first six characters give the same
    // challenge; only that prefix is bound into the proof.
    let params = standard_params();
    let c1 = derive_challenge("8", "9", "abcdefZZZZ", &params);
    let c2 = derive_challenge("8", "9", "abcdefQQQQ", &params);
    let c3 = derive_challenge("8", "9", "abcdef", &params);
    assert_eq!(c1, c2);
    assert_eq!(c1, c3);
}

#[test]
fn challenge_is_deterministic() {
    let params = standard_params();
    let c1 = derive_challenge("12345", "67890", "t1q7hk9vj", &params);
    let c2 = derive_challenge("12345", "67890", "t1q7hk9vj", &params);
    assert_eq!(c1, c2);
}

#[test]
fn challenge_separates_inputs() {
    let params = standard_params();
    let base = derive_challenge("12345", "67890", "t1q7hk", &params);
    assert_ne!(base, derive_challenge("12346", "67890", "t1q7hk", &params));
    assert_ne!(base, derive_challenge("12345", "67891", "t1q7hk", &params));
    assert_ne!(base, derive_challenge("12345", "67890", "t1q7hX", &params));
}

#[test]
fn nonce_freshness() {
    let params = standard_params();
    let prover = SchnorrProver::new(params.duplicate(), get_role_secret("ADMIN").unwrap());
    let first = prover.generate_proof("t1q7hk9vj".to_string());
    let second = prover.generate_proof("t1q7hk9vj".to_string());
    assert_ne!(first.commitment, second.commitment);
    assert_ne!(first.response, second.response);
    assert_eq!(first.public_key, second.public_key);
}

#[test]
fn concrete_small_modulus_scenario() {
    // p = 23, g = 2, q = 11, secret x = 5, nonce r = 3.
    let params = small_params();
    let y = modpow_u64(2, 5, 23);
    assert_eq!(y, 9);
    let r_comm = modpow_u64(2, 3, 23);
    assert_eq!(r_comm, 8);

    let c_str = derive_challenge(&r_comm.to_string(), &y.to_string(), "abcdef", &params);
    let c: u64 = c_str.parse().expect("challenge is a decimal string");
    assert!(c < 11);

    // Cross-check the challenge against an independent SHA-256 run
    // over the same concatenation, reduced byte-by-byte modulo q.
    let digest = {
        let mut h = <sha2::Sha256 as sha2::Digest>::new();
        sha2::Digest::update(&mut h, "89abcdef".as_bytes());
        sha2::Digest::finalize(h)
    };
    let mut reduced: u64 = 0;
    for byte in digest {
        reduced = (reduced * 256 + byte as u64) % 11;
    }
    assert_eq!(c, reduced);

    let s_str = response_scalar("3", &c_str, "5", &params);
    let s: u64 = s_str.parse().expect("response is a decimal string");
    assert_eq!(s, (3 + 5 * c) % 11);

    // The verification equation holds: g^s == R * Y^c (mod p).
    assert_eq!(modpow_u64(2, s, 23), r_comm * modpow_u64(y, c, 23) % 23);

    let record = Proof {
        public_key: y.to_string(),
        commitment: r_comm.to_string(),
        response: s_str,
        geohash: "abcdef".to_string(),
    };
    assert!(SchnorrVerifier::verify_proof(&params, &record));
}

#[test]
fn malformed_fields_fail_closed() {
    let params = small_params();
    let bad = |pk: &str, comm: &str, resp: &str| {
        let record = Proof {
            public_key: pk.to_string(),
            commitment: comm.to_string(),
            response: resp.to_string(),
            geohash: "abcdef".to_string(),
        };
        SchnorrVerifier::verify_proof(&params, &record)
    };
    assert!(!bad("", "8", "7"));
    assert!(!bad("9", "8x", "7"));
    assert!(!bad("9", "8", "-7"));
    assert!(!bad("9 ", "8", "7"));
    assert!(!bad("9", "8", "7.0"));
}

#[test]
fn leading_zeros_parse_to_same_proof() {
    // The verifier parses fields by value: leading zeros change
    // nothing, because the challenge is recomputed from the canonical
    // encodings of the parsed values.
    let params = small_params();
    let prover = SchnorrProver::new(params.duplicate(), "5".to_string());
    let proof = prover.generate_proof("abcdef".to_string());
    let padded = Proof {
        public_key: format!("000{}", proof.public_key),
        commitment: format!("0{}", proof.commitment),
        response: format!("00{}", proof.response),
        geohash: proof.geohash.clone(),
    };
    assert!(SchnorrVerifier::verify_proof(&params, &padded));
}
