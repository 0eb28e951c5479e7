use contract::signer::{AffinePoint, Scalar, SignRequest, SignResult, SignatureError};
use contract::transaction::{build_transfer, Action, SignerPublicKey};
use contract::{
    derivation_path, hash_payload, Contract, TransactionArguments, TransferError, KEY_VERSION,
    OMNI_DEPOSIT,
};
use sha2::{Digest, Sha256};

const ZERO_HASH: &str = "11111111111111111111111111111111";
const ZERO_KEY: &str = "ed25519:11111111111111111111111111111111";

fn sample_signature() -> [u8; 65] {
    let mut sig = [0u8; 65];
    for (i, b) in sig.iter_mut().enumerate() {
        *b = (i as u8).wrapping_mul(37).wrapping_add(11);
    }
    sig[64] = 0x03;
    sig
}

fn answer(big_r: &str, s: &str, recovery_id: u8) -> SignResult {
    SignResult {
        big_r: AffinePoint { affine_point: big_r.to_string() },
        s: Scalar { scalar: s.to_string() },
        recovery_id,
    }
}

fn answer_for(sig: &[u8; 65], recovery_id: u8) -> SignResult {
    let mut r = vec![sig[64]];
    r.extend_from_slice(&sig[..32]);
    answer(&hex::encode(r), &hex::encode(&sig[32..64]), recovery_id)
}

fn string_bytes(s: &str) -> Vec<u8> {
    let mut out = (s.len() as u32).to_le_bytes().to_vec();
    out.extend_from_slice(s.as_bytes());
    out
}

fn expected_transfer_bytes(signer: &str, nonce: u64, receiver: &str, deposit: u128) -> Vec<u8> {
    let mut out = string_bytes(signer);
    out.push(0);
    out.extend_from_slice(&[0u8; 32]);
    out.extend_from_slice(&nonce.to_le_bytes());
    out.extend_from_slice(&string_bytes(receiver));
    out.extend_from_slice(&[0u8; 32]);
    out.extend_from_slice(&1u32.to_le_bytes());
    out.push(3);
    out.extend_from_slice(&deposit.to_le_bytes());
    out
}

fn args(signer: &str, pk: &str, nonce: u64, block_hash: &str) -> TransactionArguments {
    TransactionArguments {
        signer_id: signer.to_string(),
        signer_pk: pk.to_string(),
        nonce,
        block_hash: block_hash.to_string(),
    }
}

#[test]
fn sign_request_keeps_its_fields() {
    let r = SignRequest::new([7u8; 32], "a.near-b.near".to_string(), 3);
    assert_eq!(r.payload, [7u8; 32]);
    assert_eq!(r.path, "a.near-b.near");
    assert_eq!(r.key_version, 3);
}

#[test]
fn derivation_path_joins_caller_and_signer() {
    assert_eq!(derivation_path("bob.near", "alice.near"), "bob.near-alice.near");
    assert_eq!(derivation_path("", ""), "-");
    assert_ne!(
        derivation_path("bob.near", "alice.near"),
        derivation_path("alice.near", "bob.near")
    );
}

#[test]
fn hash_payload_is_sha256() {
    let d = hash_payload(b"abc");
    assert_eq!(
        hex::encode(d),
        "ba7816bf8f01cfea414140de5dae2223b00361a396177a9cb410ff61f20015ad"
    );
    assert_eq!(hash_payload(b"abc"), hash_payload(b"abc"));
}

#[test]
fn deposit_is_a_tenth_of_a_token() {
    assert_eq!(OMNI_DEPOSIT, 100_000_000_000_000_000_000_000u128);
    assert_eq!(KEY_VERSION, 0);
}

#[test]
fn signature_round_trip() {
    let sig = sample_signature();
    match answer_for(&sig, 0).to_signature() {
        Ok(bytes) => assert_eq!(bytes, sig),
        Err(_) => panic!("a well-formed answer was rejected"),
    }
}

#[test]
fn signature_parity_comes_from_big_r_not_recovery_id() {
    let sig = sample_signature();
    for rid in [0u8, 1, 27, 255] {
        match answer_for(&sig, rid).to_signature() {
            Ok(bytes) => assert_eq!(bytes[64], 0x03),
            Err(_) => panic!("a well-formed answer was rejected"),
        }
    }
}

#[test]
fn signature_accepts_upper_case_hex() {
    let sig = sample_signature();
    let a = answer_for(&sig, 0);
    let upper = answer(
        &a.big_r.affine_point.to_uppercase(),
        &a.s.scalar.to_uppercase(),
        0,
    );
    match upper.to_signature() {
        Ok(bytes) => assert_eq!(bytes, sig),
        Err(_) => panic!("upper-case hex was rejected"),
    }
}

#[test]
fn signature_rejects_malformed_hex() {
    let s64 = "11".repeat(32);
    let r66 = format!("02{}", "22".repeat(32));
    let cases = [
        (format!("02{}", "22".repeat(31)), s64.clone()),
        (format!("{}22", r66), s64.clone()),
        (format!("{}2", r66), s64.clone()),
        (r66.clone(), "11".repeat(31)),
        (r66.clone(), "11".repeat(33)),
        (format!("zz{}", "22".repeat(32)), s64.clone()),
        (r66.clone(), format!("{}g1", "11".repeat(31))),
        (String::new(), String::new()),
        (format!("0é{}", "22".repeat(31)), s64.clone()),
    ];
    for (r, s) in cases.iter() {
        assert!(matches!(
            answer(r, s, 0).to_signature(),
            Err(SignatureError::HexDecode)
        ));
    }
}

#[test]
fn build_transfer_encodes_fields_in_order() {
    let tx = match build_transfer("alice.near", ZERO_KEY, 1, ZERO_HASH, "bob.near", 5) {
        Ok(tx) => tx,
        Err(e) => panic!("unexpected error {:?}", e),
    };
    assert_eq!(tx.signer_id, "alice.near");
    assert_eq!(tx.receiver_id, "bob.near");
    assert_eq!(tx.nonce, 1);
    assert_eq!(tx.block_hash, [0u8; 32]);
    assert!(matches!(tx.signer_public_key, SignerPublicKey::Ed25519(k) if k == [0u8; 32]));
    assert_eq!(tx.actions.len(), 1);
    assert!(matches!(tx.actions[0], Action::Transfer { deposit: 5 }));
}

#[test]
fn build_transfer_reads_a_base58_block_hash() {
    let tx = match build_transfer(
        "alice.near",
        "ed25519:6E8sCci9badyRkXb3JoRpBj5p8C6Tw41ELDZoiihKEtp",
        1,
        "4reLvkAWfqk5fsqio1KLudk46cqRz9erQdaHkWZKMJDZ",
        "bob.near",
        1,
    ) {
        Ok(tx) => tx,
        Err(e) => panic!("unexpected error {:?}", e),
    };
    assert_ne!(tx.block_hash, [0u8; 32]);
    assert!(matches!(tx.signer_public_key, SignerPublicKey::Ed25519(_)));
}

#[test]
fn build_transfer_reads_a_secp256k1_key() {
    let key = format!("secp256k1:{}", "1".repeat(64));
    match build_transfer("alice.near", &key, 1, ZERO_HASH, "bob.near", 1) {
        Ok(tx) => assert!(matches!(tx.signer_public_key, SignerPublicKey::Secp256k1(k) if k == [0u8; 64])),
        Err(e) => panic!("unexpected error {:?}", e),
    }
}

#[test]
fn invalid_block_reference_is_rejected() {
    let c = Contract::new("v1.signer".to_string());
    for bad in ["not a hash", "", "0OIl", "1111", "4reLvkAWfqk5fsqio1KLudk46cqRz9erQdaHkWZKMJDZ11"] {
        let r = c.transfer_on_behalf_of(&args("alice.near", ZERO_KEY, 1, bad), "bob.near");
        assert!(matches!(r, Err(TransferError::InvalidBlockReference)));
    }
}

#[test]
fn invalid_public_key_is_rejected() {
    let c = Contract::new("v1.signer".to_string());
    for bad in ["", "ed25519", "ed25519:0OIl", "ed25519:1111", "rsa:11111111111111111111111111111111"] {
        let r = c.transfer_on_behalf_of(&args("alice.near", bad, 1, "not a hash"), "bob.near");
        assert!(matches!(r, Err(TransferError::InvalidPublicKeyEncoding)));
    }
}

#[test]
fn invalid_account_is_rejected() {
    let c = Contract::new("v1.signer".to_string());
    let r = c.transfer_on_behalf_of(&args("Alice.near", ZERO_KEY, 1, ZERO_HASH), "bob.near");
    assert!(matches!(r, Err(TransferError::InvalidAccountId)));
    let r = c.transfer_on_behalf_of(&args("alice.near", ZERO_KEY, 1, ZERO_HASH), "b");
    assert!(matches!(r, Err(TransferError::InvalidAccountId)));
    let r = c.transfer_on_behalf_of(&args("alice..near", ZERO_KEY, 1, ZERO_HASH), "bob.near");
    assert!(matches!(r, Err(TransferError::InvalidAccountId)));
}

#[test]
fn transfer_end_to_end() {
    let c = Contract::new("v1.signer".to_string());
    let pending = match c.transfer_on_behalf_of(&args("alice.near", ZERO_KEY, 1, ZERO_HASH), "bob.near") {
        Ok(p) => p,
        Err(e) => panic!("unexpected error {:?}", e),
    };
    let unsigned = expected_transfer_bytes("alice.near", 1, "bob.near", OMNI_DEPOSIT);
    let digest: [u8; 32] = Sha256::digest(&unsigned).into();
    assert_eq!(pending.request.payload, digest);
    assert_eq!(pending.request.path, "bob.near-alice.near");
    assert_eq!(pending.request.key_version, 0);
    assert_eq!(pending.transaction.receiver_id, "bob.near");
    assert!(matches!(pending.transaction.actions[0], Action::Transfer { deposit: 100_000_000_000_000_000_000_000 }));

    let sig = sample_signature();
    let signed = match c.sign_callback(Ok(answer_for(&sig, 1)), &pending.transaction) {
        Ok(b) => b,
        Err(e) => panic!("unexpected error {:?}", e),
    };
    let mut expected = unsigned.clone();
    expected.push(1);
    expected.extend_from_slice(&sig);
    assert_eq!(signed, expected);
}

#[test]
fn transfer_payload_is_deterministic() {
    let c = Contract::new("v1.signer".to_string());
    let a = args("alice.near", "ed25519:6E8sCci9badyRkXb3JoRpBj5p8C6Tw41ELDZoiihKEtp", 7, "4reLvkAWfqk5fsqio1KLudk46cqRz9erQdaHkWZKMJDZ");
    let p1 = match c.transfer_on_behalf_of(&a, "bob.near") {
        Ok(p) => p,
        Err(e) => panic!("unexpected error {:?}", e),
    };
    let p2 = match c.transfer_on_behalf_of(&a, "bob.near") {
        Ok(p) => p,
        Err(e) => panic!("unexpected error {:?}", e),
    };
    assert_eq!(p1.request.payload, p2.request.payload);
    let p3 = match c.transfer_on_behalf_of(&args("alice.near", "ed25519:6E8sCci9badyRkXb3JoRpBj5p8C6Tw41ELDZoiihKEtp", 8, "4reLvkAWfqk5fsqio1KLudk46cqRz9erQdaHkWZKMJDZ"), "bob.near") {
        Ok(p) => p,
        Err(e) => panic!("unexpected error {:?}", e),
    };
    assert_ne!(p1.request.payload, p3.request.payload);
}

#[test]
fn sign_callback_reports_service_failure() {
    let c = Contract::new("v1.signer".to_string());
    let tx = match build_transfer("alice.near", ZERO_KEY, 1, ZERO_HASH, "bob.near", 1) {
        Ok(tx) => tx,
        Err(e) => panic!("unexpected error {:?}", e),
    };
    let r = c.sign_callback(Err("timeout".to_string()), &tx);
    assert!(matches!(r, Err(TransferError::SigningServiceFailure(ref m)) if m == "timeout"));
    let r = c.sign_callback(Ok(answer("02", "11", 0)), &tx);
    assert!(matches!(r, Err(TransferError::SignatureHexDecode)));
}

#[test]
fn secp256k1_key_is_tagged_one() {
    let key = format!("secp256k1:{}", "1".repeat(64));
    let c = Contract::new("v1.signer".to_string());
    let pending = match c.transfer_on_behalf_of(&args("alice.near", &key, 2, ZERO_HASH), "bob.near") {
        Ok(p) => p,
        Err(e) => panic!("unexpected error {:?}", e),
    };
    let mut unsigned = string_bytes("alice.near");
    unsigned.push(1);
    unsigned.extend_from_slice(&[0u8; 64]);
    unsigned.extend_from_slice(&2u64.to_le_bytes());
    unsigned.extend_from_slice(&string_bytes("bob.near"));
    unsigned.extend_from_slice(&[0u8; 32]);
    unsigned.extend_from_slice(&1u32.to_le_bytes());
    unsigned.push(3);
    unsigned.extend_from_slice(&OMNI_DEPOSIT.to_le_bytes());
    let digest: [u8; 32] = Sha256::digest(&unsigned).into();
    assert_eq!(pending.request.payload, digest);
}
