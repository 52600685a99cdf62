use ed25519_dalek::{Signer, SigningKey};
use solcore::wallet_verifier::{
    build_login_challenge, extract_timestamp_from_challenge, SignatureVerificationRequest,
    WalletConnection, WalletType, WalletVerifier,
};

fn keypair(seed: u8) -> (String, SigningKey) {
    let sk = SigningKey::from_bytes(&[seed; 32]);
    let addr = bs58::encode(sk.verifying_key().as_bytes()).into_string();
    (addr, sk)
}

fn request(addr: &str, msg: &str, sig: &str) -> SignatureVerificationRequest {
    SignatureVerificationRequest {
        wallet_address: addr.to_string(),
        message: msg.to_string(),
        signature: sig.to_string(),
    }
}

#[test]
fn valid_signature_verifies() {
    let (addr, sk) = keypair(7);
    let msg = "prove ownership of this wallet";
    let sig = bs58::encode(sk.sign(msg.as_bytes()).to_bytes()).into_string();
    let v = WalletVerifier::new().unwrap();
    let res = v.verify_signature(&request(&addr, msg, &sig)).unwrap();
    assert!(res.is_valid);
    assert_eq!(res.wallet_address, addr);
    assert_eq!(res.message, msg);
    assert!(res.error.is_none());
}

#[test]
fn flipped_message_byte_fails() {
    let (addr, sk) = keypair(7);
    let msg = "prove ownership of this wallet";
    let sig = bs58::encode(sk.sign(msg.as_bytes()).to_bytes()).into_string();
    let v = WalletVerifier::new().unwrap();
    let res = v.verify_signature(&request(&addr, "qrove ownership of this wallet", &sig)).unwrap();
    assert!(!res.is_valid);
}

#[test]
fn flipped_signature_byte_fails() {
    let (addr, sk) = keypair(9);
    let msg = "prove ownership of this wallet";
    let mut sig_bytes = sk.sign(msg.as_bytes()).to_bytes();
    sig_bytes[0] ^= 1;
    let sig = bs58::encode(sig_bytes).into_string();
    let v = WalletVerifier::new().unwrap();
    let res = v.verify_signature(&request(&addr, msg, &sig)).unwrap();
    assert!(!res.is_valid);
}

#[test]
fn wrong_key_fails() {
    let (addr, _) = keypair(7);
    let (_, other) = keypair(8);
    let msg = "prove ownership of this wallet";
    let sig = bs58::encode(other.sign(msg.as_bytes()).to_bytes()).into_string();
    let v = WalletVerifier::new().unwrap();
    let res = v.verify_signature(&request(&addr, msg, &sig)).unwrap();
    assert!(!res.is_valid);
}

#[test]
fn non_base58_address_is_invalid_result() {
    let v = WalletVerifier::new().unwrap();
    let res = v.verify_signature(&request("0OIl-not-base58", "msg", "3x")).unwrap();
    assert!(!res.is_valid);
    let reason = res.error.expect("a reason is given");
    assert!(!reason.is_empty());
}

#[test]
fn short_address_is_invalid_result() {
    let addr = bs58::encode([1u8; 31]).into_string();
    let v = WalletVerifier::new().unwrap();
    let res = v.verify_signature(&request(&addr, "msg", "3x")).unwrap();
    assert!(!res.is_valid);
    assert!(!res.error.unwrap().is_empty());
}

#[test]
fn non_base58_signature_is_invalid_result() {
    let (addr, _) = keypair(7);
    let v = WalletVerifier::new().unwrap();
    let res = v.verify_signature(&request(&addr, "msg", "0OIl")).unwrap();
    assert!(!res.is_valid);
    assert!(!res.error.unwrap().is_empty());
}

#[test]
fn short_signature_is_invalid_result() {
    let (addr, _) = keypair(7);
    let sig = bs58::encode([1u8; 63]).into_string();
    let v = WalletVerifier::new().unwrap();
    let res = v.verify_signature(&request(&addr, "msg", &sig)).unwrap();
    assert!(!res.is_valid);
    assert!(!res.error.unwrap().is_empty());
}

#[test]
fn batch_keeps_order_and_survives_malformed_entries() {
    let (addr, sk) = keypair(7);
    let msg = "batch message";
    let sig = bs58::encode(sk.sign(msg.as_bytes()).to_bytes()).into_string();
    let v = WalletVerifier::new().unwrap();
    let requests = vec![
        request(&addr, msg, &sig),
        request("not-b58-0OIl", msg, &sig),
        request(&addr, "other message", &sig),
    ];
    let results = v.verify_multiple_signatures(&requests).unwrap();
    assert_eq!(results.len(), 3);
    assert!(results[0].is_valid);
    assert!(!results[1].is_valid);
    assert!(!results[2].is_valid);
}

#[test]
fn challenge_embeds_exact_text() {
    let challenge = build_login_challenge("SoMeAddReSs", 1700000000, "abc-def");
    let expected = "请签名此消息以验证您的钱包所有权:\n\n钱包地址: SoMeAddReSs\n时间戳: 1700000000\n随机数: abc-def\n\n此签名仅用于身份验证，不会产生任何费用。";
    assert_eq!(challenge, expected);
}

#[test]
fn challenge_timestamp_extracts() {
    let challenge = build_login_challenge("SoMeAddReSs", 1700000000, "abc-def");
    let ts = extract_timestamp_from_challenge(&challenge).unwrap();
    assert_eq!(ts, "1700000000");
}

#[test]
fn challenge_without_timestamp_extracts_nothing() {
    assert!(extract_timestamp_from_challenge("no timestamp line here\nat all").is_none());
}

#[test]
fn fresh_challenge_with_correct_signature_is_valid() {
    let (addr, sk) = keypair(11);
    let ts: i64 = 1700000000;
    let challenge = build_login_challenge(&addr, ts, "6fa459ea-ee8a-3ca4-894e-db77e160355e");
    let sig = bs58::encode(sk.sign(challenge.as_bytes()).to_bytes()).into_string();
    let v = WalletVerifier::new().unwrap();
    let res = v.verify_login_challenge_at(&addr, &challenge, &sig, ts + 100).unwrap();
    assert!(res.is_valid);
}

#[test]
fn fresh_challenge_with_wrong_signature_is_invalid() {
    let (addr, _) = keypair(11);
    let (_, other) = keypair(12);
    let ts: i64 = 1700000000;
    let challenge = build_login_challenge(&addr, ts, "6fa459ea-ee8a-3ca4-894e-db77e160355e");
    let sig = bs58::encode(other.sign(challenge.as_bytes()).to_bytes()).into_string();
    let v = WalletVerifier::new().unwrap();
    let res = v.verify_login_challenge_at(&addr, &challenge, &sig, ts + 100).unwrap();
    assert!(!res.is_valid);
}

#[test]
fn expired_challenge_is_rejected_despite_correct_signature() {
    let (addr, sk) = keypair(11);
    let ts: i64 = 1700000000;
    let challenge = build_login_challenge(&addr, ts, "6fa459ea-ee8a-3ca4-894e-db77e160355e");
    let sig = bs58::encode(sk.sign(challenge.as_bytes()).to_bytes()).into_string();
    let v = WalletVerifier::new().unwrap();
    let res = v.verify_login_challenge_at(&addr, &challenge, &sig, ts + 301).unwrap();
    assert!(!res.is_valid);
    assert!(!res.error.unwrap().is_empty());
}

#[test]
fn generated_challenge_round_trips_through_login() {
    let (addr, sk) = keypair(13);
    let v = WalletVerifier::new().unwrap();
    let challenge = v.generate_login_challenge(&addr).unwrap();
    assert!(extract_timestamp_from_challenge(&challenge).is_some());
    let sig = bs58::encode(sk.sign(challenge.as_bytes()).to_bytes()).into_string();
    let res = v.verify_login_challenge(&addr, &challenge, &sig).unwrap();
    assert!(res.is_valid);
}

#[test]
fn ownership_checks_report_false_without_rpc() {
    let v = WalletVerifier::new().unwrap();
    assert!(!v.verify_token_ownership("w", "m", 1).unwrap());
    assert!(!v.verify_mint_authority("w", "m").unwrap());
}

#[test]
fn wallet_type_from_user_agent() {
    assert_eq!(WalletType::from_user_agent("Phantom/22.1"), WalletType::Phantom);
    assert_eq!(WalletType::from_user_agent("Mozilla Solflare x"), WalletType::Solflare);
    assert_eq!(WalletType::from_user_agent("the Backpack app"), WalletType::Backpack);
    assert_eq!(
        WalletType::from_user_agent("Mozilla/5.0"),
        WalletType::Other("Mozilla/5.0".to_string())
    );
    assert_eq!(WalletType::from_user_agent("Phantom and Solflare"), WalletType::Phantom);
}

#[test]
fn wallet_connections_track_verification() {
    let mut conn = WalletConnection::new("Addr111".to_string(), WalletType::Phantom);
    assert_eq!(conn.address, "Addr111");
    assert_eq!(conn.connected_at, conn.last_activity);
    assert!(!conn.is_verified);
    conn.mark_verified();
    assert!(conn.is_verified);
    let last = conn.last_activity;
    // More than `timeout` whole minutes after the last activity the
    // connection counts as expired; within them it does not.
    assert!(conn.is_expired(30, last + 31 * 60));
    assert!(!conn.is_expired(30, last + 30 * 60));
    conn.update_activity();
    assert_eq!(conn.address, "Addr111");
}
