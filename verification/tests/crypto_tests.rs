use sha2::Digest;
use solcore::crypto::CryptoUtils;
use solcore::time_utils::{TimePeriod, TimeUtils};

#[test]
fn sha256_matches_reference_digest() {
    assert_eq!(
        CryptoUtils::sha256("abc"),
        "ba7816bf8f01cfea414140de5dae2223b00361a396177a9cb410ff61f20015ad"
    );
    assert_eq!(
        CryptoUtils::sha256(""),
        "e3b0c44298fc1c149afbf4c8996fb92427ae41e4649b934ca495991b7852b855"
    );
}

#[test]
fn password_hash_round_trip() {
    let hash = CryptoUtils::hash_password("hunter2");
    assert_eq!(hash.len(), 64);
    assert!(CryptoUtils::verify_password("hunter2", &hash));
    assert!(!CryptoUtils::verify_password("hunter3", &hash));
    // The salt is part of the hash input.
    let unsalted: String =
        sha2::Sha256::digest("hunter2".as_bytes()).iter().map(|b| format!("{:02x}", b)).collect();
    assert_ne!(hash, unsalted);
}

#[test]
fn invite_code_is_prefix_of_salted_user_digest() {
    let digest: String =
        sha2::Sha256::digest("USER42".as_bytes()).iter().map(|b| format!("{:02x}", b)).collect();
    let expected: String = digest[..8].to_uppercase();
    assert_eq!(CryptoUtils::generate_invite_code(42), expected);
}

#[test]
fn invite_codes_cannot_be_parsed_back() {
    assert!(CryptoUtils::parse_invite_code("ABCDEF01").is_none());
}

#[test]
fn random_strings_are_alphanumeric() {
    let s = CryptoUtils::generate_random_string(16);
    assert_eq!(s.len(), 16);
    assert!(s.chars().all(|c| c.is_ascii_alphanumeric()));
    assert!(CryptoUtils::generate_random_string(0).is_empty());
}

#[test]
fn time_period_conversions() {
    assert_eq!(TimePeriod::OneMinute.to_seconds(), 60);
    assert_eq!(TimePeriod::FiveMinutes.to_seconds(), 300);
    assert_eq!(TimePeriod::OneHour.to_seconds(), 3600);
    assert_eq!(TimePeriod::SixHours.to_seconds(), 21600);
    assert_eq!(TimePeriod::TwentyFourHours.to_seconds(), 86400);
    assert_eq!(TimePeriod::OneMinute.to_string(), "1m");
    assert_eq!(TimePeriod::FiveMinutes.to_string(), "5m");
    assert_eq!(TimePeriod::OneHour.to_string(), "1h");
    assert_eq!(TimePeriod::SixHours.to_string(), "6h");
    assert_eq!(TimePeriod::TwentyFourHours.to_string(), "24h");
}

#[test]
fn time_arithmetic() {
    assert_eq!(TimeUtils::diff_seconds(10, 3), 7);
    assert_eq!(TimeUtils::diff_seconds(3, 10), 7);
    assert!(TimeUtils::is_within_range(5, 1, 10));
    assert!(!TimeUtils::is_within_range(11, 1, 10));
    // The clock wrapper reports a plausible present-day timestamp.
    assert!(TimeUtils::now_timestamp() > 1_600_000_000);
}
