use solcore::errors::AppError;
use solcore::price_service::{batch_ids, coingecko_price_url, jupiter_price_url};
use solcore::response::error_response;
use solcore::text::{i64_to_string, parse_i64, parse_u64, str_contains, str_eq, to_hex_lower, u64_to_string};

#[test]
fn decimal_rendering_is_exact() {
    assert_eq!(u64_to_string(0), "0");
    assert_eq!(u64_to_string(90), "90");
    assert_eq!(u64_to_string(u64::MAX), "18446744073709551615");
    assert_eq!(i64_to_string(-5), "-5");
    assert_eq!(i64_to_string(i64::MIN), "-9223372036854775808");
    assert_eq!(i64_to_string(1700000000), "1700000000");
}

#[test]
fn decimal_parsing_matches_std() {
    for s in ["0", "+42", "18446744073709551615", "18446744073709551616", "", "1x", "x1", "-1"] {
        assert_eq!(parse_u64(s), s.parse::<u64>().ok(), "u64 case {:?}", s);
    }
    for s in ["0", "-1", "+7", "-9223372036854775808", "-9223372036854775809",
              "9223372036854775807", "9223372036854775808", "", "-", "--3"] {
        assert_eq!(parse_i64(s), s.parse::<i64>().ok(), "i64 case {:?}", s);
    }
}

#[test]
fn render_then_parse_round_trips() {
    for n in [0i64, 1, -1, 300, i64::MIN, i64::MAX, 1700000000] {
        assert_eq!(parse_i64(&i64_to_string(n)), Some(n));
    }
}

#[test]
fn hex_rendering_is_lower_case() {
    assert_eq!(to_hex_lower(&[0xbe, 0xef, 0x00]), "beef00");
    assert_eq!(to_hex_lower(&[]), "");
}

#[test]
fn substring_search() {
    assert!(str_contains("hello world", "lo wo"));
    assert!(str_contains("hello", ""));
    assert!(!str_contains("hello", "world"));
    assert!(!str_contains("ab", "abc"));
    assert!(str_eq("same", "same"));
    assert!(!str_eq("same", "sane"));
}

#[test]
fn batches_respect_the_source_limit() {
    let ids: Vec<String> = ["a", "b", "c", "d", "e"].iter().map(|s| s.to_string()).collect();
    assert_eq!(batch_ids(&ids, 2), vec!["a,b", "c,d", "e"]);
    assert_eq!(batch_ids(&ids, 100), vec!["a,b,c,d,e"]);
    assert!(batch_ids(&Vec::new(), 100).is_empty());
}

#[test]
fn feed_urls_are_exact() {
    assert_eq!(jupiter_price_url("m1,m2"), "https://price.jup.ag/v4/price?ids=m1,m2");
    assert_eq!(
        coingecko_price_url("m1,m2"),
        "https://api.coingecko.com/api/v3/simple/price?ids=m1,m2&vs_currencies=usd&include_24hr_change=true&include_market_cap=true&include_24hr_vol=true"
    );
}

#[test]
fn errors_map_to_coarse_categories() {
    let up = error_response(&AppError::BlockchainError("node unreachable".to_string()));
    assert_eq!(up.code, 502);
    assert_eq!(up.message, "Blockchain error: node unreachable");
    let bad = error_response(&AppError::ValidationError("bad key".to_string()));
    assert_eq!(bad.code, 400);
    assert_eq!(bad.message, "Validation error: bad key");
    let off = error_response(&AppError::NotEnabled);
    assert_eq!(off.code, 503);
    assert_eq!(AppError::NotEnabled.message(), "blockchain services are not enabled");
}
