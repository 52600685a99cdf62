use solcore::price_service::{PriceCache, PriceData};

fn record(mint: &str, price: i64, last_updated: i64) -> PriceData {
    PriceData {
        mint: mint.to_string(),
        price_usd: price,
        price_change_24h: 0,
        volume_24h: 0,
        market_cap: 0,
        last_updated,
    }
}

#[test]
fn fresh_record_is_served_and_stale_is_not() {
    let t0: i64 = 1_700_000_000;
    let mut cache = PriceCache::new();
    cache.update_price(record("MINT1", 42, t0));
    let hit = cache.get_cached_price("MINT1", t0 + 299).unwrap();
    assert_eq!(hit.price_usd, 42);
    assert!(cache.get_cached_price("MINT1", t0 + 300).is_none());
    assert!(cache.get_cached_price("ABSENT", t0).is_none());
}

#[test]
fn update_overwrites_wholesale() {
    let t0: i64 = 1_700_000_000;
    let mut cache = PriceCache::new();
    cache.update_price(record("MINT1", 42, t0));
    cache.update_price(record("MINT1", 99, t0 + 10));
    assert_eq!(cache.entries.len(), 1);
    let hit = cache.get_cached_price("MINT1", t0 + 10).unwrap();
    assert_eq!(hit.price_usd, 99);
    assert_eq!(hit.last_updated, t0 + 10);
}

#[test]
fn second_batch_inside_window_needs_no_fetch() {
    let t0: i64 = 1_700_000_000;
    let mints = vec!["MINT1".to_string(), "MINT2".to_string()];
    let mut cache = PriceCache::new();
    // First call: everything is missing, so one batched fetch is due.
    let missing = cache.stale_or_missing(&mints, t0);
    assert_eq!(missing, mints);
    // The fetch returns both records; fold them in.
    cache.apply_fetch_results(&vec![record("MINT1", 1, t0), record("MINT2", 2, t0)]);
    // Second call within five minutes: nothing to fetch.
    let missing_again = cache.stale_or_missing(&mints, t0 + 200);
    assert!(missing_again.is_empty());
    let served = cache.fresh_results(&mints, t0 + 200);
    assert_eq!(served.len(), 2);
    assert_eq!(served[0].mint, "MINT1");
    assert_eq!(served[1].mint, "MINT2");
}

#[test]
fn partial_source_response_omits_missing_ids() {
    let t0: i64 = 1_700_000_000;
    let mints = vec!["MINT1".to_string(), "MINT2".to_string()];
    let mut cache = PriceCache::new();
    let missing = cache.stale_or_missing(&mints, t0);
    assert_eq!(missing.len(), 2);
    // The source answered for MINT1 only; MINT2 is simply absent.
    cache.apply_fetch_results(&vec![record("MINT1", 7, t0)]);
    let served = cache.fresh_results(&mints, t0 + 1);
    assert_eq!(served.len(), 1);
    assert_eq!(served[0].mint, "MINT1");
    assert_eq!(served[0].price_usd, 7);
    // The miss left the cache untouched for MINT2.
    assert!(cache.get_cached_price("MINT2", t0 + 1).is_none());
}

#[test]
fn eviction_removes_old_and_keeps_recent() {
    let now: i64 = 1_700_000_000;
    let mut cache = PriceCache::new();
    cache.update_price(record("OLD1", 1, now - 3601));
    cache.update_price(record("FRESH", 2, now - 10));
    cache.update_price(record("STALE_BUT_KEPT", 3, now - 3599));
    cache.update_price(record("OLD2", 4, now - 100_000));
    cache.cleanup_expired_cache(now);
    assert_eq!(cache.entries.len(), 2);
    assert!(cache.entries.iter().any(|p| p.mint == "FRESH"));
    assert!(cache.entries.iter().any(|p| p.mint == "STALE_BUT_KEPT"));
    // A record past the freshness window but inside the retention horizon
    // stays in the cache yet is not served as fresh.
    assert!(cache.get_cached_price("STALE_BUT_KEPT", now).is_none());
}

#[test]
fn cache_stats_count_fresh_records() {
    let now: i64 = 1_700_000_000;
    let mut cache = PriceCache::new();
    cache.update_price(record("A", 1, now - 10));
    cache.update_price(record("B", 2, now - 299));
    cache.update_price(record("C", 3, now - 301));
    let (total, fresh) = cache.get_cache_stats(now);
    assert_eq!(total, 3);
    assert_eq!(fresh, 2);
}

#[test]
fn duplicate_fetch_results_last_wins() {
    let t0: i64 = 1_700_000_000;
    let mut cache = PriceCache::new();
    cache.apply_fetch_results(&vec![record("M", 1, t0), record("M", 2, t0)]);
    assert_eq!(cache.entries.len(), 1);
    assert_eq!(cache.get_cached_price("M", t0).unwrap().price_usd, 2);
}
