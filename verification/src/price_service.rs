//! The price aggregation cache: freshness policy, batch partitioning and
//! eviction.
//!
//! The cache itself is pure state; fetching from the external price feeds
//! happens outside the library, which hands fetched records back in.  A
//! record is served from cache while it is younger than 5 minutes and
//! evicted outright once older than 1 hour.

use vstd::prelude::*;
use crate::text::str_eq;

verus! {

/// Seconds a cached record is served without refetching.
pub const FRESHNESS_WINDOW_SECONDS: i64 = 300;

/// Seconds after which a cached record is evicted outright.
pub const RETENTION_HORIZON_SECONDS: i64 = 3600;

/// A price record for one asset identifier.  The monetary figures are
/// carried as fixed-point integers (micro-units), converted at the
/// boundary that talks to the feeds; `last_updated` is a Unix timestamp
/// in seconds, refreshed only by a successful fetch.
#[derive(Debug, Clone)]
pub struct PriceData {
    pub mint: String,
    pub price_usd: i64,
    pub price_change_24h: i64,
    pub volume_24h: i64,
    pub market_cap: i64,
    pub last_updated: i64,
}

/// Two records that carry the same data.
pub open spec fn spec_price_eq(a: PriceData, b: PriceData) -> bool {
    &&& a.mint@ == b.mint@
    &&& a.price_usd == b.price_usd
    &&& a.price_change_24h == b.price_change_24h
    &&& a.volume_24h == b.volume_24h
    &&& a.market_cap == b.market_cap
    &&& a.last_updated == b.last_updated
}

/// A record is fresh at `now` while younger than the freshness window.
pub open spec fn spec_fresh_at(p: PriceData, now: int) -> bool {
    now - p.last_updated < FRESHNESS_WINDOW_SECONDS
}

/// A record is retained at `now` while younger than the retention
/// horizon.
pub open spec fn spec_retained_at(p: PriceData, now: int) -> bool {
    now - p.last_updated < RETENTION_HORIZON_SECONDS
}

/// Clones a record, field for field.
pub fn clone_price(p: &PriceData) -> (r: PriceData)
    ensures
        spec_price_eq(r, *p),
{
    PriceData {
        mint: p.mint.clone(),
        price_usd: p.price_usd,
        price_change_24h: p.price_change_24h,
        volume_24h: p.volume_24h,
        market_cap: p.market_cap,
        last_updated: p.last_updated,
    }
}

/// The in-memory price cache: one record per asset identifier.
pub struct PriceCache {
    pub entries: Vec<PriceData>,
}

impl PriceCache {
    /// Well-formedness: identifiers are unique, so each lookup has one
    /// answer.
    pub open spec fn wf(self) -> bool {
        forall|i: int, j: int|
            0 <= i < j < self.entries@.len() ==> (#[trigger] self.entries@[i]).mint@ != (
            #[trigger] self.entries@[j]).mint@
    }

    pub open spec fn spec_contains(self, mint: Seq<char>) -> bool {
        exists|i: int| 0 <= i < self.entries@.len() && (#[trigger] self.entries@[i]).mint@ == mint
    }

    pub open spec fn spec_idx(self, mint: Seq<char>) -> int {
        choose|i: int| 0 <= i < self.entries@.len() && (#[trigger] self.entries@[i]).mint@ == mint
    }

    /// The record cached for `mint`, if any.
    pub open spec fn spec_lookup(self, mint: Seq<char>) -> Option<PriceData> {
        if self.spec_contains(mint) {
            Some(self.entries@[self.spec_idx(mint)])
        } else {
            None
        }
    }

    /// `mint` is cached and fresh at `now`.
    pub open spec fn spec_has_fresh(self, mint: Seq<char>, now: int) -> bool {
        self.spec_contains(mint) && spec_fresh_at(self.entries@[self.spec_idx(mint)], now)
    }

    pub fn new() -> (r: Self)
        ensures
            r.entries@.len() == 0,
            r.wf(),
    {
        PriceCache { entries: Vec::new() }
    }

    fn find_index(&self, mint: &str) -> (r: Option<usize>)
        ensures
            match r {
                Some(i) => i < self.entries@.len() && self.entries@[i as int].mint@ == mint@,
                None => !self.spec_contains(mint@),
            },
    {
        let n = self.entries.len();
        let mut i: usize = 0;
        while i < n
            invariant
                i <= n,
                n == self.entries@.len(),
                forall|k: int| 0 <= k < i ==> (#[trigger] self.entries@[k]).mint@ != mint@,
            decreases n - i,
        {
            if str_eq(self.entries[i].mint.as_str(), mint) {
                return Some(i);
            }
            i = i + 1;
        }
        None
    }

    /// With unique identifiers, any index whose record carries `mint` is
    /// the looked-up one.
    proof fn lemma_idx_unique(self, mint: Seq<char>, i: int)
        requires
            self.wf(),
            0 <= i < self.entries@.len(),
            self.entries@[i].mint@ == mint,
        ensures
            self.spec_contains(mint),
            self.spec_idx(mint) == i,
    {
        assert(self.spec_contains(mint));
        let j = self.spec_idx(mint);
        assert(0 <= j < self.entries@.len() && self.entries@[j].mint@ == mint);
        if i != j {
            assert(self.entries@[i].mint@ != self.entries@[j].mint@);
        }
    }

    /// Serves `mint` from cache: a copy of the record if it is present
    /// and fresh at `now`, and nothing otherwise — a stale record is not
    /// served here.
    pub fn get_cached_price(&self, mint: &str, now: i64) -> (r: Option<PriceData>)
        requires
            self.wf(),
        ensures
            self.spec_has_fresh(mint@, now as int) ==> (r matches Some(p) && spec_price_eq(
                p,
                self.spec_lookup(mint@).unwrap(),
            )),
            !self.spec_has_fresh(mint@, now as int) ==> r is None,
    {
        match self.find_index(mint) {
            Some(i) => {
                proof {
                    self.lemma_idx_unique(mint@, i as int);
                }
                let p = &self.entries[i];
                let age: i128 = (now as i128) - (p.last_updated as i128);
                if age < FRESHNESS_WINDOW_SECONDS as i128 {
                    Some(clone_price(p))
                } else {
                    None
                }
            }
            None => None,
        }
    }

    /// Inserts or overwrites the record for `data`'s identifier; no other
    /// record changes.
    pub fn update_price(&mut self, data: PriceData)
        requires
            old(self).wf(),
        ensures
            final(self).wf(),
            final(self).spec_lookup(data.mint@) == Some(data),
            forall|m: Seq<char>|
                m != data.mint@ ==> #[trigger] final(self).spec_lookup(m) == old(self).spec_lookup(
                    m,
                ),
    {
        let ghost pre = *self;
        match self.find_index(data.mint.as_str()) {
            Some(i) => {
                proof {
                    pre.lemma_idx_unique(data.mint@, i as int);
                }
                self.entries.remove(i);
                self.entries.push(data);
                proof {
                    let post = *self;
                    let n = post.entries@.len() as int;
                    assert(post.entries@[n - 1] == data);
                    assert(forall|k: int|
                        0 <= k < n - 1 ==> #[trigger] post.entries@[k] == (if k < i {
                            pre.entries@[k]
                        } else {
                            pre.entries@[k + 1]
                        }));
                    assert(post.wf());
                    post.lemma_idx_unique(data.mint@, n - 1);
                    assert forall|m: Seq<char>| m != data.mint@ implies #[trigger] post.spec_lookup(
                        m,
                    ) == pre.spec_lookup(m) by {
                        Self::lemma_lookup_shift(pre, post, m, i as int);
                    }
                }
            }
            None => {
                self.entries.push(data);
                proof {
                    let post = *self;
                    let n = post.entries@.len() as int;
                    assert(post.entries@[n - 1] == data);
                    assert(forall|k: int|
                        0 <= k < n - 1 ==> #[trigger] post.entries@[k] == pre.entries@[k]);
                    assert(post.wf());
                    post.lemma_idx_unique(data.mint@, n - 1);
                    assert forall|m: Seq<char>| m != data.mint@ implies #[trigger] post.spec_lookup(
                        m,
                    ) == pre.spec_lookup(m) by {
                        if pre.spec_contains(m) {
                            let k = pre.spec_idx(m);
                            assert(post.entries@[k] == pre.entries@[k]);
                            post.lemma_idx_unique(m, k);
                        } else {
                            if post.spec_contains(m) {
                                let k = post.spec_idx(m);
                                assert(0 <= k < n && post.entries@[k].mint@ == m);
                                assert(k < n - 1);
                                assert(pre.entries@[k].mint@ == m);
                            }
                        }
                    }
                }
            }
        }
    }

    /// Helper for `update_price`: removing index `i` (whose identifier is
    /// being replaced) and appending the replacement leaves every other
    /// identifier's lookup unchanged.
    proof fn lemma_lookup_shift(pre: PriceCache, post: PriceCache, m: Seq<char>, i: int)
        requires
            pre.wf(),
            post.wf(),
            0 <= i < pre.entries@.len(),
            post.entries@.len() == pre.entries@.len(),
            m != pre.entries@[i].mint@,
            forall|k: int|
                0 <= k < post.entries@.len() - 1 ==> #[trigger] post.entries@[k] == (if k < i {
                    pre.entries@[k]
                } else {
                    pre.entries@[k + 1]
                }),
            post.entries@[post.entries@.len() - 1].mint@ == pre.entries@[i].mint@,
        ensures
            post.spec_lookup(m) == pre.spec_lookup(m),
    {
        let n = pre.entries@.len() as int;
        if pre.spec_contains(m) {
            let k = pre.spec_idx(m);
            assert(0 <= k < n && pre.entries@[k].mint@ == m);
            assert(k != i);
            if k < i {
                assert(post.entries@[k] == pre.entries@[k]);
                post.lemma_idx_unique(m, k);
            } else {
                assert(post.entries@[k - 1] == pre.entries@[k]);
                post.lemma_idx_unique(m, k - 1);
            }
        } else {
            if post.spec_contains(m) {
                let k = post.spec_idx(m);
                assert(0 <= k < n && post.entries@[k].mint@ == m);
                if k < n - 1 {
                    if k < i {
                        assert(pre.entries@[k].mint@ == m);
                    } else {
                        assert(pre.entries@[k + 1].mint@ == m);
                    }
                } else {
                    assert(post.entries@[k].mint@ == pre.entries@[i].mint@);
                }
            }
        }
    }

    /// Folds a batch of fetched records into the cache, overwriting
    /// wholesale; on repeated identifiers the last record wins, and
    /// identifiers the batch does not mention keep their old lookup.
    pub fn apply_fetch_results(&mut self, fetched: &Vec<PriceData>)
        requires
            old(self).wf(),
        ensures
            final(self).wf(),
            forall|m: Seq<char>|
                !spec_mint_in(fetched@, m) ==> #[trigger] final(self).spec_lookup(m) == old(
                    self,
                ).spec_lookup(m),
            forall|j: int|
                0 <= j < fetched@.len() && (forall|k: int|
                    j < k < fetched@.len() ==> (#[trigger] fetched@[k]).mint@ != fetched@[j].mint@)
                    ==> (#[trigger] final(self).spec_lookup(fetched@[j].mint@) matches Some(p)
                    && spec_price_eq(p, fetched@[j])),
    {
        let n = fetched.len();
        let mut i: usize = 0;
        while i < n
            invariant
                i <= n,
                n == fetched@.len(),
                self.wf(),
                forall|m: Seq<char>|
                    !spec_mint_in(fetched@.subrange(0, i as int), m) ==> #[trigger] self
                        .spec_lookup(m) == old(self).spec_lookup(m),
                forall|j: int|
                    0 <= j < i && (forall|k: int|
                        j < k < i ==> (#[trigger] fetched@[k]).mint@ != fetched@[j].mint@) ==> (
                    #[trigger] self.spec_lookup(fetched@[j].mint@) matches Some(p)
                        && spec_price_eq(p, fetched@[j])),
            decreases n - i,
        {
            let item = clone_price(&fetched[i]);
            let ghost mid = *self;
            self.update_price(item);
            proof {
                assert(forall|m: Seq<char>|
                    #[trigger] spec_mint_in(fetched@.subrange(0, i as int), m) ==> spec_mint_in(
                        fetched@.subrange(0, i as int + 1),
                        m,
                    ));
                assert(fetched@.subrange(0, i as int + 1)[i as int] == fetched@[i as int]);
                assert(spec_mint_in(fetched@.subrange(0, i as int + 1), fetched@[i as int].mint@));
            }
            i = i + 1;
        }
        proof {
            assert(fetched@.subrange(0, n as int) =~= fetched@);
        }
    }

    /// Removes every record older than the retention horizon at `now`
    /// and keeps every other record.
    pub fn cleanup_expired_cache(&mut self, now: i64)
        requires
            old(self).wf(),
        ensures
            final(self).wf(),
            final(self).entries@ == old(self).entries@.filter(
                |p: PriceData| spec_retained_at(p, now as int),
            ),
    {
        let ghost pred = |p: PriceData| spec_retained_at(p, now as int);
        let ghost orig = self.entries@;
        let total: usize = self.entries.len();
        let mut kept: Vec<PriceData> = Vec::new();
        let mut i: usize = 0;
        proof {
            reveal(Seq::filter);
            assert(orig.subrange(0, 0).filter(pred) =~= Seq::<PriceData>::empty());
        }
        while self.entries.len() > 0
            invariant
                total == orig.len(),
                orig.len() == i + self.entries@.len(),
                self.entries@ == orig.subrange(i as int, orig.len() as int),
                kept@ == orig.subrange(0, i as int).filter(pred),
                pred == (|p: PriceData| spec_retained_at(p, now as int)),
            decreases self.entries@.len(),
        {
            let p = self.entries.remove(0);
            let age: i128 = (now as i128) - (p.last_updated as i128);
            if age < RETENTION_HORIZON_SECONDS as i128 {
                kept.push(p);
            }
            proof {
                reveal(Seq::filter);
                assert(self.entries@ =~= orig.subrange(i as int + 1, orig.len() as int));
                let sub = orig.subrange(0, i as int + 1);
                assert(sub.drop_last() =~= orig.subrange(0, i as int));
                assert(sub.last() == orig[i as int]);
                assert(kept@ == sub.filter(pred));
            }
            i = i + 1;
        }
        proof {
            assert(orig.subrange(0, i as int) =~= orig);
        }
        self.entries = kept;
        proof {
            lemma_filter_wf(orig, pred);
        }
    }

    /// The identifiers in `mints` that are not served by the cache at
    /// `now` — the subset one batched fetch must cover, in request order.
    pub fn stale_or_missing(&self, mints: &Vec<String>, now: i64) -> (r: Vec<String>)
        requires
            self.wf(),
        ensures
            r@.len() == spec_stale_mints(*self, mints@, now as int).len(),
            forall|j: int|
                0 <= j < r@.len() ==> (#[trigger] r@[j])@ == spec_stale_mints(
                    *self,
                    mints@,
                    now as int,
                )[j],
    {
        let n = mints.len();
        let mut out: Vec<String> = Vec::new();
        let mut i: usize = 0;
        while i < n
            invariant
                i <= n,
                n == mints@.len(),
                self.wf(),
                out@.len() == spec_stale_mints(*self, mints@.subrange(0, i as int), now as int).len(),
                forall|j: int|
                    0 <= j < out@.len() ==> (#[trigger] out@[j])@ == spec_stale_mints(
                        *self,
                        mints@.subrange(0, i as int),
                        now as int,
                    )[j],
            decreases n - i,
        {
            let ghost sub = mints@.subrange(0, i as int + 1);
            proof {
                assert(sub.drop_last() =~= mints@.subrange(0, i as int));
                assert(sub.last() == mints@[i as int]);
            }
            let mint = &mints[i];
            let fresh = match self.find_index(mint.as_str()) {
                Some(k) => {
                    proof {
                        self.lemma_idx_unique(mint@, k as int);
                    }
                    let p = &self.entries[k];
                    let age: i128 = (now as i128) - (p.last_updated as i128);
                    age < FRESHNESS_WINDOW_SECONDS as i128
                }
                None => false,
            };
            if !fresh {
                out.push(mint.clone());
            }
            i = i + 1;
        }
        proof {
            assert(mints@.subrange(0, n as int) =~= mints@);
        }
        out
    }

    /// The records served from cache for `mints` at `now`: one copy per
    /// requested identifier that is present and fresh, in request order.
    pub fn fresh_results(&self, mints: &Vec<String>, now: i64) -> (r: Vec<PriceData>)
        requires
            self.wf(),
        ensures
            r@.len() == spec_fresh_entries(*self, mints@, now as int).len(),
            forall|j: int|
                0 <= j < r@.len() ==> spec_price_eq(
                    #[trigger] r@[j],
                    spec_fresh_entries(*self, mints@, now as int)[j],
                ),
    {
        let n = mints.len();
        let mut out: Vec<PriceData> = Vec::new();
        let mut i: usize = 0;
        while i < n
            invariant
                i <= n,
                n == mints@.len(),
                self.wf(),
                out@.len() == spec_fresh_entries(*self, mints@.subrange(0, i as int), now as int).len(),
                forall|j: int|
                    0 <= j < out@.len() ==> spec_price_eq(
                        #[trigger] out@[j],
                        spec_fresh_entries(*self, mints@.subrange(0, i as int), now as int)[j],
                    ),
            decreases n - i,
        {
            let ghost sub = mints@.subrange(0, i as int + 1);
            proof {
                assert(sub.drop_last() =~= mints@.subrange(0, i as int));
                assert(sub.last() == mints@[i as int]);
            }
            match self.get_cached_price(mints[i].as_str(), now) {
                Some(p) => {
                    out.push(p);
                }
                None => {}
            }
            i = i + 1;
        }
        proof {
            assert(mints@.subrange(0, n as int) =~= mints@);
        }
        out
    }

    /// Cache statistics: how many records are held, and how many of them
    /// are fresh at `now`.
    pub fn get_cache_stats(&self, now: i64) -> (r: (usize, usize))
        ensures
            r.0 == self.entries@.len(),
            r.1 == spec_fresh_count(self.entries@, now as int),
    {
        let n = self.entries.len();
        let mut fresh: usize = 0;
        let mut i: usize = 0;
        while i < n
            invariant
                i <= n,
                n == self.entries@.len(),
                fresh == spec_fresh_count(self.entries@.subrange(0, i as int), now as int),
                fresh <= i,
            decreases n - i,
        {
            let ghost sub = self.entries@.subrange(0, i as int + 1);
            proof {
                assert(sub.drop_last() =~= self.entries@.subrange(0, i as int));
                assert(sub.last() == self.entries@[i as int]);
            }
            let p = &self.entries[i];
            let age: i128 = (now as i128) - (p.last_updated as i128);
            if age < FRESHNESS_WINDOW_SECONDS as i128 {
                fresh = fresh + 1;
            }
            i = i + 1;
        }
        proof {
            assert(self.entries@.subrange(0, n as int) =~= self.entries@);
        }
        (n, fresh)
    }
}

/// Some record in `s` carries the identifier `m`.
pub open spec fn spec_mint_in(s: Seq<PriceData>, m: Seq<char>) -> bool {
    exists|i: int| 0 <= i < s.len() && (#[trigger] s[i]).mint@ == m
}

/// The identifiers of `mints` that are not fresh in the cache at `now`,
/// in order.
pub open spec fn spec_stale_mints(c: PriceCache, mints: Seq<String>, now: int) -> Seq<Seq<char>>
    decreases mints.len(),
{
    if mints.len() == 0 {
        Seq::empty()
    } else {
        let rest = spec_stale_mints(c, mints.drop_last(), now);
        if c.spec_has_fresh(mints.last()@, now) {
            rest
        } else {
            rest.push(mints.last()@)
        }
    }
}

/// The cached records for the identifiers of `mints` that are fresh at
/// `now`, in order.
pub open spec fn spec_fresh_entries(c: PriceCache, mints: Seq<String>, now: int) -> Seq<PriceData>
    decreases mints.len(),
{
    if mints.len() == 0 {
        Seq::empty()
    } else {
        let rest = spec_fresh_entries(c, mints.drop_last(), now);
        if c.spec_has_fresh(mints.last()@, now) {
            rest.push(c.spec_lookup(mints.last()@).unwrap())
        } else {
            rest
        }
    }
}

/// How many records of `s` are fresh at `now`.
pub open spec fn spec_fresh_count(s: Seq<PriceData>, now: int) -> int
    decreases s.len(),
{
    if s.len() == 0 {
        0
    } else {
        spec_fresh_count(s.drop_last(), now) + (if spec_fresh_at(s.last(), now) {
            1int
        } else {
            0int
        })
    }
}

/// Filtering a well-formed entry sequence keeps its identifiers unique.
proof fn lemma_filter_wf(s: Seq<PriceData>, pred: spec_fn(PriceData) -> bool)
    requires
        forall|i: int, j: int|
            0 <= i < j < s.len() ==> (#[trigger] s[i]).mint@ != (#[trigger] s[j]).mint@,
    ensures
        forall|i: int, j: int|
            0 <= i < j < s.filter(pred).len() ==> (#[trigger] s.filter(pred)[i]).mint@ != (
            #[trigger] s.filter(pred)[j]).mint@,
    decreases s.len(),
{
    reveal(Seq::filter);
    if s.len() > 0 {
        lemma_filter_wf(s.drop_last(), pred);
        let rest = s.drop_last().filter(pred);
        if pred(s.last()) {
            assert(s.filter(pred) == rest.push(s.last()));
            assert forall|i: int|
                0 <= i < rest.len() implies (#[trigger] rest[i]).mint@ != s.last().mint@ by {
                lemma_filter_member(s.drop_last(), pred, i);
            }
        }
    }
}

/// Every record the filter keeps occurs in the original sequence.
proof fn lemma_filter_member(s: Seq<PriceData>, pred: spec_fn(PriceData) -> bool, i: int)
    requires
        0 <= i < s.filter(pred).len(),
    ensures
        exists|k: int| 0 <= k < s.len() && #[trigger] s[k] == s.filter(pred)[i],
    decreases s.len(),
{
    reveal(Seq::filter);
    if s.len() > 0 {
        let rest = s.drop_last().filter(pred);
        if i < rest.len() {
            lemma_filter_member(s.drop_last(), pred, i);
            let k = choose|k: int| 0 <= k < s.drop_last().len() && #[trigger] s.drop_last()[k]
                == s.drop_last().filter(pred)[i];
            assert(s[k] == s.filter(pred)[i]);
        } else {
            assert(s.filter(pred)[i] == s.last());
            assert(s[s.len() - 1] == s.filter(pred)[i]);
        }
    }
}

// ---------------------------------------------------------------------------
// Batch building for the external feeds
// ---------------------------------------------------------------------------

/// Identifiers per call the primary source accepts.
pub const PRIMARY_BATCH_LIMIT: usize = 100;

/// Identifiers per call the fallback source accepts.
pub const FALLBACK_BATCH_LIMIT: usize = 250;

/// Milliseconds to pause between primary-source batches.
pub const PRIMARY_BATCH_DELAY_MILLIS: u64 = 100;

/// Milliseconds to pause between fallback-source batches.
pub const FALLBACK_BATCH_DELAY_MILLIS: u64 = 1000;

/// The comma-joined text of a batch of identifiers.
pub open spec fn spec_comma_joined(ids: Seq<Seq<char>>) -> Seq<char>
    decreases ids.len(),
{
    if ids.len() == 0 {
        Seq::empty()
    } else if ids.len() == 1 {
        ids[0]
    } else {
        spec_comma_joined(ids.drop_last()) + ","@ + ids.last()
    }
}

/// The views of a sequence of identifiers.
pub open spec fn spec_id_views(ids: Seq<String>) -> Seq<Seq<char>> {
    ids.map_values(|s: String| s@)
}

/// The batches a request is split into: full chunks of `max` identifiers,
/// each comma-joined, in order.
pub open spec fn spec_batched(ids: Seq<Seq<char>>, max: int) -> Seq<Seq<char>>
    decreases ids.len(),
    when max >= 1
{
    if ids.len() == 0 {
        Seq::empty()
    } else if ids.len() <= max {
        seq![spec_comma_joined(ids)]
    } else {
        seq![spec_comma_joined(ids.take(max))] + spec_batched(ids.skip(max), max)
    }
}

/// Joins one chunk of identifiers with commas.
fn comma_join(ids: &Vec<String>, start: usize, end: usize) -> (r: String)
    requires
        start < end <= ids@.len(),
    ensures
        r@ == spec_comma_joined(spec_id_views(ids@.subrange(start as int, end as int))),
{
    let mut out = ids[start].clone();
    let mut i: usize = start + 1;
    while i < end
        invariant
            start < i <= end,
            end <= ids@.len(),
            out@ == spec_comma_joined(spec_id_views(ids@.subrange(start as int, i as int))),
        decreases end - i,
    {
        out.append(",");
        out.append(ids[i].as_str());
        proof {
            reveal_strlit(",");
            let views = spec_id_views(ids@.subrange(start as int, i as int + 1));
            assert(views.drop_last() =~= spec_id_views(ids@.subrange(start as int, i as int)));
            assert(views.last() == ids@[i as int]@);
            assert(views.len() >= 2);
            assert(out@ =~= spec_comma_joined(views));
        }
        i = i + 1;
    }
    out
}

/// Splits a request into comma-joined batches of at most `max`
/// identifiers, keeping the request order.
pub fn batch_ids(ids: &Vec<String>, max: usize) -> (r: Vec<String>)
    requires
        max >= 1,
    ensures
        r@.len() == spec_batched(spec_id_views(ids@), max as int).len(),
        forall|j: int|
            0 <= j < r@.len() ==> (#[trigger] r@[j])@ == spec_batched(
                spec_id_views(ids@),
                max as int,
            )[j],
{
    let ghost full = spec_id_views(ids@);
    let n = ids.len();
    let mut out: Vec<String> = Vec::new();
    let mut i: usize = 0;
    proof {
        assert(ids@.subrange(0, n as int) =~= ids@);
        assert(spec_id_views(ids@.subrange(0, n as int)) =~= full);
        assert(spec_batch_views(out@) =~= Seq::<Seq<char>>::empty());
        assert(spec_batched(full, max as int) =~= spec_batch_views(out@) + spec_batched(
            spec_id_views(ids@.subrange(0, n as int)),
            max as int,
        ));
    }
    while i < n
        invariant
            i <= n,
            n == ids@.len(),
            max >= 1,
            full == spec_id_views(ids@),
            spec_batched(full, max as int) =~= spec_batch_views(out@) + spec_batched(
                spec_id_views(ids@.subrange(i as int, n as int)),
                max as int,
            ),
        decreases n - i,
    {
        let end = if n - i > max {
            i + max
        } else {
            n
        };
        let chunk = comma_join(ids, i, end);
        let ghost pre_out = out@;
        let ghost rest = spec_id_views(ids@.subrange(i as int, n as int));
        out.push(chunk);
        proof {
            let restb = spec_batched(rest, max as int);
            assert(rest.len() == n - i);
            if rest.len() <= max as int {
                assert(spec_id_views(ids@.subrange(i as int, end as int)) =~= rest);
                assert(restb =~= seq![chunk@] + spec_batched(
                    spec_id_views(ids@.subrange(end as int, n as int)),
                    max as int,
                ));
            } else {
                assert(spec_id_views(ids@.subrange(i as int, end as int)) =~= rest.take(
                    max as int,
                ));
                assert(spec_id_views(ids@.subrange(end as int, n as int)) =~= rest.skip(
                    max as int,
                ));
                assert(restb =~= seq![chunk@] + spec_batched(
                    spec_id_views(ids@.subrange(end as int, n as int)),
                    max as int,
                ));
            }
            assert(spec_batch_views(out@) =~= spec_batch_views(pre_out) + seq![chunk@]);
            assert(spec_batched(full, max as int) =~= spec_batch_views(out@) + spec_batched(
                spec_id_views(ids@.subrange(end as int, n as int)),
                max as int,
            ));
        }
        i = end;
    }
    proof {
        assert(spec_id_views(ids@.subrange(n as int, n as int)).len() == 0);
        assert(spec_batched(spec_id_views(ids@.subrange(n as int, n as int)), max as int)
            =~= Seq::<Seq<char>>::empty());
        assert(spec_batched(full, max as int) =~= spec_batch_views(out@));
    }
    out
}

/// The views of a sequence of built batches.
pub open spec fn spec_batch_views(batches: Seq<String>) -> Seq<Seq<char>> {
    batches.map_values(|s: String| s@)
}

/// The primary source's query URL for one comma-joined batch.
pub fn jupiter_price_url(ids: &str) -> (r: String)
    ensures
        r@ == "https://price.jup.ag/v4/price?ids="@ + ids@,
{
    let mut s = String::from_str("https://price.jup.ag/v4/price?ids=");
    s.append(ids);
    s
}

/// The fallback source's query URL for one comma-joined batch.
pub fn coingecko_price_url(ids: &str) -> (r: String)
    ensures
        r@ == "https://api.coingecko.com/api/v3/simple/price?ids="@ + ids@
            + "&vs_currencies=usd&include_24hr_change=true&include_market_cap=true&include_24hr_vol=true"@,
{
    let mut s = String::from_str("https://api.coingecko.com/api/v3/simple/price?ids=");
    s.append(ids);
    s.append(
        "&vs_currencies=usd&include_24hr_change=true&include_market_cap=true&include_24hr_vol=true",
    );
    s
}

// ---------------------------------------------------------------------------
// Laws of the cache
// ---------------------------------------------------------------------------

/// When every requested identifier is fresh in the cache, nothing is
/// stale or missing: a second batched query inside the freshness window
/// triggers no external fetch.
pub proof fn lemma_fresh_batch_needs_no_fetch(c: PriceCache, mints: Seq<String>, now: int)
    requires
        forall|i: int| 0 <= i < mints.len() ==> c.spec_has_fresh((#[trigger] mints[i])@, now),
    ensures
        spec_stale_mints(c, mints, now) == Seq::<Seq<char>>::empty(),
    decreases mints.len(),
{
    if mints.len() > 0 {
        assert(forall|i: int|
            0 <= i < mints.len() - 1 ==> #[trigger] mints.drop_last()[i] == mints[i]);
        lemma_fresh_batch_needs_no_fetch(c, mints.drop_last(), now);
        assert(mints.last() == mints[mints.len() - 1]);
    }
}

/// A record fetched at `t0` is still served from cache at every instant
/// inside the freshness window, so the fetch that stored it is the only
/// one the window needs.
pub proof fn lemma_freshly_stored_is_served(c: PriceCache, mint: Seq<char>, t0: int, now: int)
    requires
        c.spec_lookup(mint) matches Some(p) && p.last_updated == t0,
        0 <= now - t0 < FRESHNESS_WINDOW_SECONDS,
    ensures
        c.spec_has_fresh(mint, now),
{
}

/// An identifier the cache does not hold — because no source ever
/// answered for it — is simply absent from the served results, never an
/// error.
pub proof fn lemma_unanswered_mint_is_omitted(
    c: PriceCache,
    mints: Seq<String>,
    m: Seq<char>,
    now: int,
)
    requires
        !c.spec_contains(m),
    ensures
        forall|j: int|
            0 <= j < spec_fresh_entries(c, mints, now).len() ==> (#[trigger] spec_fresh_entries(
                c,
                mints,
                now,
            )[j]).mint@ != m,
    decreases mints.len(),
{
    if mints.len() > 0 {
        lemma_unanswered_mint_is_omitted(c, mints.drop_last(), m, now);
        let key = mints.last()@;
        let whole = spec_fresh_entries(c, mints, now);
        let rest = spec_fresh_entries(c, mints.drop_last(), now);
        if c.spec_has_fresh(key, now) {
            assert(c.entries@[c.spec_idx(key)].mint@ == key);
            assert(whole == rest.push(c.spec_lookup(key).unwrap()));
            assert(whole[whole.len() - 1].mint@ == key);
            assert(key != m);
            assert(forall|j: int| 0 <= j < rest.len() ==> whole[j] == #[trigger] rest[j]);
        } else {
            assert(whole == rest);
        }
    }
}

/// Eviction keeps exactly the records younger than the retention
/// horizon: everything it keeps was cached and is retained, and every
/// cached record that is retained is kept.
pub proof fn lemma_eviction_membership(s: Seq<PriceData>, kept: Seq<PriceData>, now: int)
    requires
        kept == s.filter(|p: PriceData| spec_retained_at(p, now)),
    ensures
        forall|j: int|
            0 <= j < kept.len() ==> spec_retained_at(#[trigger] kept[j], now) && s.contains(
                kept[j],
            ),
        forall|i: int|
            0 <= i < s.len() && spec_retained_at(#[trigger] s[i], now) ==> kept.contains(s[i]),
{
    let pred = |p: PriceData| spec_retained_at(p, now);
    assert forall|j: int| 0 <= j < kept.len() implies spec_retained_at(#[trigger] kept[j], now)
        && s.contains(kept[j]) by {
        s.lemma_filter_pred(pred, j);
        lemma_filter_member(s, pred, j);
        let k = choose|k: int| 0 <= k < s.len() && #[trigger] s[k] == s.filter(pred)[j];
        assert(s.contains(s[k]));
    }
    assert forall|i: int| 0 <= i < s.len() && spec_retained_at(#[trigger] s[i], now) implies kept
        .contains(s[i]) by {
        s.lemma_filter_contains(pred, i);
    }
}

/// Once a batched fetch at `t0` has answered every requested identifier,
/// a second request for the same identifiers inside the freshness window
/// finds all of them fresh and triggers no further fetch.
pub proof fn lemma_second_call_is_cache_hit(c: PriceCache, mints: Seq<String>, t0: int, now: int)
    requires
        forall|i: int|
            0 <= i < mints.len() ==> ((#[trigger] c.spec_lookup(mints[i]@)) matches Some(p)
                && p.last_updated == t0),
        0 <= now - t0 < FRESHNESS_WINDOW_SECONDS,
    ensures
        spec_stale_mints(c, mints, now) == Seq::<Seq<char>>::empty(),
{
    assert forall|i: int| 0 <= i < mints.len() implies c.spec_has_fresh(
        (#[trigger] mints[i])@,
        now,
    ) by {
        lemma_freshly_stored_is_served(c, mints[i]@, t0, now);
    }
    lemma_fresh_batch_needs_no_fetch(c, mints, now);
}

} // verus!
