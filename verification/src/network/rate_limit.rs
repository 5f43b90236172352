//! Token-bucket rate limiting per caller and request class.
//!
//! Tokens are counted in refill units: one token is `TOKEN_UNIT` units, and a
//! bucket of `n` requests per minute gains `n` units per microsecond, so a
//! full token is regained in `60 s / n` exactly, with integer arithmetic.
use vstd::prelude::*;
use crate::error::{ErrorCode, WcError};
use crate::external::{instant_now, micros_between};
use crate::keyed::{keyed_map, last_of_key, lemma_keyed_absent, lemma_keyed_last, lemma_keyed_push, lemma_keyed_update};
use crate::text::{decimal, join3, spec_decimal, str_eq};

verus! {

/// Request classes, each with its own per-minute limit.
#[derive(Debug, Clone, Copy, PartialEq, Eq, Structural, Hash)]
pub enum RateLimitClass {
    /// Donor heartbeats: 120 per minute.
    DonorHeartbeat,
    /// Job submissions: 10 per minute.
    JobSubmit,
    /// Governance actions: 5 per minute.
    Governance,
    /// Cluster status queries: 30 per minute.
    ClusterStatus,
    /// Administrative actions: 1 per minute.
    AdminAction,
}

/// Requests per minute of a class.
pub open spec fn spec_per_minute(c: RateLimitClass) -> u32 {
    match c {
        RateLimitClass::DonorHeartbeat => 120,
        RateLimitClass::JobSubmit => 10,
        RateLimitClass::Governance => 5,
        RateLimitClass::ClusterStatus => 30,
        RateLimitClass::AdminAction => 1,
    }
}

/// The class's name as written in messages.
pub open spec fn class_name(c: RateLimitClass) -> Seq<char> {
    match c {
        RateLimitClass::DonorHeartbeat => "DonorHeartbeat"@,
        RateLimitClass::JobSubmit => "JobSubmit"@,
        RateLimitClass::Governance => "Governance"@,
        RateLimitClass::ClusterStatus => "ClusterStatus"@,
        RateLimitClass::AdminAction => "AdminAction"@,
    }
}

impl RateLimitClass {
    /// Requests allowed per minute.
    pub fn per_minute(self) -> (r: u32)
        ensures
            r == spec_per_minute(self),
    {
        match self {
            RateLimitClass::DonorHeartbeat => 120,
            RateLimitClass::JobSubmit => 10,
            RateLimitClass::Governance => 5,
            RateLimitClass::ClusterStatus => 30,
            RateLimitClass::AdminAction => 1,
        }
    }

    /// The class's name.
    pub fn name(self) -> (r: &'static str)
        ensures
            r@ == class_name(self),
    {
        match self {
            RateLimitClass::DonorHeartbeat => "DonorHeartbeat",
            RateLimitClass::JobSubmit => "JobSubmit",
            RateLimitClass::Governance => "Governance",
            RateLimitClass::ClusterStatus => "ClusterStatus",
            RateLimitClass::AdminAction => "AdminAction",
        }
    }
}

/// One token, in refill units (one minute in microseconds).
pub const TOKEN_UNIT: u64 = 60_000_000;

/// A bucket as values: tokens held, capacity, refill units per microsecond.
pub type BucketView = (u64, u64, u64);

/// A token bucket.
#[derive(Debug, Clone, Copy)]
pub struct TokenBucket {
    /// Tokens held, in refill units.
    pub tokens: u64,
    /// Capacity, in refill units.
    pub max_tokens: u64,
    /// Refill units gained per microsecond (the per-minute limit).
    pub refill_per_us: u64,
    /// When the bucket was last refilled.
    pub last_refill: std::time::Instant,
}

impl View for TokenBucket {
    type V = BucketView;

    open spec fn view(&self) -> BucketView {
        (self.tokens, self.max_tokens, self.refill_per_us)
    }
}

/// A full bucket for `per_minute` requests per minute.
pub open spec fn fresh_bucket(per_minute: u32) -> BucketView {
    ((per_minute * TOKEN_UNIT) as u64, (per_minute * TOKEN_UNIT) as u64, per_minute as u64)
}

/// Tokens after refilling for `elapsed` microseconds, capped at capacity.
pub open spec fn refilled(b: BucketView, elapsed: u64) -> int {
    let t = b.0 + elapsed * b.2;
    if t < b.1 { t } else { b.1 as int }
}

/// Microseconds until a bucket holding `t` units has a whole token again.
pub open spec fn retry_micros(t: int, rate: u64) -> u64 {
    if rate == 0 {
        u64::MAX
    } else {
        ((TOKEN_UNIT - t - 1) / (rate as int) + 1) as u64
    }
}

/// Refill for `elapsed` microseconds, then take one token if there is one;
/// else report how long until there will be.
pub open spec fn after_consume(b: BucketView, elapsed: u64) -> (BucketView, Result<(), u64>) {
    let t = refilled(b, elapsed);
    if t >= TOKEN_UNIT {
        (((t - TOKEN_UNIT) as u64, b.1, b.2), Ok(()))
    } else {
        ((t as u64, b.1, b.2), Err(retry_micros(t, b.2)))
    }
}

impl TokenBucket {
    /// A full bucket allowing `per_minute` requests per minute.
    pub fn new(per_minute: u32) -> (r: TokenBucket)
        ensures
            r@ == fresh_bucket(per_minute),
    {
        let capacity = (per_minute as u64) * TOKEN_UNIT;
        TokenBucket { tokens: capacity, max_tokens: capacity, refill_per_us: per_minute as u64, last_refill: instant_now() }
    }

    /// Refill for `elapsed_us` microseconds ending at `now`, then take a token;
    /// `Err` gives the microseconds until a token is available.
    pub fn consume_after(&mut self, elapsed_us: u64, now: std::time::Instant) -> (r: Result<(), u64>)
        ensures
            final(self)@ == after_consume(old(self)@, elapsed_us).0,
            r == after_consume(old(self)@, elapsed_us).1,
            final(self).tokens <= final(self).max_tokens,
            final(self).last_refill == now,
    {
        let gained = match elapsed_us.checked_mul(self.refill_per_us) {
            Some(g) => g,
            None => u64::MAX,
        };
        let total = self.tokens.saturating_add(gained);
        let t = if total < self.max_tokens { total } else { self.max_tokens };
        self.last_refill = now;
        if t >= TOKEN_UNIT {
            self.tokens = t - TOKEN_UNIT;
            Ok(())
        } else {
            self.tokens = t;
            if self.refill_per_us == 0 {
                Err(u64::MAX)
            } else {
                Err((TOKEN_UNIT - t - 1) / self.refill_per_us + 1)
            }
        }
    }

    /// Refill for the time since the last refill, then take a token.
    pub fn try_consume(&mut self) -> (r: Result<(), u64>)
        ensures
            exists|e: u64|
                final(self)@ == #[trigger] after_consume(old(self)@, e).0 && r == after_consume(old(self)@, e).1,
            final(self).tokens <= final(self).max_tokens,
    {
        let now = instant_now();
        let elapsed = micros_between(&self.last_refill, &now);
        self.consume_after(elapsed, now)
    }
}

/// An exhausted bucket refuses until a whole token's refill time has passed.
pub proof fn law_exhausted_bucket_waits(b: BucketView, elapsed: u64)
    requires
        b.0 == 0,
        elapsed * b.2 < TOKEN_UNIT,
    ensures
        after_consume(b, elapsed).1 is Err,
{
}

/// An empty bucket admits again once a whole token's refill time has
/// passed: `elapsed` microseconds at `rate` units each make up a token.
pub proof fn law_refilled_bucket_admits(b: BucketView, elapsed: u64)
    requires
        b.0 <= b.1,
        b.1 >= TOKEN_UNIT,
        elapsed * b.2 >= TOKEN_UNIT,
    ensures
        after_consume(b, elapsed).1 is Ok,
{
}

/// A full bucket of a positive rate admits a request, whatever the time.
pub proof fn law_full_bucket_admits(per_minute: u32, elapsed: u64)
    requires
        per_minute >= 1,
    ensures
        after_consume(fresh_bucket(per_minute), elapsed).1 is Ok,
{
    assert(per_minute * TOKEN_UNIT >= TOKEN_UNIT) by (nonlinear_arith)
        requires
            per_minute >= 1,
    ;
}

/// A refused request reports a positive wait.
pub proof fn law_refusal_waits(b: BucketView, elapsed: u64)
    requires
        after_consume(b, elapsed).1 is Err,
    ensures
        after_consume(b, elapsed).1->Err_0 > 0,
{
    let t = refilled(b, elapsed);
    if b.2 > 0 {
        assert((TOKEN_UNIT - t - 1) / (b.2 as int) >= 0) by (nonlinear_arith)
            requires
                TOKEN_UNIT - t >= 1,
                b.2 >= 1,
        ;
        assert((TOKEN_UNIT - t - 1) / (b.2 as int) + 1 <= TOKEN_UNIT) by (nonlinear_arith)
            requires
                TOKEN_UNIT - t >= 1,
                TOKEN_UNIT - t <= TOKEN_UNIT,
                b.2 >= 1,
        ;
    }
}

/// A class of one request per minute admits one request from a full
/// bucket, then refuses any request less than a minute later.
pub proof fn law_one_per_minute(first_elapsed: u64, second_elapsed: u64)
    requires
        second_elapsed < TOKEN_UNIT,
    ensures
        after_consume(fresh_bucket(1), first_elapsed).1 is Ok,
        after_consume(after_consume(fresh_bucket(1), first_elapsed).0, second_elapsed).1 is Err,
{
    assert(fresh_bucket(1) == (TOKEN_UNIT, TOKEN_UNIT, 1u64));
    assert(first_elapsed * 1u64 == first_elapsed);
    assert(second_elapsed * 1u64 == second_elapsed);
    let b1 = after_consume(fresh_bucket(1), first_elapsed).0;
    assert(b1 == (0u64, TOKEN_UNIT, 1u64));
}

/// A full bucket of `per_minute` after `k` back-to-back requests, with no
/// time passing between them.
pub open spec fn drained(per_minute: u32, k: nat) -> BucketView
    decreases k,
{
    if k == 0 {
        fresh_bucket(per_minute)
    } else {
        after_consume(drained(per_minute, (k - 1) as nat), 0).0
    }
}

/// Bursts are capped at the per-minute limit: from a full bucket, with no
/// time passing, the first `per_minute` requests are admitted, each taking
/// one token, and the next one is refused.
pub proof fn law_burst_limit(per_minute: u32, k: nat)
    requires
        k <= per_minute,
    ensures
        drained(per_minute, k).0 == (per_minute - k) * TOKEN_UNIT,
        drained(per_minute, k).1 == per_minute * TOKEN_UNIT,
        drained(per_minute, k).2 == per_minute,
        (after_consume(drained(per_minute, k), 0).1 is Ok) == (k < per_minute),
    decreases k,
{
    assert(per_minute * TOKEN_UNIT <= u32::MAX * TOKEN_UNIT) by (nonlinear_arith);
    if k > 0 {
        law_burst_limit(per_minute, (k - 1) as nat);
        let b = drained(per_minute, (k - 1) as nat);
        assert(0 * b.2 == 0);
    }
    let b = drained(per_minute, k);
    assert(0 * b.2 == 0);
}

/// A refused acquisition.
#[derive(Debug, Clone)]
pub struct RateLimitError {
    /// Microseconds until a request would be admitted.
    pub retry_after_micros: u64,
    /// Human-readable reason.
    pub message: String,
}

/// The refusal message of a class.
pub open spec fn limit_message(c: RateLimitClass) -> Seq<char> {
    "Rate limit exceeded for class "@ + class_name(c) + ": max "@ + spec_decimal(spec_per_minute(c) as nat) + " req/min"@
}

fn limit_text(class: RateLimitClass) -> (r: String)
    ensures
        r@ == limit_message(class),
{
    let n = decimal(class.per_minute() as u64);
    let mut m = join3("Rate limit exceeded for class ", class.name(), ": max ");
    m.append(n.as_str());
    m.append(" req/min");
    m
}

struct BucketEntry {
    caller: String,
    class: RateLimitClass,
    bucket: TokenBucket,
}

/// Key of a bucket: caller and class.
pub type BucketKey = (Seq<char>, RateLimitClass);

spec fn entry_pairs(v: Seq<BucketEntry>) -> Seq<(BucketKey, BucketView)> {
    v.map_values(|e: BucketEntry| ((e.caller@, e.class), e.bucket@))
}

/// Rate limiter: one token bucket per caller and class.
pub struct RateLimiter {
    buckets: Vec<BucketEntry>,
}

impl View for RateLimiter {
    type V = Map<BucketKey, BucketView>;

    closed spec fn view(&self) -> Map<BucketKey, BucketView> {
        keyed_map(entry_pairs(self.buckets@))
    }
}

/// The bucket a key starts from: its current one, or a full one.
pub open spec fn bucket_before(m: Map<BucketKey, BucketView>, key: BucketKey) -> BucketView {
    if m.contains_key(key) { m[key] } else { fresh_bucket(spec_per_minute(key.1)) }
}

impl RateLimiter {
    /// A limiter with no buckets.
    pub fn new() -> (r: RateLimiter)
        ensures
            r@ == Map::<BucketKey, BucketView>::empty(),
    {
        let r = RateLimiter { buckets: Vec::new() };
        assert(entry_pairs(r.buckets@) =~= Seq::<(BucketKey, BucketView)>::empty());
        r
    }

    /// Index of the bucket for a key, creating a full one if there is none.
    fn bucket_index(&mut self, caller_id: &str, class: RateLimitClass) -> (i: usize)
        ensures
            i < final(self).buckets@.len(),
            last_of_key(entry_pairs(final(self).buckets@), i as int),
            entry_pairs(final(self).buckets@)[i as int].0 == (caller_id@, class),
            entry_pairs(final(self).buckets@)[i as int].1 == bucket_before(old(self)@, (caller_id@, class)),
            final(self)@ == old(self)@.insert((caller_id@, class), bucket_before(old(self)@, (caller_id@, class))),
    {
        let ghost pairs = entry_pairs(self.buckets@);
        let ghost key = (caller_id@, class);
        let n = self.buckets.len();
        let mut i: usize = n;
        while i > 0
            invariant
                n == self.buckets@.len(),
                pairs == entry_pairs(self.buckets@),
                key == (caller_id@, class),
                i <= n,
                forall|j: int| i <= j < n ==> #[trigger] pairs[j].0 != key,
            decreases i,
        {
            i = i - 1;
            if self.buckets[i].class == class && str_eq(self.buckets[i].caller.as_str(), caller_id) {
                assert(pairs[i as int].0 == key);
                proof {
                    lemma_keyed_last(pairs, i as int);
                    assert(old(self)@.insert(key, pairs[i as int].1) =~= old(self)@);
                }
                return i;
            }
            assert(pairs[i as int].0 != key);
        }
        proof { lemma_keyed_absent(pairs, key); }
        let entry = BucketEntry {
            caller: String::from_str(caller_id),
            class,
            bucket: TokenBucket::new(class.per_minute()),
        };
        self.buckets.push(entry);
        proof {
            assert(entry_pairs(self.buckets@) =~= pairs.push((key, fresh_bucket(spec_per_minute(class)))));
            lemma_keyed_push(pairs, key, fresh_bucket(spec_per_minute(class)));
        }
        n
    }

    /// Take a token from a caller's bucket of a class, creating a full
    /// bucket on first use.
    fn acquire(&mut self, caller_id: &str, class: RateLimitClass) -> (r: Result<(), u64>)
        ensures
            exists|e: u64|
                {
                    let step = #[trigger] after_consume(bucket_before(old(self)@, (caller_id@, class)), e);
                    final(self)@ == old(self)@.insert((caller_id@, class), step.0) && r == step.1
                },
    {
        let i = self.bucket_index(caller_id, class);
        let ghost pairs = entry_pairs(self.buckets@);
        let ghost mid = self@;
        let mut b = self.buckets[i].bucket;
        let r = b.try_consume();
        let caller = self.buckets[i].caller.clone();
        let ghost e = choose|e: u64| b@ == #[trigger] after_consume(pairs[i as int].1, e).0 && r == after_consume(pairs[i as int].1, e).1;
        self.buckets.set(i, BucketEntry { caller, class, bucket: b });
        proof {
            assert(entry_pairs(self.buckets@) =~= pairs.update(i as int, (pairs[i as int].0, b@)));
            lemma_keyed_update(pairs, i as int, b@);
            assert(self@ =~= old(self)@.insert((caller_id@, class), b@));
        }
        r
    }

    /// Admit or refuse a request of `class` from `caller_id`.
    pub fn check(&mut self, caller_id: &str, class: RateLimitClass) -> (r: Result<(), WcError>)
        ensures
            exists|e: u64|
                {
                    let step = #[trigger] after_consume(bucket_before(old(self)@, (caller_id@, class)), e);
                    final(self)@ == old(self)@.insert((caller_id@, class), step.0) && (r is Ok <==> step.1 is Ok)
                },
            r matches Err(err) ==> err.kind == ErrorCode::RateLimited && err.message@ == limit_message(class),
    {
        match self.acquire(caller_id, class) {
            Ok(()) => Ok(()),
            Err(_) => Err(WcError::new(ErrorCode::RateLimited, limit_text(class))),
        }
    }

    /// Like `check`, with the wait until the next admitted request.
    pub fn try_acquire(&mut self, class: RateLimitClass, key: &str) -> (r: Result<(), RateLimitError>)
        ensures
            exists|e: u64|
                {
                    let step = #[trigger] after_consume(bucket_before(old(self)@, (key@, class)), e);
                    &&& final(self)@ == old(self)@.insert((key@, class), step.0)
                    &&& (r is Ok <==> step.1 is Ok)
                    &&& (r matches Err(err) ==> step.1 == Err::<(), u64>(err.retry_after_micros))
                },
            r matches Err(err) ==> err.message@ == limit_message(class),
    {
        match self.acquire(key, class) {
            Ok(()) => Ok(()),
            Err(wait) => Err(RateLimitError { retry_after_micros: wait, message: limit_text(class) }),
        }
    }

    /// Empty a caller's bucket of a class, as if it had just been drained.
    pub fn exhaust(&mut self, caller_id: &str, class: RateLimitClass)
        ensures
            final(self)@ == old(self)@.insert(
                (caller_id@, class),
                (0u64, bucket_before(old(self)@, (caller_id@, class)).1, bucket_before(old(self)@, (caller_id@, class)).2),
            ),
    {
        let i = self.bucket_index(caller_id, class);
        let ghost pairs = entry_pairs(self.buckets@);
        let mut b = self.buckets[i].bucket;
        b.tokens = 0;
        b.last_refill = instant_now();
        let caller = self.buckets[i].caller.clone();
        self.buckets.set(i, BucketEntry { caller, class, bucket: b });
        proof {
            assert(entry_pairs(self.buckets@) =~= pairs.update(i as int, (pairs[i as int].0, b@)));
            lemma_keyed_update(pairs, i as int, b@);
            assert(self@ =~= old(self)@.insert((caller_id@, class), b@));
        }
    }
}

impl Default for RateLimiter {
    fn default() -> (r: RateLimiter)
        ensures
            r@ == Map::<BucketKey, BucketView>::empty(),
    {
        RateLimiter::new()
    }
}

} // verus!
