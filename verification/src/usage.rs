//! The usage ledger: a sliding 24-hour window of token samples, the rate
//! limits last heard of, and the snapshot that is shown to the outside.
//!
//! The ledger does no I/O and reads no clock: every operation takes the
//! current time as an argument, changes the store in memory and returns the
//! snapshot to publish. Persisting and publishing are the caller's part.

use vstd::prelude::*;

verus! {

/// Length of the sliding window, in milliseconds.
pub const WINDOW_MS: i64 = 86_400_000;

/// Where the total of a snapshot comes from.
#[derive(Clone, Copy, Debug, PartialEq, Eq)]
pub enum UsageSource {
    /// Nothing has been measured.
    Absent,
    /// Samples reported by a running session.
    LiveSession,
    /// A scan of the session logs on disk.
    LogScan,
}

/// One observation of token usage.
#[derive(Clone, Copy, Debug, PartialEq, Eq)]
pub struct UsagePoint {
    pub timestamp_ms: i64,
    pub tokens: i64,
}

/// How much of one quota window is used up.
#[derive(Clone, Copy, Debug, PartialEq, Eq)]
pub struct RateLimitWindow {
    pub used_percent: i64,
    pub window_duration_mins: Option<i64>,
    pub resets_at: Option<i64>,
}

/// The two quota windows of an account. A snapshot is only ever replaced as a
/// whole.
#[derive(Clone, Copy, Debug, PartialEq, Eq)]
pub struct RateLimitSnapshot {
    pub primary: Option<RateLimitWindow>,
    pub secondary: Option<RateLimitWindow>,
}

/// The summary that callers see.
#[derive(Clone, Copy, Debug, PartialEq, Eq)]
pub struct UsageSnapshot {
    pub total_tokens_24h: Option<i64>,
    pub updated_at_ms: Option<i64>,
    pub source: UsageSource,
    pub rate_limits: Option<RateLimitSnapshot>,
}

/// The state of the ledger, as it is persisted.
#[derive(Clone, Debug)]
pub struct UsageStore {
    pub points: Vec<UsagePoint>,
    pub last_snapshot: Option<UsageSnapshot>,
    pub last_rate_limits: Option<RateLimitSnapshot>,
}

/// The mathematical content of a [`UsageStore`].
pub struct Ledger {
    pub points: Seq<UsagePoint>,
    pub last_snapshot: Option<UsageSnapshot>,
    pub last_rate_limits: Option<RateLimitSnapshot>,
}

impl View for UsageStore {
    type V = Ledger;

    open spec fn view(&self) -> Ledger {
        Ledger {
            points: self.points@,
            last_snapshot: self.last_snapshot,
            last_rate_limits: self.last_rate_limits,
        }
    }
}

/// The oldest timestamp that the window ending at `now` still holds.
pub open spec fn window_start(now: i64) -> i64 {
    if now - WINDOW_MS < i64::MIN {
        i64::MIN
    } else {
        (now - WINDOW_MS) as i64
    }
}

/// The points of `points` that are not older than `cutoff`, in their order.
pub open spec fn retained(points: Seq<UsagePoint>, cutoff: i64) -> Seq<UsagePoint> {
    points.filter(|point: UsagePoint| point.timestamp_ms >= cutoff)
}

/// The sum of the tokens of `points`.
pub open spec fn total_tokens(points: Seq<UsagePoint>) -> int
    decreases points.len(),
{
    if points.len() == 0 {
        0
    } else {
        total_tokens(points.drop_last()) + points.last().tokens
    }
}

/// `n`, brought into the range of `i64`.
pub open spec fn saturated(n: int) -> i64 {
    if n > i64::MAX {
        i64::MAX
    } else if n < i64::MIN {
        i64::MIN
    } else {
        n as i64
    }
}

/// Every point counts a positive number of tokens.
pub open spec fn all_positive(points: Seq<UsagePoint>) -> bool {
    forall|i: int| 0 <= i < points.len() ==> (#[trigger] points[i]).tokens > 0
}

/// The snapshot with nothing in it.
pub open spec fn empty_snapshot() -> UsageSnapshot {
    UsageSnapshot {
        total_tokens_24h: None,
        updated_at_ms: None,
        source: UsageSource::Absent,
        rate_limits: None,
    }
}

/// `fresh` where there is one, else `known`.
pub open spec fn fresh_or_known(
    fresh: Option<RateLimitSnapshot>,
    known: Option<RateLimitSnapshot>,
) -> Option<RateLimitSnapshot> {
    if fresh is Some {
        fresh
    } else {
        known
    }
}

impl Ledger {
    /// No point counts zero or fewer tokens, and no remembered total is
    /// negative.
    pub open spec fn wf(self) -> bool {
        &&& all_positive(self.points)
        &&& self.last_snapshot matches Some(snapshot) ==> (snapshot.total_tokens_24h matches Some(
            total,
        ) ==> total >= 0)
    }

    /// The ledger with no samples and nothing remembered.
    pub open spec fn empty() -> Ledger {
        Ledger { points: Seq::empty(), last_snapshot: None, last_rate_limits: None }
    }

    /// The snapshot to show: the last one published, or the empty one.
    pub open spec fn current(self) -> UsageSnapshot {
        match self.last_snapshot {
            Some(snapshot) => snapshot,
            None => empty_snapshot(),
        }
    }

    /// The snapshot of the live samples `points` at `now`.
    pub open spec fn live(
        points: Seq<UsagePoint>,
        now: i64,
        rate_limits: Option<RateLimitSnapshot>,
    ) -> UsageSnapshot {
        UsageSnapshot {
            total_tokens_24h: Some(saturated(total_tokens(points))),
            updated_at_ms: Some(now),
            source: UsageSource::LiveSession,
            rate_limits,
        }
    }

    /// The ledger after a sample of `tokens` was seen at `now`.
    pub open spec fn record_sample(self, now: i64, tokens: i64) -> Ledger {
        if tokens <= 0 {
            self
        } else {
            let points = retained(
                self.points.push(UsagePoint { timestamp_ms: now, tokens }),
                window_start(now),
            );
            Ledger {
                points,
                last_snapshot: Some(Ledger::live(points, now, self.last_rate_limits)),
                last_rate_limits: self.last_rate_limits,
            }
        }
    }

    /// The ledger after `rate_limits` were heard of at `now`.
    pub open spec fn record_rate_limits(self, now: i64, rate_limits: RateLimitSnapshot) -> Ledger {
        let points = retained(self.points, window_start(now));
        let total = if points.len() > 0 {
            Some(saturated(total_tokens(points)))
        } else {
            self.current().total_tokens_24h
        };
        Ledger {
            points,
            last_snapshot: Some(
                UsageSnapshot {
                    total_tokens_24h: total,
                    updated_at_ms: Some(now),
                    source: UsageSource::LiveSession,
                    rate_limits: Some(rate_limits),
                },
            ),
            last_rate_limits: Some(rate_limits),
        }
    }

    /// The ledger after a refresh at `now` that found live samples in the
    /// window, or only dropped the stale ones where it found none.
    pub open spec fn refresh_live(self, now: i64, fresh: Option<RateLimitSnapshot>) -> Ledger {
        let points = retained(self.points, window_start(now));
        if points.len() > 0 {
            Ledger {
                points,
                last_snapshot: Some(
                    Ledger::live(points, now, fresh_or_known(fresh, self.last_rate_limits)),
                ),
                last_rate_limits: fresh_or_known(fresh, self.last_rate_limits),
            }
        } else {
            Ledger { points, ..self }
        }
    }

    /// The snapshot of a refresh at `now` that has no live samples and falls
    /// back on the total `scanned` from the logs, if the scan gave one.
    pub open spec fn fallback(
        self,
        now: i64,
        fresh: Option<RateLimitSnapshot>,
        scanned: Option<i64>,
    ) -> UsageSnapshot {
        match scanned {
            Some(total) => UsageSnapshot {
                total_tokens_24h: Some(total),
                updated_at_ms: Some(now),
                source: UsageSource::LogScan,
                rate_limits: fresh_or_known(fresh, self.last_rate_limits),
            },
            None => UsageSnapshot {
                rate_limits: fresh_or_known(fresh, self.last_rate_limits),
                ..empty_snapshot()
            },
        }
    }

    /// The ledger after a refresh at `now` whose scan of the logs ended with
    /// `scanned`.
    pub open spec fn refresh_scanned(
        self,
        now: i64,
        fresh: Option<RateLimitSnapshot>,
        scanned: Option<i64>,
    ) -> Ledger {
        let points = retained(self.points, window_start(now));
        if points.len() > 0 {
            self.refresh_live(now, fresh)
        } else {
            Ledger {
                points,
                last_snapshot: Some(self.fallback(now, fresh, scanned)),
                last_rate_limits: fresh_or_known(fresh, self.last_rate_limits),
            }
        }
    }
}

/// What a refresh ended with.
#[derive(Clone, Copy, Debug, PartialEq, Eq)]
pub struct RefreshOutcome {
    /// The snapshot to hand to the caller.
    pub snapshot: UsageSnapshot,
    /// Whether the store changed, so that it is to be persisted and the
    /// snapshot published.
    pub published: bool,
}

/// A point that is added at the end is kept at the end, or dropped, as its
/// time says.
proof fn lemma_retained_push(points: Seq<UsagePoint>, point: UsagePoint, cutoff: i64)
    ensures
        retained(points.push(point), cutoff) == if point.timestamp_ms >= cutoff {
            retained(points, cutoff).push(point)
        } else {
            retained(points, cutoff)
        },
{
    reveal(Seq::filter);
    assert(points.push(point).drop_last() == points);
}

/// What is kept lies in the window and was there before; no point is made
/// up, and positive counts stay positive.
proof fn lemma_retained_members(points: Seq<UsagePoint>, cutoff: i64)
    ensures
        forall|i: int|
            0 <= i < retained(points, cutoff).len() ==> {
                &&& (#[trigger] retained(points, cutoff)[i]).timestamp_ms >= cutoff
                &&& points.contains(retained(points, cutoff)[i])
            },
        retained(points, cutoff).len() <= points.len(),
        all_positive(points) ==> all_positive(retained(points, cutoff)),
    decreases points.len(),
{
    reveal(Seq::filter);
    if points.len() > 0 {
        let front = points.drop_last();
        lemma_retained_members(front, cutoff);
        assert(points == front.push(points.last()));
        lemma_retained_push(front, points.last(), cutoff);
        let kept = retained(points, cutoff);
        assert forall|i: int| 0 <= i < kept.len() implies {
            &&& (#[trigger] kept[i]).timestamp_ms >= cutoff
            &&& points.contains(kept[i])
        } by {
            if i < retained(front, cutoff).len() {
                let k = choose|k: int| 0 <= k < front.len() && front[k] == retained(front, cutoff)[i];
                assert(points[k] == kept[i]);
            } else {
                assert(points[points.len() - 1] == kept[i]);
            }
        }
        if all_positive(points) {
            assert forall|i: int| 0 <= i < front.len() implies (#[trigger] front[i]).tokens
                > 0 by {
                assert(front[i] == points[i]);
            }
            assert forall|i: int| 0 <= i < kept.len() implies (#[trigger] kept[i]).tokens > 0 by {
                if i < retained(front, cutoff).len() {
                    assert(kept[i] == retained(front, cutoff)[i]);
                } else {
                    assert(kept[i] == points[points.len() - 1]);
                }
            }
        }
    }
}

/// Points that are all older than the cutoff are all dropped.
proof fn lemma_retained_none(points: Seq<UsagePoint>, cutoff: i64)
    requires
        forall|i: int| 0 <= i < points.len() ==> (#[trigger] points[i]).timestamp_ms < cutoff,
    ensures
        retained(points, cutoff) == Seq::<UsagePoint>::empty(),
    decreases points.len(),
{
    reveal(Seq::filter);
    if points.len() > 0 {
        let front = points.drop_last();
        assert forall|i: int| 0 <= i < front.len() implies (#[trigger] front[i]).timestamp_ms
            < cutoff by {
            assert(front[i] == points[i]);
        }
        lemma_retained_none(front, cutoff);
        assert(points == front.push(points.last()));
        lemma_retained_push(front, points.last(), cutoff);
    }
}

/// A point that is added adds its tokens to the total.
proof fn lemma_total_push(points: Seq<UsagePoint>, point: UsagePoint)
    ensures
        total_tokens(points.push(point)) == total_tokens(points) + point.tokens,
{
    assert(points.push(point).drop_last() == points);
}

/// A total lies between the smallest and the largest that its number of
/// 64-bit summands allows; for positive summands it is positive.
proof fn lemma_total_bounds(points: Seq<UsagePoint>)
    ensures
        points.len() * (i64::MIN as int) <= total_tokens(points) <= points.len() * (
        i64::MAX as int),
        all_positive(points) ==> total_tokens(points) >= points.len(),
    decreases points.len(),
{
    if points.len() > 0 {
        let front = points.drop_last();
        lemma_total_bounds(front);
        if all_positive(points) {
            assert forall|i: int| 0 <= i < front.len() implies (#[trigger] front[i]).tokens
                > 0 by {
                assert(front[i] == points[i]);
            }
            assert(points[points.len() - 1].tokens > 0);
        }
    }
}

/// A delta of zero or less never reaches the ledger: recording it leaves the
/// ledger as it was, points, snapshot and rate limits.
pub proof fn law_noise_is_ignored(ledger: Ledger, now: i64, tokens: i64)
    requires
        tokens <= 0,
    ensures
        ledger.record_sample(now, tokens) == ledger,
{
}

/// A recorded sample is the newest point of the ledger, every point of the
/// ledger lies in the window that ends at the time of recording, and the
/// total published is the sum of exactly these points.
pub proof fn law_sample_is_kept(ledger: Ledger, now: i64, tokens: i64)
    requires
        ledger.wf(),
        tokens > 0,
    ensures
        ({
            let after = ledger.record_sample(now, tokens);
            &&& after.wf()
            &&& after.points == retained(ledger.points, window_start(now)).push(
                UsagePoint { timestamp_ms: now, tokens },
            )
            &&& forall|i: int|
                0 <= i < after.points.len() ==> (#[trigger] after.points[i]).timestamp_ms
                    >= window_start(now)
            &&& after.current().total_tokens_24h == Some(saturated(total_tokens(after.points)))
            &&& total_tokens(after.points) == total_tokens(
                retained(ledger.points, window_start(now)),
            ) + tokens
        }),
{
    let cutoff = window_start(now);
    let point = UsagePoint { timestamp_ms: now, tokens };
    lemma_retained_push(ledger.points, point, cutoff);
    lemma_retained_members(ledger.points, cutoff);
    lemma_retained_members(ledger.points.push(point), cutoff);
    lemma_total_push(retained(ledger.points, cutoff), point);
    lemma_total_bounds(retained(ledger.points, cutoff));
}

/// A sample that is recorded more than 24 hours after another one, with
/// nothing newer in the ledger, pushes the earlier one out: it is then the
/// only point, and the total is its tokens alone.
pub proof fn law_stale_sample_is_pruned(
    ledger: Ledger,
    first: i64,
    first_tokens: i64,
    second: i64,
    second_tokens: i64,
)
    requires
        ledger.wf(),
        forall|i: int|
            0 <= i < ledger.points.len() ==> (#[trigger] ledger.points[i]).timestamp_ms <= first,
        first_tokens > 0,
        second_tokens > 0,
        second - first > WINDOW_MS,
    ensures
        ({
            let after = ledger.record_sample(first, first_tokens).record_sample(
                second,
                second_tokens,
            );
            &&& after.points == seq![UsagePoint { timestamp_ms: second, tokens: second_tokens }]
            &&& after.current().total_tokens_24h == Some(second_tokens)
        }),
{
    let middle = ledger.record_sample(first, first_tokens);
    law_sample_is_kept(ledger, first, first_tokens);
    let cutoff = window_start(second);
    assert forall|i: int| 0 <= i < middle.points.len() implies (#[trigger] middle.points[i]).timestamp_ms
        < cutoff by {
        if i < middle.points.len() - 1 {
            lemma_retained_members(ledger.points, window_start(first));
            let kept = retained(ledger.points, window_start(first));
            assert(middle.points[i] == kept[i]);
            assert(ledger.points.contains(kept[i]));
        }
    }
    lemma_retained_none(middle.points, cutoff);
    law_sample_is_kept(middle, second, second_tokens);
    let only = UsagePoint { timestamp_ms: second, tokens: second_tokens };
    assert(Seq::<UsagePoint>::empty().push(only) == seq![only]);
    assert(total_tokens(Seq::<UsagePoint>::empty()) == 0);
}

/// Rate limits are replaced as a whole: after two recordings the ledger
/// remembers the second snapshot and publishes it, and nothing of the first
/// is left in either.
pub proof fn law_rate_limits_are_replaced(
    ledger: Ledger,
    first_time: i64,
    first: RateLimitSnapshot,
    second_time: i64,
    second: RateLimitSnapshot,
)
    ensures
        ({
            let after = ledger.record_rate_limits(first_time, first).record_rate_limits(
                second_time,
                second,
            );
            &&& after.last_rate_limits == Some(second)
            &&& after.current().rate_limits == Some(second)
        }),
{
}

/// Whatever is recorded, a well-formed ledger stays well formed, and the
/// total that it shows is never negative.
pub proof fn law_totals_are_never_negative(
    ledger: Ledger,
    now: i64,
    tokens: i64,
    rate_limits: RateLimitSnapshot,
    fresh: Option<RateLimitSnapshot>,
    scanned: Option<i64>,
)
    requires
        ledger.wf(),
        scanned matches Some(total) ==> total >= 0,
    ensures
        ledger.record_sample(now, tokens).wf(),
        ledger.record_rate_limits(now, rate_limits).wf(),
        ledger.refresh_live(now, fresh).wf(),
        ledger.refresh_scanned(now, fresh, scanned).wf(),
        ledger.current().total_tokens_24h matches Some(total) ==> total >= 0,
{
    let cutoff = window_start(now);
    lemma_retained_members(ledger.points, cutoff);
    lemma_total_bounds(retained(ledger.points, cutoff));
    if tokens > 0 {
        law_sample_is_kept(ledger, now, tokens);
        lemma_total_bounds(ledger.record_sample(now, tokens).points);
    }
}

/// While samples lie in the window the total shown is their sum; once the
/// window is empty, recording rate limits keeps the total shown before.
pub proof fn law_total_follows_the_window(ledger: Ledger, now: i64, rate_limits: RateLimitSnapshot)
    ensures
        ({
            let after = ledger.record_rate_limits(now, rate_limits);
            &&& after.points == retained(ledger.points, window_start(now))
            &&& after.points.len() > 0 ==> after.current().total_tokens_24h == Some(
                saturated(total_tokens(after.points)),
            )
            &&& after.points.len() == 0 ==> after.current().total_tokens_24h
                == ledger.current().total_tokens_24h
        }),
{
}

/// The oldest timestamp that the window ending at `now` still holds: `now`
/// less 24 hours, or the smallest timestamp there is where that is out of
/// range.
pub fn cutoff_ms(now: i64) -> (cutoff: i64)
    ensures
        cutoff == window_start(now),
        cutoff <= now,
{
    if now < i64::MIN + WINDOW_MS {
        i64::MIN
    } else {
        now - WINDOW_MS
    }
}

/// Drops every point that is older than `cutoff` and keeps the others in
/// their order.
pub fn prune_points(points: &mut Vec<UsagePoint>, cutoff: i64)
    ensures
        final(points)@ == retained(old(points)@, cutoff),
{
    let mut kept: Vec<UsagePoint> = Vec::new();
    let mut i: usize = 0;
    while i < points.len()
        invariant
            i <= points.len(),
            *points == *old(points),
            kept@ == retained(points@.take(i as int), cutoff),
        decreases points.len() - i,
    {
        let point = points[i];
        proof {
            assert(points@.take(i + 1) == points@.take(i as int).push(point));
            lemma_retained_push(points@.take(i as int), point, cutoff);
        }
        if point.timestamp_ms >= cutoff {
            kept.push(point);
        }
        i += 1;
    }
    proof {
        assert(points@.take(i as int) == points@);
    }
    *points = kept;
}

/// The sum of the tokens of `points`, held to the range of `i64` where the
/// true sum leaves it.
pub fn sum_points(points: &[UsagePoint]) -> (total: i64)
    ensures
        total == saturated(total_tokens(points@)),
        all_positive(points@) ==> total >= 0,
{
    let mut sum: i128 = 0;
    let mut i: usize = 0;
    while i < points.len()
        invariant
            i <= points.len(),
            sum == total_tokens(points@.take(i as int)),
        decreases points.len() - i,
    {
        proof {
            lemma_total_bounds(points@.take(i as int));
            assert(points@.take(i + 1) == points@.take(i as int).push(points[i as int]));
            lemma_total_push(points@.take(i as int), points[i as int]);
        }
        sum = sum + points[i].tokens as i128;
        i += 1;
    }
    proof {
        assert(points@.take(i as int) == points@);
        lemma_total_bounds(points@);
    }
    if sum > i64::MAX as i128 {
        i64::MAX
    } else if sum < i64::MIN as i128 {
        i64::MIN
    } else {
        sum as i64
    }
}

/// The sum of two counts, held to the range of `i64` where the true sum
/// leaves it.
pub fn sum_saturated(a: i64, b: i64) -> (sum: i64)
    ensures
        sum == saturated(a + b),
        a >= 0 && b >= 0 ==> sum >= 0,
{
    let wide: i128 = a as i128 + b as i128;
    if wide > i64::MAX as i128 {
        i64::MAX
    } else if wide < i64::MIN as i128 {
        i64::MIN
    } else {
        wide as i64
    }
}

/// The snapshot with nothing in it: no total, no time, no source, no rate
/// limits.
pub fn empty_usage_snapshot() -> (snapshot: UsageSnapshot)
    ensures
        snapshot == empty_snapshot(),
{
    UsageSnapshot {
        total_tokens_24h: None,
        updated_at_ms: None,
        source: UsageSource::Absent,
        rate_limits: None,
    }
}

fn first_of(
    fresh: Option<RateLimitSnapshot>,
    known: Option<RateLimitSnapshot>,
) -> (chosen: Option<RateLimitSnapshot>)
    ensures
        chosen == fresh_or_known(fresh, known),
{
    match fresh {
        Some(_) => fresh,
        None => known,
    }
}

impl Default for UsageStore {
    /// A store with no samples and nothing remembered.
    fn default() -> (store: UsageStore)
        ensures
            store@ == Ledger::empty(),
            store@.wf(),
    {
        UsageStore::new()
    }
}

impl UsageStore {
    /// A store with no samples and nothing remembered.
    pub fn new() -> (store: UsageStore)
        ensures
            store@ == Ledger::empty(),
            store@.wf(),
    {
        UsageStore { points: Vec::new(), last_snapshot: None, last_rate_limits: None }
    }

    /// Whether the store is well formed. A store that was read back from disk
    /// is to be tested with this before it is used.
    pub fn is_valid(&self) -> (valid: bool)
        ensures
            valid == self@.wf(),
    {
        let mut i: usize = 0;
        while i < self.points.len()
            invariant
                i <= self.points.len(),
                forall|k: int| 0 <= k < i ==> (#[trigger] self.points@[k]).tokens > 0,
            decreases self.points.len() - i,
        {
            if self.points[i].tokens <= 0 {
                return false;
            }
            i += 1;
        }
        match self.last_snapshot {
            Some(snapshot) => match snapshot.total_tokens_24h {
                Some(total) => total >= 0,
                None => true,
            },
            None => true,
        }
    }

    /// The snapshot published last, or the empty snapshot if none ever was.
    pub fn current_snapshot(&self) -> (snapshot: UsageSnapshot)
        ensures
            snapshot == self@.current(),
    {
        match self.last_snapshot {
            Some(snapshot) => snapshot,
            None => empty_usage_snapshot(),
        }
    }

    /// Takes in a token delta seen at `now`.
    ///
    /// A delta of zero or less is noise: nothing is recorded and nothing is
    /// to be published. Otherwise the sample is appended, the points that
    /// have left the window are dropped, and the snapshot of what remains is
    /// remembered and returned.
    pub fn record_sample(&mut self, now: i64, tokens: i64) -> (published: Option<UsageSnapshot>)
        requires
            old(self)@.wf(),
        ensures
            final(self)@ == old(self)@.record_sample(now, tokens),
            final(self)@.wf(),
            tokens <= 0 ==> published is None && *final(self) == *old(self),
            tokens > 0 ==> published == final(self)@.last_snapshot && published is Some,
            published matches Some(snapshot) ==> snapshot.total_tokens_24h matches Some(total)
                && total >= tokens,
    {
        if tokens <= 0 {
            return None;
        }
        let cutoff = cutoff_ms(now);
        let point = UsagePoint { timestamp_ms: now, tokens };
        proof {
            lemma_retained_push(self.points@, point, cutoff);
            lemma_retained_members(self.points@, cutoff);
            lemma_retained_members(self.points@.push(point), cutoff);
            lemma_total_push(retained(self.points@, cutoff), point);
            lemma_total_bounds(retained(self.points@, cutoff));
        }
        self.points.push(point);
        prune_points(&mut self.points, cutoff);
        let total = sum_points(self.points.as_slice());
        let snapshot = UsageSnapshot {
            total_tokens_24h: Some(total),
            updated_at_ms: Some(now),
            source: UsageSource::LiveSession,
            rate_limits: self.last_rate_limits,
        };
        self.last_snapshot = Some(snapshot);
        Some(snapshot)
    }

    /// Replaces the rate limits that the store remembers by `rate_limits`,
    /// whole, and publishes them with the total of the samples in the window;
    /// where the window is empty, with the total published before.
    pub fn record_rate_limits(&mut self, now: i64, rate_limits: RateLimitSnapshot) -> (published:
        UsageSnapshot)
        requires
            old(self)@.wf(),
        ensures
            final(self)@ == old(self)@.record_rate_limits(now, rate_limits),
            final(self)@.wf(),
            final(self)@.last_snapshot == Some(published),
            final(self)@.last_rate_limits == Some(rate_limits),
            published.rate_limits == Some(rate_limits),
            published.total_tokens_24h matches Some(total) ==> total >= 0,
    {
        let cutoff = cutoff_ms(now);
        proof {
            lemma_retained_members(self.points@, cutoff);
        }
        prune_points(&mut self.points, cutoff);
        self.last_rate_limits = Some(rate_limits);
        let total = if self.points.len() > 0 {
            Some(sum_points(self.points.as_slice()))
        } else {
            match self.last_snapshot {
                Some(snapshot) => snapshot.total_tokens_24h,
                None => None,
            }
        };
        let snapshot = UsageSnapshot {
            total_tokens_24h: total,
            updated_at_ms: Some(now),
            source: UsageSource::LiveSession,
            rate_limits: Some(rate_limits),
        };
        self.last_snapshot = Some(snapshot);
        snapshot
    }

    /// The first half of a refresh at `now`, with the rate limits `fresh` that
    /// a session or a probe gave, if any did.
    ///
    /// Stale points are dropped. If live samples remain, their snapshot is
    /// remembered and returned, `fresh` replaces the remembered rate limits
    /// where there are any, and the refresh is over. If none remain, nothing
    /// else changes and nothing is returned: the logs are to be scanned.
    pub fn refresh_live(&mut self, now: i64, fresh: Option<RateLimitSnapshot>) -> (published:
        Option<UsageSnapshot>)
        requires
            old(self)@.wf(),
        ensures
            final(self)@ == old(self)@.refresh_live(now, fresh),
            final(self)@.wf(),
            published is Some <==> retained(old(self)@.points, window_start(now)).len() > 0,
            published is Some ==> published == final(self)@.last_snapshot,
            published matches Some(snapshot) ==> snapshot.total_tokens_24h matches Some(total)
                && total > 0,
    {
        let cutoff = cutoff_ms(now);
        proof {
            lemma_retained_members(self.points@, cutoff);
            lemma_total_bounds(retained(self.points@, cutoff));
        }
        prune_points(&mut self.points, cutoff);
        if self.points.len() > 0 {
            let total = sum_points(self.points.as_slice());
            let limits = first_of(fresh, self.last_rate_limits);
            let snapshot = UsageSnapshot {
                total_tokens_24h: Some(total),
                updated_at_ms: Some(now),
                source: UsageSource::LiveSession,
                rate_limits: limits,
            };
            self.last_snapshot = Some(snapshot);
            self.last_rate_limits = limits;
            Some(snapshot)
        } else {
            None
        }
    }

    /// The second half of a refresh at `now`, after the logs were scanned.
    ///
    /// A scan that failed changes nothing: the snapshot published last is
    /// handed back and nothing is to be published. Otherwise live samples
    /// that arrived in the meantime win; else the scanned total is published
    /// as coming from the logs, and where the scan had nothing to read, a
    /// snapshot that holds rate limits only.
    pub fn refresh_scanned(
        &mut self,
        now: i64,
        fresh: Option<RateLimitSnapshot>,
        scan: Result<Option<i64>, String>,
    ) -> (outcome: RefreshOutcome)
        requires
            old(self)@.wf(),
            scan matches Ok(Some(total)) ==> total >= 0,
        ensures
            final(self)@.wf(),
            match scan {
                Ok(scanned) => {
                    &&& final(self)@ == old(self)@.refresh_scanned(now, fresh, scanned)
                    &&& outcome.published
                    &&& final(self)@.last_snapshot == Some(outcome.snapshot)
                },
                Err(_) => {
                    &&& *final(self) == *old(self)
                    &&& !outcome.published
                    &&& outcome.snapshot == old(self)@.current()
                },
            },
            outcome.snapshot.total_tokens_24h matches Some(total) ==> total >= 0,
    {
        let scanned = match scan {
            Ok(scanned) => scanned,
            Err(_) => {
                return RefreshOutcome { snapshot: self.current_snapshot(), published: false };
            },
        };
        match self.refresh_live(now, fresh) {
            Some(snapshot) => RefreshOutcome { snapshot, published: true },
            None => {
                let limits = first_of(fresh, self.last_rate_limits);
                let snapshot = match scanned {
                    Some(total) => UsageSnapshot {
                        total_tokens_24h: Some(total),
                        updated_at_ms: Some(now),
                        source: UsageSource::LogScan,
                        rate_limits: limits,
                    },
                    None => UsageSnapshot {
                        total_tokens_24h: None,
                        updated_at_ms: None,
                        source: UsageSource::Absent,
                        rate_limits: limits,
                    },
                };
                self.last_snapshot = Some(snapshot);
                self.last_rate_limits = limits;
                RefreshOutcome { snapshot, published: true }
            },
        }
    }
}

} // verus!
