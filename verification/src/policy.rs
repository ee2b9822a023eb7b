//! Batch sealing policies: when to seal the queued transactions into a batch,
//! from the queue length, the wait of the oldest transaction and the arrival rate.
use vstd::prelude::*;
use vstd::string::*;

verus! {

/// An arrival rate: `arrivals` transactions over `window_ms` milliseconds.
#[derive(Debug, Clone, Copy, PartialEq, Eq)]
pub struct ArrivalRate {
    pub arrivals: u64,
    pub window_ms: u64,
}

impl ArrivalRate {
    /// The rate is above `per_second` transactions per second.
    pub open spec fn spec_exceeds(self, per_second: u64) -> bool {
        self.arrivals * 1000 > per_second * self.window_ms
    }

    /// Whether the rate is above `per_second` transactions per second
    /// (compared exactly, without dividing).
    pub fn exceeds(&self, per_second: u64) -> (r: bool)
        ensures
            r == self.spec_exceeds(per_second),
    {
        let a = per_second as u128;
        let b = self.window_ms as u128;
        assert(a * b <= 0xffff_ffff_ffff_ffffu128 * 0xffff_ffff_ffff_ffffu128) by (nonlinear_arith)
            requires a <= 0xffff_ffff_ffff_ffffu128, b <= 0xffff_ffff_ffff_ffffu128;
        (self.arrivals as u128) * 1000 > a * b
    }
}

/// A growth factor `numerator / denominator` of the queue.
#[derive(Debug, Clone, Copy, PartialEq, Eq)]
pub struct GrowthRate {
    pub numerator: u64,
    pub denominator: u64,
}

impl GrowthRate {
    /// The factor is above `k`.
    pub open spec fn spec_exceeds(self, k: u64) -> bool {
        self.numerator > k * self.denominator
    }

    /// Whether the factor is above `k` (compared exactly, without dividing).
    pub fn exceeds(&self, k: u64) -> (r: bool)
        ensures
            r == self.spec_exceeds(k),
    {
        let a = k as u128;
        let b = self.denominator as u128;
        assert(a * b <= 0xffff_ffff_ffff_ffffu128 * 0xffff_ffff_ffff_ffffu128) by (nonlinear_arith)
            requires a <= 0xffff_ffff_ffff_ffffu128, b <= 0xffff_ffff_ffff_ffffu128;
        (self.numerator as u128) > a * b
    }
}

/// Decides when to seal a batch.
pub trait PolicyEngine {
    /// Whether the batch should be sealed now.
    fn should_seal(&self, queue_len: usize, oldest_wait_ms: u64, avg_arrival_rate: ArrivalRate) -> bool;

    /// The policy's name.
    fn name(&self) -> &'static str;

    /// Tells the policy the latency of the last batch.
    fn observe_latency(&mut self, latency_ms: u64) {
    }

    /// Tells the policy how fast the queue grows.
    fn observe_queue_growth(&mut self, rate: GrowthRate) {
    }
}

/// Seals when the queue reaches a count.
#[derive(Debug)]
pub struct FixedCountPolicy {
    threshold: usize,
}

impl FixedCountPolicy {
    pub closed spec fn spec_threshold(&self) -> usize {
        self.threshold
    }

    /// Seals at `threshold` queued transactions.
    pub fn new(threshold: usize) -> (r: Self)
        ensures
            r.spec_threshold() == threshold,
    {
        FixedCountPolicy { threshold }
    }
}

impl PolicyEngine for FixedCountPolicy {
    /// Seals once the queue holds at least the threshold.
    fn should_seal(&self, queue_len: usize, oldest_wait_ms: u64, avg_arrival_rate: ArrivalRate) -> (r: bool)
        ensures
            r == (queue_len >= self.spec_threshold()),
    {
        queue_len >= self.threshold
    }

    fn name(&self) -> (r: &'static str)
        ensures
            r@ == "FixedCount"@,
    {
        "FixedCount"
    }
}

/// Seals when the oldest transaction has waited long enough.
#[derive(Debug)]
pub struct FixedTimePolicy {
    interval_ms: u64,
}

impl FixedTimePolicy {
    pub closed spec fn spec_interval_ms(&self) -> u64 {
        self.interval_ms
    }

    /// Seals after `interval_ms` of waiting.
    pub fn new(interval_ms: u64) -> (r: Self)
        ensures
            r.spec_interval_ms() == interval_ms,
    {
        FixedTimePolicy { interval_ms }
    }
}

impl PolicyEngine for FixedTimePolicy {
    /// Seals a non-empty queue once the oldest wait reaches the interval.
    fn should_seal(&self, queue_len: usize, oldest_wait_ms: u64, avg_arrival_rate: ArrivalRate) -> (r: bool)
        ensures
            r == (queue_len > 0 && oldest_wait_ms >= self.spec_interval_ms()),
    {
        queue_len > 0 && oldest_wait_ms >= self.interval_ms
    }

    fn name(&self) -> (r: &'static str)
        ensures
            r@ == "FixedTime"@,
    {
        "FixedTime"
    }
}

/// Seals on count or time, whichever comes first.
#[derive(Debug)]
pub struct HybridPolicy {
    count_threshold: usize,
    time_threshold_ms: u64,
}

/// The hybrid rule: the count is reached, or a non-empty queue has waited long enough.
pub open spec fn hybrid_seals(count_threshold: usize, time_threshold_ms: u64, queue_len: usize, oldest_wait_ms: u64) -> bool {
    queue_len >= count_threshold || (queue_len > 0 && oldest_wait_ms >= time_threshold_ms)
}

/// The hybrid rule seals once the count threshold is reached, or once a
/// non-empty queue's oldest transaction has waited the time threshold,
/// whichever comes first, and at no other time.
pub proof fn law_hybrid_sealing(count_threshold: usize, time_threshold_ms: u64, queue_len: usize, oldest_wait_ms: u64)
    ensures
        queue_len >= count_threshold ==> hybrid_seals(count_threshold, time_threshold_ms, queue_len, oldest_wait_ms),
        queue_len > 0 && oldest_wait_ms >= time_threshold_ms ==> hybrid_seals(
            count_threshold,
            time_threshold_ms,
            queue_len,
            oldest_wait_ms,
        ),
        queue_len < count_threshold && (queue_len == 0 || oldest_wait_ms < time_threshold_ms) ==> !hybrid_seals(
            count_threshold,
            time_threshold_ms,
            queue_len,
            oldest_wait_ms,
        ),
{
}

impl HybridPolicy {
    pub closed spec fn spec_count_threshold(&self) -> usize {
        self.count_threshold
    }

    pub closed spec fn spec_time_threshold_ms(&self) -> u64 {
        self.time_threshold_ms
    }

    /// Seals at `count_threshold` transactions or after `time_threshold_ms`.
    pub fn new(count_threshold: usize, time_threshold_ms: u64) -> (r: Self)
        ensures
            r.spec_count_threshold() == count_threshold,
            r.spec_time_threshold_ms() == time_threshold_ms,
    {
        HybridPolicy { count_threshold, time_threshold_ms }
    }
}

impl PolicyEngine for HybridPolicy {
    fn should_seal(&self, queue_len: usize, oldest_wait_ms: u64, avg_arrival_rate: ArrivalRate) -> (r: bool)
        ensures
            r == hybrid_seals(self.spec_count_threshold(), self.spec_time_threshold_ms(), queue_len, oldest_wait_ms),
            queue_len >= self.spec_count_threshold() ==> r,
            queue_len > 0 && oldest_wait_ms >= self.spec_time_threshold_ms() ==> r,
            r ==> queue_len >= self.spec_count_threshold() || (queue_len > 0 && oldest_wait_ms
                >= self.spec_time_threshold_ms()),
    {
        queue_len >= self.count_threshold || (queue_len > 0 && oldest_wait_ms >= self.time_threshold_ms)
    }

    fn name(&self) -> (r: &'static str)
        ensures
            r@ == "Hybrid"@,
    {
        "Hybrid"
    }
}

/// A hybrid policy with a fast lane for critical transactions.
#[derive(Debug)]
pub struct PriorityAwarePolicy {
    base_policy: HybridPolicy,
    critical_count_threshold: usize,
}

impl PriorityAwarePolicy {
    pub closed spec fn spec_base(&self) -> HybridPolicy {
        self.base_policy
    }

    pub closed spec fn spec_critical_count_threshold(&self) -> usize {
        self.critical_count_threshold
    }

    /// A hybrid policy on `count_threshold` and `time_threshold_ms` that also
    /// seals at `critical_count_threshold` critical transactions.
    pub fn new(count_threshold: usize, time_threshold_ms: u64, critical_count_threshold: usize) -> (r: Self)
        ensures
            r.spec_base().spec_count_threshold() == count_threshold,
            r.spec_base().spec_time_threshold_ms() == time_threshold_ms,
            r.spec_critical_count_threshold() == critical_count_threshold,
    {
        PriorityAwarePolicy {
            base_policy: HybridPolicy::new(count_threshold, time_threshold_ms),
            critical_count_threshold,
        }
    }

    /// Whether enough critical transactions are waiting to seal now.
    pub fn should_seal_for_critical(&self, critical_count: usize) -> (r: bool)
        ensures
            r == (critical_count >= self.spec_critical_count_threshold()),
    {
        critical_count >= self.critical_count_threshold
    }
}

impl PolicyEngine for PriorityAwarePolicy {
    /// Seals as its hybrid base does.
    fn should_seal(&self, queue_len: usize, oldest_wait_ms: u64, avg_arrival_rate: ArrivalRate) -> (r: bool)
        ensures
            r == hybrid_seals(
                self.spec_base().spec_count_threshold(),
                self.spec_base().spec_time_threshold_ms(),
                queue_len,
                oldest_wait_ms,
            ),
    {
        self.base_policy.should_seal(queue_len, oldest_wait_ms, avg_arrival_rate)
    }

    fn name(&self) -> (r: &'static str)
        ensures
            r@ == "PriorityAware"@,
    {
        "PriorityAware"
    }
}

/// The sealing rule of the adaptive policy once its dynamic threshold is known:
/// nothing is sealed from an empty queue; otherwise seal at the threshold, when
/// the oldest wait reaches the time threshold or the latency budget, or when
/// the arrival rate is above 100 per second and at least `min_count` wait.
pub open spec fn spec_adaptive_should_seal(
    queue_len: usize,
    oldest_wait_ms: u64,
    rate: ArrivalRate,
    dynamic_threshold: usize,
    time_threshold_ms: u64,
    latency_budget_ms: u64,
    min_count: usize,
) -> bool {
    queue_len != 0 && (queue_len >= dynamic_threshold || oldest_wait_ms >= time_threshold_ms
        || oldest_wait_ms >= latency_budget_ms || (rate.spec_exceeds(100) && queue_len >= min_count))
}

/// The adaptive rule seals a non-empty queue as soon as any trigger fires:
/// the dynamic threshold is reached, the oldest transaction has waited the
/// time threshold or the latency budget, or more than 100 transactions per
/// second arrive with at least `min_count` waiting; it seals nothing else.
pub proof fn law_adaptive_sealing(
    queue_len: usize,
    oldest_wait_ms: u64,
    rate: ArrivalRate,
    dynamic_threshold: usize,
    time_threshold_ms: u64,
    latency_budget_ms: u64,
    min_count: usize,
)
    ensures
        ({
            let r = spec_adaptive_should_seal(
                queue_len,
                oldest_wait_ms,
                rate,
                dynamic_threshold,
                time_threshold_ms,
                latency_budget_ms,
                min_count,
            );
            &&& queue_len == 0 ==> !r
            &&& queue_len > 0 && queue_len >= dynamic_threshold ==> r
            &&& queue_len > 0 && oldest_wait_ms >= time_threshold_ms ==> r
            &&& queue_len > 0 && oldest_wait_ms >= latency_budget_ms ==> r
            &&& queue_len > 0 && queue_len >= min_count && rate.arrivals * 1000 > 100 * rate.window_ms ==> r
            &&& r ==> queue_len > 0 && (queue_len >= dynamic_threshold || oldest_wait_ms >= time_threshold_ms
                || oldest_wait_ms >= latency_budget_ms || (queue_len >= min_count && rate.arrivals * 1000 > 100
                * rate.window_ms))
        }),
{
}

/// Applies the adaptive policy's sealing rule for a given dynamic threshold.
pub fn adaptive_should_seal(
    queue_len: usize,
    oldest_wait_ms: u64,
    rate: ArrivalRate,
    dynamic_threshold: usize,
    time_threshold_ms: u64,
    latency_budget_ms: u64,
    min_count: usize,
) -> (r: bool)
    ensures
        r == spec_adaptive_should_seal(
            queue_len,
            oldest_wait_ms,
            rate,
            dynamic_threshold,
            time_threshold_ms,
            latency_budget_ms,
            min_count,
        ),
        queue_len == 0 ==> !r,
        queue_len > 0 && queue_len >= dynamic_threshold ==> r,
        queue_len > 0 && oldest_wait_ms >= time_threshold_ms ==> r,
        queue_len > 0 && oldest_wait_ms >= latency_budget_ms ==> r,
        queue_len > 0 && queue_len >= min_count && rate.arrivals * 1000 > 100 * rate.window_ms ==> r,
        r ==> queue_len > 0 && (queue_len >= dynamic_threshold || oldest_wait_ms >= time_threshold_ms
            || oldest_wait_ms >= latency_budget_ms || (queue_len >= min_count && rate.arrivals * 1000 > 100
            * rate.window_ms)),
{
    proof {
        law_adaptive_sealing(queue_len, oldest_wait_ms, rate, dynamic_threshold, time_threshold_ms, latency_budget_ms, min_count);
    }
    if queue_len == 0 {
        return false;
    }
    if queue_len >= dynamic_threshold {
        return true;
    }
    if oldest_wait_ms >= time_threshold_ms {
        return true;
    }
    if oldest_wait_ms >= latency_budget_ms {
        return true;
    }
    if rate.exceeds(100) && queue_len >= min_count {
        return true;
    }
    false
}

/// The adaptive policy's smoothed latency: 70% previous, 30% new sample.
pub fn latency_ema(previous_ms: u64, sample_ms: u64) -> (r: u64)
    requires
        previous_ms * 7 + sample_ms * 3 <= u64::MAX,
    ensures
        r == (previous_ms * 7 + sample_ms * 3) / 10,
{
    (previous_ms * 7 + sample_ms * 3) / 10
}

/// Which policy a configuration names.
#[derive(Debug, Clone, Copy, PartialEq, Eq)]
pub enum PolicyKind {
    FixedCount,
    FixedTime,
    Hybrid,
    Adaptive,
    PriorityAware,
}

/// The policy an already lowercased name selects; unknown names select Hybrid.
pub open spec fn spec_policy_kind(lower: Seq<char>) -> PolicyKind {
    if lower == "fixedcount"@ || lower == "fixed_count"@ {
        PolicyKind::FixedCount
    } else if lower == "fixedtime"@ || lower == "fixed_time"@ {
        PolicyKind::FixedTime
    } else if lower == "hybrid"@ {
        PolicyKind::Hybrid
    } else if lower == "adaptive"@ {
        PolicyKind::Adaptive
    } else if lower == "priority"@ || lower == "priorityaware"@ {
        PolicyKind::PriorityAware
    } else {
        PolicyKind::Hybrid
    }
}

/// Whether `s` is the text of `lit`.
pub fn is_text(s: &str, lit: &str) -> (r: bool)
    ensures
        r == (s@ == lit@),
{
    let a = s.to_string();
    let b = lit.to_string();
    a.eq(&b)
}

/// The policy an already lowercased name selects.
pub fn policy_kind_for_lowercase(lower: &str) -> (r: PolicyKind)
    ensures
        r == spec_policy_kind(lower@),
{
    if is_text(lower, "fixedcount") || is_text(lower, "fixed_count") {
        PolicyKind::FixedCount
    } else if is_text(lower, "fixedtime") || is_text(lower, "fixed_time") {
        PolicyKind::FixedTime
    } else if is_text(lower, "hybrid") {
        PolicyKind::Hybrid
    } else if is_text(lower, "adaptive") {
        PolicyKind::Adaptive
    } else if is_text(lower, "priority") || is_text(lower, "priorityaware") {
        PolicyKind::PriorityAware
    } else {
        PolicyKind::Hybrid
    }
}

/// The Unicode lowercase mapping of a string.
pub uninterp spec fn lowercase(s: Seq<char>) -> Seq<char>;

/// `str::to_lowercase`: the Unicode lowercase mapping of `s`, a function of
/// `s` alone, named `lowercase(s@)`.
#[verifier::external_body]
pub(crate) fn to_lowercase(s: &str) -> (r: String)
    ensures
        r@ == lowercase(s@),
{
    s.to_lowercase()
}

/// The policy a configured name selects, ignoring case.
pub fn policy_kind_for_name(name: &str) -> (r: PolicyKind)
    ensures
        r == spec_policy_kind(lowercase(name@)),
{
    let lower = to_lowercase(name);
    policy_kind_for_lowercase(lower.as_str())
}

/// Settings from which a policy is built.
#[derive(Debug, Clone)]
pub struct PolicyConfig {
    pub count_threshold: usize,
    pub time_threshold_ms: u64,
    pub latency_budget_ms: u64,
    pub max_batch_size: usize,
    pub critical_threshold: usize,
}

impl Default for PolicyConfig {
    fn default() -> (r: Self)
        ensures
            r.count_threshold == 100,
            r.time_threshold_ms == 500,
            r.latency_budget_ms == 1000,
            r.max_batch_size == 500,
            r.critical_threshold == 5,
    {
        PolicyConfig {
            count_threshold: 100,
            time_threshold_ms: 500,
            latency_budget_ms: 1000,
            max_batch_size: 500,
            critical_threshold: 5,
        }
    }
}

/// Traffic pattern recognised from recent arrivals.
#[derive(Debug, Clone, Copy, PartialEq)]
pub enum TrafficPattern {
    Idle,
    Steady,
    Bursty,
    HighLoad,
}

/// How many recent arrival times the auto policy remembers.
pub const ARRIVAL_HISTORY: usize = 100;

/// `a - b`, or 0 when `b > a`.
pub open spec fn sat_sub(a: u64, b: u64) -> u64 {
    if a >= b { (a - b) as u64 } else { 0 }
}

/// The remembered arrival times in `(lo, hi]`, in buffer order.
pub open spec fn in_window(buf: Seq<u64>, lo: u64, hi: u64) -> Seq<u64>
    decreases buf.len(),
{
    if buf.len() == 0 {
        Seq::empty()
    } else {
        let rest = in_window(buf.drop_last(), lo, hi);
        if lo < buf.last() && buf.last() <= hi {
            rest.push(buf.last())
        } else {
            rest
        }
    }
}

/// The gaps between consecutive times (0 where a time goes backwards).
pub open spec fn gaps(v: Seq<u64>) -> Seq<u64> {
    Seq::new(if v.len() > 0 { (v.len() - 1) as nat } else { 0 }, |i: int| sat_sub(v[i + 1], v[i]))
}

pub open spec fn sum(v: Seq<u64>) -> int
    decreases v.len(),
{
    if v.len() == 0 { 0 } else { sum(v.drop_last()) + v.last() }
}

pub open spec fn sum_sq(v: Seq<u64>) -> int
    decreases v.len(),
{
    if v.len() == 0 { 0 } else { sum_sq(v.drop_last()) + v.last() * v.last() }
}

/// More than one gap, and the population standard deviation of the gaps is
/// above 200 ms: `n * sum(g^2) - sum(g)^2 > 200^2 * n^2`.
pub open spec fn bursty(g: Seq<u64>) -> bool {
    g.len() > 1 && g.len() * sum_sq(g) > sum(g) * sum(g) + 40000 * (g.len() * g.len())
}

/// The pattern seen at `now` from `recent` arrivals in the last second and
/// the remembered arrival times: idle without arrivals in the last second,
/// high load above 100 in the last second, bursty when the gaps of the last
/// five seconds vary widely, steady otherwise.
pub open spec fn classify(buf: Seq<u64>, recent: nat, now: u64) -> TrafficPattern {
    if recent < 1 {
        TrafficPattern::Idle
    } else if recent > 100 {
        TrafficPattern::HighLoad
    } else if bursty(gaps(in_window(buf, sat_sub(now, 5000), now))) {
        TrafficPattern::Bursty
    } else {
        TrafficPattern::Steady
    }
}

/// The count threshold and time limit the auto policy uses for a pattern.
pub open spec fn pattern_settings(p: TrafficPattern, min_batch: usize, max_batch: usize, max_latency_ms: u64) -> (usize, u64) {
    match p {
        TrafficPattern::Idle => (min_batch, 500),
        TrafficPattern::Steady => (((min_batch + max_batch) / 2) as usize, max_latency_ms / 2),
        TrafficPattern::Bursty => (min_batch, 200),
        TrafficPattern::HighLoad => (max_batch, max_latency_ms),
    }
}

/// The settings each pattern calls for: bursty and idle traffic seal at the
/// minimum batch (within 200 ms and 500 ms), high load at the maximum batch
/// within the latency limit, steady traffic halfway between the two batch
/// sizes within half the latency limit.
pub proof fn law_pattern_settings(min_batch: usize, max_batch: usize, max_latency_ms: u64)
    ensures
        pattern_settings(TrafficPattern::Bursty, min_batch, max_batch, max_latency_ms) == (min_batch, 200u64),
        pattern_settings(TrafficPattern::Idle, min_batch, max_batch, max_latency_ms) == (min_batch, 500u64),
        pattern_settings(TrafficPattern::HighLoad, min_batch, max_batch, max_latency_ms) == (
            max_batch,
            max_latency_ms,
        ),
        ({
            let (t, l) = pattern_settings(TrafficPattern::Steady, min_batch, max_batch, max_latency_ms);
            &&& t * 2 <= min_batch + max_batch <= t * 2 + 1
            &&& l * 2 <= max_latency_ms <= l * 2 + 1
        }),
{
}

pub proof fn lemma_in_window_bounds(buf: Seq<u64>, lo: u64, hi: u64)
    ensures
        in_window(buf, lo, hi).len() <= buf.len(),
        forall|i: int| 0 <= i < in_window(buf, lo, hi).len() ==> lo < #[trigger] in_window(buf, lo, hi)[i] <= hi,
    decreases buf.len(),
{
    if buf.len() > 0 {
        lemma_in_window_bounds(buf.drop_last(), lo, hi);
    }
}

fn window(buf: &Vec<u64>, lo: u64, hi: u64) -> (r: Vec<u64>)
    ensures
        r@ == in_window(buf@, lo, hi),
{
    let mut r: Vec<u64> = Vec::new();
    let mut i: usize = 0;
    while i < buf.len()
        invariant
            i <= buf@.len(),
            r@ == in_window(buf@.take(i as int), lo, hi),
        decreases buf@.len() - i,
    {
        assert(buf@.take(i + 1).drop_last() =~= buf@.take(i as int));
        if lo < buf[i] && buf[i] <= hi {
            r.push(buf[i]);
        }
        i = i + 1;
    }
    assert(buf@.take(buf@.len() as int) =~= buf@);
    r
}

proof fn lemma_sums_push(v: Seq<u64>, x: u64)
    ensures
        sum(v.push(x)) == sum(v) + x,
        sum_sq(v.push(x)) == sum_sq(v) + x * x,
{
    assert(v.push(x).drop_last() =~= v);
}

/// Whether the gaps between the times in `w` vary widely.
fn is_bursty(w: &Vec<u64>, lo: u64, hi: u64) -> (r: bool)
    requires
        w@.len() <= 100,
        hi - lo <= 5000,
        forall|i: int| 0 <= i < w@.len() ==> lo < #[trigger] w@[i] <= hi,
    ensures
        r == bursty(gaps(w@)),
{
    if w.len() < 3 {
        return false;
    }
    let ghost g = gaps(w@);
    let n: u64 = (w.len() - 1) as u64;
    let mut total: u64 = 0;
    let mut total_sq: u64 = 0;
    let mut k: usize = 0;
    while k + 1 < w.len()
        invariant
            w@.len() >= 3,
            w@.len() <= 100,
            g == gaps(w@),
            k + 1 <= w@.len(),
            hi - lo <= 5000,
            forall|i: int| 0 <= i < w@.len() ==> lo < #[trigger] w@[i] <= hi,
            total == sum(g.take(k as int)),
            total_sq == sum_sq(g.take(k as int)),
            total <= k * 5000,
            total_sq <= k * 25_000_000,
        decreases w@.len() - k,
    {
        let a = w[k];
        let b = w[k + 1];
        let d: u64 = if b >= a { b - a } else { 0 };
        assert(d <= 5000);
        assert(d * d <= 25_000_000) by (nonlinear_arith) requires d <= 5000;
        proof {
            assert(g.take(k + 1) =~= g.take(k as int).push(d));
            lemma_sums_push(g.take(k as int), d);
        }
        total = total + d;
        total_sq = total_sq + d * d;
        k = k + 1;
    }
    assert(g.take(n as int) =~= g);
    assert(n * total_sq <= 100 * 2_500_000_000) by (nonlinear_arith)
        requires n <= 99, total_sq <= n * 25_000_000;
    assert(total * total <= 500_000 * 500_000) by (nonlinear_arith)
        requires total <= n * 5000, n <= 99;
    assert(n * n <= 10_000) by (nonlinear_arith) requires n <= 99;
    n * total_sq > total * total + 40000 * (n * n)
}

/// Adapts its thresholds to the traffic pattern it detects.
#[derive(Debug)]
pub struct AutoPolicy {
    min_batch: usize,
    max_batch: usize,
    max_latency_ms: u64,
    arrival_times: Vec<u64>,
    arrival_idx: usize,
    last_arrival_ms: u64,
    recent_arrivals: Vec<u64>,
    observed_pattern: TrafficPattern,
    current_threshold: usize,
    current_time_limit_ms: u64,
}

impl AutoPolicy {
    #[verifier::type_invariant]
    spec fn history_well_formed(&self) -> bool {
        &&& self.arrival_times@.len() == ARRIVAL_HISTORY
        &&& self.arrival_idx < ARRIVAL_HISTORY
    }

    pub closed spec fn spec_min_batch(&self) -> usize {
        self.min_batch
    }

    pub closed spec fn spec_max_batch(&self) -> usize {
        self.max_batch
    }

    pub closed spec fn spec_max_latency_ms(&self) -> u64 {
        self.max_latency_ms
    }

    /// The remembered arrival times (a ring buffer).
    pub closed spec fn spec_arrivals(&self) -> Seq<u64> {
        self.arrival_times@
    }

    /// The slot the next arrival is written to.
    pub closed spec fn spec_arrival_idx(&self) -> usize {
        self.arrival_idx
    }

    pub closed spec fn spec_last_arrival_ms(&self) -> u64 {
        self.last_arrival_ms
    }

    /// Every recorded arrival time that was within the last second of the
    /// latest arrival, in arrival order.
    pub closed spec fn spec_recent(&self) -> Seq<u64> {
        self.recent_arrivals@
    }

    pub closed spec fn spec_pattern(&self) -> TrafficPattern {
        self.observed_pattern
    }

    pub closed spec fn spec_threshold(&self) -> usize {
        self.current_threshold
    }

    pub closed spec fn spec_time_limit_ms(&self) -> u64 {
        self.current_time_limit_ms
    }

    /// A policy sealing batches of `min_batch` to `max_batch` within
    /// `max_latency_ms`; it starts idle with no arrivals remembered.
    pub fn new(min_batch: usize, max_batch: usize, max_latency_ms: u64) -> (r: Self)
        ensures
            r.spec_min_batch() == min_batch,
            r.spec_max_batch() == max_batch,
            r.spec_max_latency_ms() == max_latency_ms,
            r.spec_arrivals() == Seq::new(ARRIVAL_HISTORY as nat, |i: int| 0u64),
            r.spec_arrival_idx() == 0,
            r.spec_last_arrival_ms() == 0,
            r.spec_recent().len() == 0,
            r.spec_pattern() == TrafficPattern::Idle,
            r.spec_threshold() == min_batch,
            r.spec_time_limit_ms() == max_latency_ms,
    {
        let mut arrival_times: Vec<u64> = Vec::new();
        let mut i: usize = 0;
        while i < ARRIVAL_HISTORY
            invariant
                i <= ARRIVAL_HISTORY,
                arrival_times@ == Seq::new(i as nat, |j: int| 0u64),
            decreases ARRIVAL_HISTORY - i,
        {
            arrival_times.push(0);
            assert(arrival_times@ =~= Seq::new((i + 1) as nat, |j: int| 0u64));
            i = i + 1;
        }
        AutoPolicy {
            min_batch,
            max_batch,
            max_latency_ms,
            arrival_times,
            arrival_idx: 0,
            last_arrival_ms: 0,
            recent_arrivals: Vec::new(),
            observed_pattern: TrafficPattern::Idle,
            current_threshold: min_batch,
            current_time_limit_ms: max_latency_ms,
        }
    }

    /// The count threshold and time limit are those the pattern calls for:
    /// idle and bursty traffic seal at the minimum batch (within 500 ms and
    /// 200 ms), steady traffic halfway between minimum and maximum batch
    /// within half the latency limit, and high load at the maximum batch
    /// within the full latency limit.
    pub open spec fn follows_pattern(&self) -> bool {
        match self.spec_pattern() {
            TrafficPattern::Idle => self.spec_threshold() == self.spec_min_batch() && self.spec_time_limit_ms()
                == 500,
            TrafficPattern::Steady => self.spec_threshold() * 2 <= self.spec_min_batch() + self.spec_max_batch()
                && self.spec_min_batch() + self.spec_max_batch() <= self.spec_threshold() * 2 + 1
                && self.spec_time_limit_ms() * 2 <= self.spec_max_latency_ms() && self.spec_max_latency_ms()
                <= self.spec_time_limit_ms() * 2 + 1,
            TrafficPattern::Bursty => self.spec_threshold() == self.spec_min_batch() && self.spec_time_limit_ms()
                == 200,
            TrafficPattern::HighLoad => self.spec_threshold() == self.spec_max_batch() && self.spec_time_limit_ms()
                == self.spec_max_latency_ms(),
        }
    }

    /// The pattern currently detected.
    pub fn current_pattern(&self) -> (r: TrafficPattern)
        ensures
            r == self.spec_pattern(),
    {
        self.observed_pattern
    }

    fn adapt_to_pattern(&mut self)
        ensures
            (final(self).spec_threshold(), final(self).spec_time_limit_ms()) == pattern_settings(
                old(self).spec_pattern(),
                old(self).spec_min_batch(),
                old(self).spec_max_batch(),
                old(self).spec_max_latency_ms(),
            ),
            final(self).spec_pattern() == old(self).spec_pattern(),
            final(self).spec_min_batch() == old(self).spec_min_batch(),
            final(self).spec_max_batch() == old(self).spec_max_batch(),
            final(self).spec_max_latency_ms() == old(self).spec_max_latency_ms(),
            final(self).spec_arrivals() == old(self).spec_arrivals(),
            final(self).spec_arrival_idx() == old(self).spec_arrival_idx(),
            final(self).spec_last_arrival_ms() == old(self).spec_last_arrival_ms(),
            final(self).spec_recent() == old(self).spec_recent(),
    {
        proof {
            use_type_invariant(&*self);
        }
        match self.observed_pattern {
            TrafficPattern::Idle => {
                self.current_threshold = self.min_batch;
                self.current_time_limit_ms = 500;
            },
            TrafficPattern::Steady => {
                let (a, b) = (self.min_batch, self.max_batch);
                self.current_threshold = a / 2 + b / 2 + (a % 2 + b % 2) / 2;
                self.current_time_limit_ms = self.max_latency_ms / 2;
            },
            TrafficPattern::Bursty => {
                self.current_threshold = self.min_batch;
                self.current_time_limit_ms = 200;
            },
            TrafficPattern::HighLoad => {
                self.current_threshold = self.max_batch;
                self.current_time_limit_ms = self.max_latency_ms;
            },
        }
    }

    fn update_pattern(&mut self, now_ms: u64)
        ensures
            ({
                let p = classify(old(self).spec_arrivals(), old(self).spec_recent().len(), now_ms);
                if p != old(self).spec_pattern() {
                    &&& final(self).spec_pattern() == p
                    &&& (final(self).spec_threshold(), final(self).spec_time_limit_ms()) == pattern_settings(
                        p,
                        old(self).spec_min_batch(),
                        old(self).spec_max_batch(),
                        old(self).spec_max_latency_ms(),
                    )
                } else {
                    &&& final(self).spec_pattern() == old(self).spec_pattern()
                    &&& final(self).spec_threshold() == old(self).spec_threshold()
                    &&& final(self).spec_time_limit_ms() == old(self).spec_time_limit_ms()
                }
            }),
            final(self).spec_min_batch() == old(self).spec_min_batch(),
            final(self).spec_max_batch() == old(self).spec_max_batch(),
            final(self).spec_max_latency_ms() == old(self).spec_max_latency_ms(),
            final(self).spec_arrivals() == old(self).spec_arrivals(),
            final(self).spec_arrival_idx() == old(self).spec_arrival_idx(),
            final(self).spec_last_arrival_ms() == old(self).spec_last_arrival_ms(),
            final(self).spec_recent() == old(self).spec_recent(),
    {
        proof {
            use_type_invariant(&*self);
        }
        let recent_count = self.recent_arrivals.len();
        let five_sec_ago = now_ms.saturating_sub(5000);
        let last_five = window(&self.arrival_times, five_sec_ago, now_ms);
        proof {
            lemma_in_window_bounds(self.arrival_times@, five_sec_ago, now_ms);
        }
        let new_pattern = if recent_count < 1 {
            TrafficPattern::Idle
        } else if recent_count > 100 {
            TrafficPattern::HighLoad
        } else if is_bursty(&last_five, five_sec_ago, now_ms) {
            TrafficPattern::Bursty
        } else {
            TrafficPattern::Steady
        };
        let changed = match (new_pattern, self.observed_pattern) {
            (TrafficPattern::Idle, TrafficPattern::Idle) => false,
            (TrafficPattern::Steady, TrafficPattern::Steady) => false,
            (TrafficPattern::Bursty, TrafficPattern::Bursty) => false,
            (TrafficPattern::HighLoad, TrafficPattern::HighLoad) => false,
            _ => true,
        };
        if changed {
            self.observed_pattern = new_pattern;
            self.adapt_to_pattern();
        }
    }

    /// Records an arrival at `now_ms` and re-evaluates the traffic pattern;
    /// when it changes, the threshold and time limit follow it. The arrivals
    /// of the last second are counted over every recorded arrival, so more
    /// than 100 of them (high load) can be seen.
    pub fn record_arrival(&mut self, now_ms: u64)
        ensures
            final(self).spec_arrivals() == old(self).spec_arrivals().update(
                old(self).spec_arrival_idx() as int,
                now_ms,
            ),
            final(self).spec_arrival_idx() == (old(self).spec_arrival_idx() + 1) % (ARRIVAL_HISTORY as int),
            final(self).spec_last_arrival_ms() == now_ms,
            final(self).spec_recent() == in_window(old(self).spec_recent().push(now_ms), sat_sub(now_ms, 1000), now_ms),
            final(self).spec_pattern() != old(self).spec_pattern() ==> final(self).follows_pattern(),
            ({
                let p = classify(final(self).spec_arrivals(), final(self).spec_recent().len(), now_ms);
                if p != old(self).spec_pattern() {
                    &&& final(self).spec_pattern() == p
                    &&& (final(self).spec_threshold(), final(self).spec_time_limit_ms()) == pattern_settings(
                        p,
                        old(self).spec_min_batch(),
                        old(self).spec_max_batch(),
                        old(self).spec_max_latency_ms(),
                    )
                } else {
                    &&& final(self).spec_pattern() == old(self).spec_pattern()
                    &&& final(self).spec_threshold() == old(self).spec_threshold()
                    &&& final(self).spec_time_limit_ms() == old(self).spec_time_limit_ms()
                }
            }),
            final(self).spec_min_batch() == old(self).spec_min_batch(),
            final(self).spec_max_batch() == old(self).spec_max_batch(),
            final(self).spec_max_latency_ms() == old(self).spec_max_latency_ms(),
    {
        proof {
            use_type_invariant(&*self);
        }
        let idx = self.arrival_idx;
        let mut times = self.arrival_times.clone();
        assert(times@ =~= self.arrival_times@);
        times.set(idx, now_ms);
        let next = (idx + 1) % ARRIVAL_HISTORY;
        let mut recent = self.recent_arrivals.clone();
        assert(recent@ =~= self.recent_arrivals@);
        recent.push(now_ms);
        self.recent_arrivals = window(&recent, now_ms.saturating_sub(1000), now_ms);
        self.arrival_times = times;
        self.arrival_idx = next;
        self.last_arrival_ms = now_ms;
        self.update_pattern(now_ms);
    }
}

/// The auto policy's rule: nothing is sealed from an empty queue; otherwise
/// seal at the current threshold, when the oldest wait reaches the current
/// time limit or the hard latency limit, or when the arrival rate is above
/// 50 per second and at least the minimum batch waits.
pub open spec fn spec_auto_should_seal(p: AutoPolicy, queue_len: usize, oldest_wait_ms: u64, rate: ArrivalRate) -> bool {
    queue_len != 0 && (queue_len >= p.spec_threshold() || oldest_wait_ms >= p.spec_time_limit_ms()
        || oldest_wait_ms >= p.spec_max_latency_ms() || (rate.spec_exceeds(50) && queue_len
        >= p.spec_min_batch()))
}

impl PolicyEngine for AutoPolicy {
    fn should_seal(&self, queue_len: usize, oldest_wait_ms: u64, avg_arrival_rate: ArrivalRate) -> (r: bool)
        ensures
            r == spec_auto_should_seal(*self, queue_len, oldest_wait_ms, avg_arrival_rate),
            queue_len == 0 ==> !r,
            queue_len > 0 && queue_len >= self.spec_threshold() ==> r,
            queue_len > 0 && oldest_wait_ms >= self.spec_time_limit_ms() ==> r,
            queue_len > 0 && oldest_wait_ms >= self.spec_max_latency_ms() ==> r,
            queue_len > 0 && queue_len >= self.spec_min_batch() && avg_arrival_rate.arrivals * 1000 > 50
                * avg_arrival_rate.window_ms ==> r,
            r ==> queue_len > 0 && (queue_len >= self.spec_threshold() || oldest_wait_ms >= self.spec_time_limit_ms()
                || oldest_wait_ms >= self.spec_max_latency_ms() || (queue_len >= self.spec_min_batch()
                && avg_arrival_rate.arrivals * 1000 > 50 * avg_arrival_rate.window_ms)),
    {
        if queue_len == 0 {
            return false;
        }
        if queue_len >= self.current_threshold {
            return true;
        }
        if oldest_wait_ms >= self.current_time_limit_ms {
            return true;
        }
        if oldest_wait_ms >= self.max_latency_ms {
            return true;
        }
        if avg_arrival_rate.exceeds(50) && queue_len >= self.min_batch {
            return true;
        }
        false
    }

    fn name(&self) -> (r: &'static str)
        ensures
            r@ == "Auto"@,
    {
        "Auto"
    }

    /// A growth factor above 2 switches to the bursty settings unless the
    /// traffic is already high load.
    fn observe_queue_growth(&mut self, rate: GrowthRate)
        ensures
            if rate.spec_exceeds(2) && old(self).spec_pattern() != TrafficPattern::HighLoad {
                &&& final(self).spec_pattern() == TrafficPattern::Bursty
                &&& final(self).spec_threshold() == old(self).spec_min_batch()
                &&& final(self).spec_time_limit_ms() == 200
            } else {
                &&& final(self).spec_pattern() == old(self).spec_pattern()
                &&& final(self).spec_threshold() == old(self).spec_threshold()
                &&& final(self).spec_time_limit_ms() == old(self).spec_time_limit_ms()
            },
            final(self).spec_min_batch() == old(self).spec_min_batch(),
            final(self).spec_max_batch() == old(self).spec_max_batch(),
            final(self).spec_max_latency_ms() == old(self).spec_max_latency_ms(),
            final(self).spec_arrivals() == old(self).spec_arrivals(),
            final(self).spec_pattern() != old(self).spec_pattern() ==> final(self).follows_pattern(),
    {
        proof {
            use_type_invariant(&*self);
        }
        let high = match self.observed_pattern {
            TrafficPattern::HighLoad => true,
            _ => false,
        };
        if rate.exceeds(2) && !high {
            self.observed_pattern = TrafficPattern::Bursty;
            self.current_threshold = self.min_batch;
            self.current_time_limit_ms = 200;
        }
    }
}

} // verus!
