//! Exponential smoothing of raw per-core utilization samples.
//!
//! The sampler owns one exponentially-weighted moving average accumulator
//! per core. The decay factor is a rational `alpha_num / alpha_den` with
//! `0 < alpha_num <= alpha_den` (a factor of one means no smoothing). Each
//! step moves the accumulator from its previous value toward the raw
//! sample, shrinking the gap by at least the factor
//! `(alpha_den - alpha_num) / alpha_den`; rounding is always toward the
//! raw sample, so the shrinking never stalls and the exponential decay
//! bound holds exactly.

use vstd::prelude::*;
use vstd::arithmetic::power::{pow, lemma_pow_positive, lemma0_pow};
use vstd::arithmetic::div_mod::{lemma_div_is_ordered, lemma_div_pos_is_pos, lemma_fundamental_div_mod};
use crate::event::wf_metrics;

verus! {

/// Largest denominator the smoothing factor may use; keeps every
/// intermediate product far below the integer limit.
pub const ALPHA_DEN_LIMIT: u64 = 1000000;

/// The distance between two values.
pub open spec fn abs_diff(a: int, b: int) -> int {
    if a >= b {
        a - b
    } else {
        b - a
    }
}

/// One smoothing step: the new accumulator value after a raw sample
/// arrives. The gap to the raw value shrinks from `d` to
/// `(d * (den - num)) / den`, rounded toward the raw value.
pub open spec fn spec_ewma_step(prev: int, raw: int, num: int, den: int) -> int {
    if prev <= raw {
        raw - ((raw - prev) * (den - num)) / den
    } else {
        raw + ((prev - raw) * (den - num)) / den
    }
}

/// The accumulator after `n` smoothing steps on the same raw sample.
pub open spec fn spec_ewma_iter(s0: int, raw: int, num: int, den: int, n: nat) -> int
    decreases n,
{
    if n == 0 {
        s0
    } else {
        spec_ewma_step(spec_ewma_iter(s0, raw, num, den, (n - 1) as nat), raw, num, den)
    }
}

/// One smoothing step stays between the previous value and the raw
/// sample, and shrinks the gap by the factor `(den - num) / den`:
/// `den * |step - raw| <= (den - num) * |prev - raw|`.
pub proof fn lemma_ewma_step_contracts(prev: int, raw: int, num: int, den: int)
    requires
        0 < num <= den,
    ensures
        prev <= raw ==> prev <= spec_ewma_step(prev, raw, num, den) <= raw,
        raw <= prev ==> raw <= spec_ewma_step(prev, raw, num, den) <= prev,
        den * abs_diff(spec_ewma_step(prev, raw, num, den), raw) <= (den - num) * abs_diff(
            prev,
            raw,
        ),
{
    let d = abs_diff(prev, raw);
    let q = (d * (den - num)) / den;
    assert(d * (den - num) >= 0) by (nonlinear_arith)
        requires
            d >= 0,
            den - num >= 0,
    ;
    lemma_div_pos_is_pos(d * (den - num), den);
    assert(d * (den - num) <= d * den) by (nonlinear_arith)
        requires
            d >= 0,
            num > 0,
            den >= num,
    ;
    lemma_div_is_ordered(d * (den - num), d * den, den);
    assert((d * den) / den == d) by (nonlinear_arith)
        requires
            den > 0,
    ;
    assert(q <= d);
    lemma_fundamental_div_mod(d * (den - num), den);
    assert(den * q <= d * (den - num));
    assert(abs_diff(spec_ewma_step(prev, raw, num, den), raw) == q);
}

/// Exponential decay of the gap between the accumulator and a constant
/// raw sample: after `n` identical raw samples,
/// `den^n * |smoothed_n - raw| <= (den - num)^n * |smoothed_0 - raw|`.
/// This is the integer form of
/// `|smoothed_n - raw| <= (1 - alpha)^n * |smoothed_0 - raw|`
/// for `alpha = num / den`. The accumulator also never leaves the
/// interval spanned by its start value and the raw sample.
pub proof fn lemma_ewma_convergence(s0: int, raw: int, num: int, den: int, n: nat)
    requires
        0 < num <= den,
    ensures
        pow(den, n) * abs_diff(spec_ewma_iter(s0, raw, num, den, n), raw) <= pow(den - num, n)
            * abs_diff(s0, raw),
        s0 <= raw ==> s0 <= spec_ewma_iter(s0, raw, num, den, n) <= raw,
        raw <= s0 ==> raw <= spec_ewma_iter(s0, raw, num, den, n) <= s0,
    decreases n,
{
    reveal(pow);
    if n == 0 {
        assert(pow(den, 0) == 1);
        assert(pow(den - num, 0) == 1);
    } else {
        lemma_ewma_convergence(s0, raw, num, den, (n - 1) as nat);
        let prev = spec_ewma_iter(s0, raw, num, den, (n - 1) as nat);
        let cur = spec_ewma_iter(s0, raw, num, den, n);
        lemma_ewma_step_contracts(prev, raw, num, den);
        let pd = pow(den, (n - 1) as nat);
        let pq = pow(den - num, (n - 1) as nat);
        lemma_pow_positive(den, (n - 1) as nat);
        if den - num > 0 {
            lemma_pow_positive(den - num, (n - 1) as nat);
        } else {
            assert(den - num == 0);
            if n - 1 == 0 {
                assert(pq == 1);
            } else {
                lemma0_pow((n - 1) as nat);
            }
        }
        assert(pq >= 0);
        assert(pow(den, n) == den * pd);
        assert(pow(den - num, n) == (den - num) * pq);
        let dn = abs_diff(cur, raw);
        let dn1 = abs_diff(prev, raw);
        let d0 = abs_diff(s0, raw);
        assert((den * pd) * dn <= ((den - num) * pq) * d0) by (nonlinear_arith)
            requires
                pd > 0,
                pq >= 0,
                den * dn <= (den - num) * dn1,
                pd * dn1 <= pq * d0,
                d0 >= 0,
                dn1 >= 0,
                dn >= 0,
                den - num >= 0,
                den > 0,
        ;
    }
}

/// One executable smoothing step on percentage values.
pub fn ewma_step(prev: u64, raw: u64, num: u64, den: u64) -> (r: u64)
    requires
        prev <= 100,
        raw <= 100,
        0 < num <= den,
        den <= ALPHA_DEN_LIMIT,
    ensures
        r == spec_ewma_step(prev as int, raw as int, num as int, den as int),
        r <= 100,
{
    proof {
        lemma_ewma_step_contracts(prev as int, raw as int, num as int, den as int);
    }
    if prev <= raw {
        let d: u64 = raw - prev;
        assert(d * (den - num) <= 100 * 1000000) by (nonlinear_arith)
            requires
                d <= 100,
                den - num <= 1000000,
        ;
        let q: u64 = (d * (den - num)) / den;
        raw - q
    } else {
        let d: u64 = prev - raw;
        assert(d * (den - num) <= 100 * 1000000) by (nonlinear_arith)
            requires
                d <= 100,
                den - num <= 1000000,
        ;
        let q: u64 = (d * (den - num)) / den;
        raw + q
    }
}

/// The per-core smoothing accumulators, owned exclusively by the sampler.
/// The number of accumulators is fixed when the sampler starts — one per
/// detected core — and never changes.
pub struct Smoother {
    pub alpha_num: u64,
    pub alpha_den: u64,
    pub values: Vec<u64>,
}

impl Smoother {
    /// The smoother's invariant: a valid decay factor and every
    /// accumulator a valid percentage.
    pub open spec fn wf(self) -> bool {
        &&& 0 < self.alpha_num <= self.alpha_den
        &&& self.alpha_den <= ALPHA_DEN_LIMIT
        &&& wf_metrics(self.values@)
    }

    /// A smoother with one zeroed accumulator per core and decay factor
    /// `alpha_num / alpha_den`.
    pub fn new(alpha_num: u64, alpha_den: u64, core_count: usize) -> (r: Smoother)
        requires
            0 < alpha_num <= alpha_den,
            alpha_den <= ALPHA_DEN_LIMIT,
        ensures
            r.wf(),
            r.alpha_num == alpha_num,
            r.alpha_den == alpha_den,
            r.values@.len() == core_count,
            forall|i: int| 0 <= i < core_count ==> r.values@[i] == 0,
    {
        Smoother { alpha_num, alpha_den, values: zero_metrics(core_count) }
    }

    /// Apply one smoothing step to every accumulator, one raw sample per
    /// core. The accumulator count never changes.
    pub fn update(&mut self, raw: &Vec<u64>)
        requires
            old(self).wf(),
            raw@.len() == old(self).values@.len(),
            wf_metrics(raw@),
        ensures
            final(self).wf(),
            final(self).alpha_num == old(self).alpha_num,
            final(self).alpha_den == old(self).alpha_den,
            final(self).values@.len() == old(self).values@.len(),
            forall|i: int|
                0 <= i < old(self).values@.len() ==> final(self).values@[i] == spec_ewma_step(
                    old(self).values@[i] as int,
                    raw@[i] as int,
                    old(self).alpha_num as int,
                    old(self).alpha_den as int,
                ),
    {
        let n: usize = self.values.len();
        let mut i: usize = 0;
        while i < n
            invariant
                self.wf(),
                self.alpha_num == old(self).alpha_num,
                self.alpha_den == old(self).alpha_den,
                self.values@.len() == old(self).values@.len(),
                n == old(self).values@.len(),
                raw@.len() == n,
                wf_metrics(raw@),
                i <= n,
                forall|j: int|
                    0 <= j < i ==> self.values@[j] == spec_ewma_step(
                        old(self).values@[j] as int,
                        raw@[j] as int,
                        old(self).alpha_num as int,
                        old(self).alpha_den as int,
                    ),
                forall|j: int| i <= j < n ==> self.values@[j] == old(self).values@[j],
            decreases n - i,
        {
            let stepped: u64 = ewma_step(self.values[i], raw[i], self.alpha_num, self.alpha_den);
            self.values[i] = stepped;
            i = i + 1;
        }
    }

    /// A copy of the current accumulator vector: the metric snapshot the
    /// sampler publishes after a refresh.
    pub fn snapshot(&self) -> (r: Vec<u64>)
        ensures
            r@ == self.values@,
    {
        copy_metrics(&self.values)
    }

    /// One sampler cycle on already-read raw samples: smooth them, then
    /// hand back the snapshot to publish.
    pub fn tick(&mut self, raw: &Vec<u64>) -> (r: Vec<u64>)
        requires
            old(self).wf(),
            raw@.len() == old(self).values@.len(),
            wf_metrics(raw@),
        ensures
            final(self).wf(),
            final(self).alpha_num == old(self).alpha_num,
            final(self).alpha_den == old(self).alpha_den,
            final(self).values@.len() == old(self).values@.len(),
            forall|i: int|
                0 <= i < old(self).values@.len() ==> final(self).values@[i] == spec_ewma_step(
                    old(self).values@[i] as int,
                    raw@[i] as int,
                    old(self).alpha_num as int,
                    old(self).alpha_den as int,
                ),
            r@ == final(self).values@,
            wf_metrics(r@),
    {
        self.update(raw);
        self.snapshot()
    }
}

/// A zero-filled metric vector, one entry per core.
pub fn zero_metrics(core_count: usize) -> (r: Vec<u64>)
    ensures
        r@.len() == core_count,
        forall|i: int| 0 <= i < core_count ==> r@[i] == 0,
        wf_metrics(r@),
{
    let mut v: Vec<u64> = Vec::new();
    let mut i: usize = 0;
    while i < core_count
        invariant
            i <= core_count,
            v@.len() == i,
            forall|j: int| 0 <= j < i ==> v@[j] == 0,
        decreases core_count - i,
    {
        v.push(0);
        i = i + 1;
    }
    v
}

/// An element-wise copy of a metric vector.
pub fn copy_metrics(src: &Vec<u64>) -> (r: Vec<u64>)
    ensures
        r@ == src@,
{
    let mut v: Vec<u64> = Vec::new();
    let mut i: usize = 0;
    let n: usize = src.len();
    while i < n
        invariant
            i <= n,
            n == src@.len(),
            v@ == src@.subrange(0, i as int),
        decreases n - i,
    {
        v.push(src[i]);
        assert(v@ == src@.subrange(0, i + 1 as int));
        i = i + 1;
    }
    assert(v@ == src@);
    v
}

/// Clamp an arbitrary raw reading to a valid percentage. The metric
/// source can briefly report values above one hundred percent; the
/// sampler never lets such a reading past this point.
pub fn clamp_percent(v: u64) -> (r: u64)
    ensures
        r == if v <= 100 {
            v as int
        } else {
            100int
        },
        r <= 100,
{
    if v <= 100 {
        v
    } else {
        100
    }
}

/// Clamp every entry of a freshly read raw vector to a valid percentage.
pub fn sanitize_raw(src: &Vec<u64>) -> (r: Vec<u64>)
    ensures
        r@.len() == src@.len(),
        forall|i: int|
            0 <= i < src@.len() ==> r@[i] == if src@[i] <= 100 {
                src@[i] as int
            } else {
                100int
            },
        wf_metrics(r@),
{
    let mut v: Vec<u64> = Vec::new();
    let mut i: usize = 0;
    let n: usize = src.len();
    while i < n
        invariant
            i <= n,
            n == src@.len(),
            v@.len() == i,
            forall|j: int|
                0 <= j < i ==> v@[j] == if src@[j] <= 100 {
                    src@[j] as int
                } else {
                    100int
                },
            wf_metrics(v@),
        decreases n - i,
    {
        let c: u64 = clamp_percent(src[i]);
        v.push(c);
        i = i + 1;
    }
    v
}

} // verus!
