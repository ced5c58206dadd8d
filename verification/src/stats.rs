//! Bandwidth values and the statistics reducer.
//!
//! A bandwidth sample is kept as an exact rational number of Mbit/s, so the
//! defining formula `payloadBytes * 8 / elapsedSeconds / 1_000_000` holds
//! exactly of every recorded sample, and the reducer's minimum, maximum and
//! arithmetic mean are exact as well.

use vstd::prelude::*;

verus! {

/// One bandwidth sample, the exact rational `num / den` in Mbit/s.
#[derive(Clone, Copy, Debug, PartialEq, Eq, Structural)]
pub struct Bandwidth {
    pub num: u64,
    pub den: u64,
}

/// The arithmetic mean of a sample set, an exact rational `num / den`
/// in Mbit/s. Wider than a sample because it accumulates products of
/// sample denominators.
#[derive(Clone, Copy, Debug, PartialEq, Eq, Structural)]
pub struct Ratio {
    pub num: u128,
    pub den: u128,
}

impl Bandwidth {
    /// A sample is well formed when its denominator is positive.
    pub open spec fn valid(self) -> bool {
        self.den > 0
    }
}

impl Ratio {
    /// A ratio is well formed when its denominator is positive.
    pub open spec fn valid(self) -> bool {
        self.den > 0
    }
}

/// Order on exact fractions with positive denominators:
/// `an/ad <= bn/bd` exactly when `an * bd <= bn * ad`.
pub open spec fn frac_le(an: int, ad: int, bn: int, bd: int) -> bool {
    an * bd <= bn * ad
}

/// Order on bandwidth samples as rational numbers.
pub open spec fn rat_le(a: Bandwidth, b: Bandwidth) -> bool {
    frac_le(a.num as int, a.den as int, b.num as int, b.den as int)
}

/// Decides `rat_le` exactly; the cross products of two `u64` fractions
/// always fit in `u128`.
pub fn bandwidth_le(a: &Bandwidth, b: &Bandwidth) -> (r: bool)
    ensures
        r == rat_le(*a, *b),
{
    proof {
        assert((a.num as int) * (b.den as int) <= (u64::MAX as int) * (u64::MAX as int)
            && (b.num as int) * (a.den as int) <= (u64::MAX as int) * (u64::MAX as int)) by (nonlinear_arith)
            requires
                a.num <= u64::MAX,
                b.den <= u64::MAX,
                b.num <= u64::MAX,
                a.den <= u64::MAX,
        ;
    }
    (a.num as u128) * (b.den as u128) <= (b.num as u128) * (a.den as u128)
}

/// `rat_le` is transitive on well-formed samples.
pub proof fn lemma_rat_le_trans(a: Bandwidth, b: Bandwidth, c: Bandwidth)
    requires
        a.valid(),
        b.valid(),
        c.valid(),
        rat_le(a, b),
        rat_le(b, c),
    ensures
        rat_le(a, c),
{
    let an = a.num as int;
    let ad = a.den as int;
    let bn = b.num as int;
    let bd = b.den as int;
    let cn = c.num as int;
    let cd = c.den as int;
    assert(an * cd <= cn * ad) by (nonlinear_arith)
        requires
            an * bd <= bn * ad,
            bn * cd <= cn * bd,
            ad > 0,
            bd > 0,
            cd > 0,
            an >= 0,
            bn >= 0,
            cn >= 0,
    ;
}

/// Builds the bandwidth sample of one measured transfer: `payload_bytes`
/// sent in `elapsed_nanos` nanoseconds. Returns `None` exactly when the
/// measurement is degenerate (zero elapsed time) or the numerator would not
/// fit in a `u64`. A returned sample equals, as a rational,
/// `payload_bytes * 8 / elapsedSeconds / 1_000_000` Mbit/s with
/// `elapsedSeconds == elapsed_nanos / 1_000_000_000`: both sides reduce to
/// `payload_bytes * 8000 / elapsed_nanos`.
pub fn bandwidth_of(payload_bytes: u64, elapsed_nanos: u64) -> (r: Option<Bandwidth>)
    ensures
        r is Some <==> (elapsed_nanos > 0 && payload_bytes * 8000 <= u64::MAX),
        r is Some ==> {
            let b = r->0;
            &&& b.valid()
            &&& b.num == payload_bytes * 8000
            &&& b.den == elapsed_nanos
            &&& (b.num as int) * (elapsed_nanos as int) * 1_000_000
                == (payload_bytes as int) * 8 * 1_000_000_000 * (b.den as int)
        },
{
    if elapsed_nanos == 0 {
        return None;
    }
    match payload_bytes.checked_mul(8000) {
        None => None,
        Some(num) => {
            let b = Bandwidth { num, den: elapsed_nanos };
            proof {
                assert((b.num as int) * (elapsed_nanos as int) * 1_000_000
                    == (payload_bytes as int) * 8 * 1_000_000_000 * (b.den as int))
                    by (nonlinear_arith)
                    requires
                        b.num == payload_bytes * 8000,
                        b.den == elapsed_nanos,
                ;
            }
            Some(b)
        },
    }
}

/// Every sample in the sequence is well formed.
pub open spec fn all_valid(s: Seq<Bandwidth>) -> bool {
    forall|i: int| 0 <= i < s.len() ==> s[i].valid()
}

/// Denominator of the exact rational sum of the samples: the product of all
/// sample denominators (1 for the empty sequence).
pub open spec fn sum_den(s: Seq<Bandwidth>) -> int
    decreases s.len(),
{
    if s.len() == 0 {
        1
    } else {
        sum_den(s.drop_last()) * s.last().den
    }
}

/// Numerator of the exact rational sum of the samples over the common
/// denominator `sum_den`.
pub open spec fn sum_num(s: Seq<Bandwidth>) -> int
    decreases s.len(),
{
    if s.len() == 0 {
        0
    } else {
        sum_num(s.drop_last()) * s.last().den + s.last().num * sum_den(s.drop_last())
    }
}

/// Numerator of the exact arithmetic mean of the samples.
pub open spec fn mean_num(s: Seq<Bandwidth>) -> int {
    sum_num(s)
}

/// Denominator of the exact arithmetic mean of the samples.
pub open spec fn mean_den(s: Seq<Bandwidth>) -> int {
    sum_den(s) * s.len()
}

/// `m` is a minimum of the sample set: it occurs in it and is below every
/// sample.
pub open spec fn is_min_of(m: Bandwidth, s: Seq<Bandwidth>) -> bool {
    &&& s.contains(m)
    &&& forall|i: int| 0 <= i < s.len() ==> rat_le(m, s[i])
}

/// `m` is a maximum of the sample set: it occurs in it and is above every
/// sample.
pub open spec fn is_max_of(m: Bandwidth, s: Seq<Bandwidth>) -> bool {
    &&& s.contains(m)
    &&& forall|i: int| 0 <= i < s.len() ==> rat_le(s[i], m)
}

/// The rational sum of well-formed samples has a positive denominator and a
/// nonnegative numerator.
pub proof fn lemma_sum_bounds(s: Seq<Bandwidth>)
    requires
        all_valid(s),
    ensures
        sum_den(s) >= 1,
        sum_num(s) >= 0,
    decreases s.len(),
{
    if s.len() > 0 {
        let s0 = s.drop_last();
        assert(all_valid(s0));
        lemma_sum_bounds(s0);
        let x = s.last();
        assert(s[s.len() - 1].valid());
        assert(sum_den(s0) * x.den >= 1) by (nonlinear_arith)
            requires
                sum_den(s0) >= 1,
                x.den >= 1,
        ;
        assert(sum_num(s0) * x.den + x.num * sum_den(s0) >= 0) by (nonlinear_arith)
            requires
                sum_num(s0) >= 0,
                x.den >= 1,
                x.num >= 0,
                sum_den(s0) >= 1,
        ;
    }
}

/// Unfolds the rational sum over `s.push(x)`.
pub proof fn lemma_sum_push(s: Seq<Bandwidth>, x: Bandwidth)
    ensures
        sum_den(s.push(x)) == sum_den(s) * x.den,
        sum_num(s.push(x)) == sum_num(s) * x.den + x.num * sum_den(s),
{
    assert(s.push(x).drop_last() =~= s);
    assert(s.push(x).last() == x);
}

/// The rational sum over a prefix never exceeds the sum over the whole
/// sequence, numerator and denominator alike.
pub proof fn lemma_sum_prefix_le(s: Seq<Bandwidth>, i: int)
    requires
        all_valid(s),
        0 <= i <= s.len(),
    ensures
        sum_num(s.take(i)) <= sum_num(s),
        sum_den(s.take(i)) <= sum_den(s),
    decreases s.len() - i,
{
    if i == s.len() {
        assert(s.take(i) =~= s);
    } else {
        let p = s.take(i);
        let q = s.take(i + 1);
        let x = s[i];
        assert(q =~= p.push(x));
        lemma_sum_push(p, x);
        assert(all_valid(p));
        lemma_sum_bounds(p);
        assert(x.valid());
        assert(sum_den(p) * x.den >= sum_den(p)) by (nonlinear_arith)
            requires
                sum_den(p) >= 1,
                x.den >= 1,
        ;
        assert(sum_num(p) * x.den + x.num * sum_den(p) >= sum_num(p)) by (nonlinear_arith)
            requires
                sum_num(p) >= 0,
                x.den >= 1,
                x.num >= 0,
                sum_den(p) >= 1,
        ;
        lemma_sum_prefix_le(s, i + 1);
    }
}

/// A common lower bound of every sample is below their arithmetic mean.
pub proof fn lemma_lower_bound_le_mean(s: Seq<Bandwidth>, lo: Bandwidth)
    requires
        s.len() > 0,
        all_valid(s),
        lo.valid(),
        forall|i: int| 0 <= i < s.len() ==> rat_le(lo, s[i]),
    ensures
        frac_le(lo.num as int, lo.den as int, mean_num(s), mean_den(s)),
    decreases s.len(),
{
    let x = s.last();
    let ln = lo.num as int;
    let ld = lo.den as int;
    let xn = x.num as int;
    let xd = x.den as int;
    assert(s[s.len() - 1].valid());
    assert(rat_le(lo, s[s.len() - 1]));
    if s.len() == 1 {
        assert(sum_num(s.drop_last()) == 0);
        assert(sum_den(s.drop_last()) == 1);
        assert(sum_num(s) == xn && sum_den(s) == xd);
        assert(ln * (xd * 1) <= xn * ld) by (nonlinear_arith)
            requires
                ln * xd <= xn * ld,
        ;
    } else {
        let s0 = s.drop_last();
        assert(all_valid(s0));
        assert(forall|i: int| 0 <= i < s0.len() ==> rat_le(lo, s0[i])) by {
            assert(forall|i: int| 0 <= i < s0.len() ==> s0[i] == s[i]);
        }
        lemma_lower_bound_le_mean(s0, lo);
        lemma_sum_bounds(s0);
        let a = sum_num(s0);
        let b = sum_den(s0);
        let k = s0.len() as int;
        // inductive hypothesis: ln * (b * k) <= a * ld
        // bound on the last sample: ln * xd <= xn * ld
        assert((ln * (b * k)) * xd <= (a * ld) * xd) by (nonlinear_arith)
            requires
                ln * (b * k) <= a * ld,
                xd >= 1,
        ;
        assert((ln * xd) * b <= (xn * ld) * b) by (nonlinear_arith)
            requires
                ln * xd <= xn * ld,
                b >= 1,
        ;
        assert(ln * (b * xd * (k + 1)) == (ln * (b * k)) * xd + (ln * xd) * b) by (nonlinear_arith);
        assert((a * ld) * xd + (xn * ld) * b == (a * xd + xn * b) * ld) by (nonlinear_arith);
        assert(ln * (b * xd * (k + 1)) <= (a * xd + xn * b) * ld);
        assert(sum_num(s) == a * xd + xn * b);
        assert(sum_den(s) == b * xd);
        assert(mean_den(s) == b * xd * (k + 1)) by (nonlinear_arith)
            requires
                sum_den(s) == b * xd,
                mean_den(s) == sum_den(s) * (k + 1),
        ;
    }
}

/// A common upper bound of every sample is above their arithmetic mean.
pub proof fn lemma_mean_le_upper_bound(s: Seq<Bandwidth>, hi: Bandwidth)
    requires
        s.len() > 0,
        all_valid(s),
        hi.valid(),
        forall|i: int| 0 <= i < s.len() ==> rat_le(s[i], hi),
    ensures
        frac_le(mean_num(s), mean_den(s), hi.num as int, hi.den as int),
    decreases s.len(),
{
    let x = s.last();
    let hn = hi.num as int;
    let hd = hi.den as int;
    let xn = x.num as int;
    let xd = x.den as int;
    assert(s[s.len() - 1].valid());
    assert(rat_le(s[s.len() - 1], hi));
    if s.len() == 1 {
        assert(sum_num(s.drop_last()) == 0);
        assert(sum_den(s.drop_last()) == 1);
        assert(sum_num(s) == xn && sum_den(s) == xd);
        assert(xn * hd <= hn * (xd * 1)) by (nonlinear_arith)
            requires
                xn * hd <= hn * xd,
        ;
    } else {
        let s0 = s.drop_last();
        assert(all_valid(s0));
        assert(forall|i: int| 0 <= i < s0.len() ==> rat_le(s0[i], hi)) by {
            assert(forall|i: int| 0 <= i < s0.len() ==> s0[i] == s[i]);
        }
        lemma_mean_le_upper_bound(s0, hi);
        lemma_sum_bounds(s0);
        let a = sum_num(s0);
        let b = sum_den(s0);
        let k = s0.len() as int;
        // inductive hypothesis: a * hd <= hn * (b * k)
        // bound on the last sample: xn * hd <= hn * xd
        assert((a * hd) * xd <= (hn * (b * k)) * xd) by (nonlinear_arith)
            requires
                a * hd <= hn * (b * k),
                xd >= 1,
        ;
        assert((xn * hd) * b <= (hn * xd) * b) by (nonlinear_arith)
            requires
                xn * hd <= hn * xd,
                b >= 1,
        ;
        assert((a * xd + xn * b) * hd == (a * hd) * xd + (xn * hd) * b) by (nonlinear_arith);
        assert(hn * (b * xd * (k + 1)) == (hn * (b * k)) * xd + (hn * xd) * b) by (nonlinear_arith);
        assert((a * xd + xn * b) * hd <= hn * (b * xd * (k + 1)));
        assert(sum_num(s) == a * xd + xn * b);
        assert(sum_den(s) == b * xd);
        assert(mean_den(s) == b * xd * (k + 1)) by (nonlinear_arith)
            requires
                sum_den(s) == b * xd,
                mean_den(s) == sum_den(s) * (k + 1),
        ;
    }
}

/// Summary statistics over one payload size: exact arithmetic mean, minimum
/// and maximum of the recorded bandwidth samples.
#[derive(Clone, Copy, Debug, PartialEq, Eq, Structural)]
pub struct Summary {
    pub average: Ratio,
    pub minimum: Bandwidth,
    pub maximum: Bandwidth,
}

/// The summary `r` is the exact reduction of the sample set `s`.
pub open spec fn summarizes(r: Summary, s: Seq<Bandwidth>) -> bool {
    &&& r.average.num == mean_num(s)
    &&& r.average.den == mean_den(s)
    &&& r.average.valid()
    &&& is_min_of(r.minimum, s)
    &&& is_max_of(r.maximum, s)
}

/// For any non-empty set of well-formed samples, a summary of it keeps
/// `minimum <= average <= maximum`, as exact rationals.
pub proof fn lemma_summary_ordered(s: Seq<Bandwidth>, r: Summary)
    requires
        s.len() > 0,
        all_valid(s),
        summarizes(r, s),
    ensures
        frac_le(r.minimum.num as int, r.minimum.den as int, r.average.num as int, r.average.den as int),
        frac_le(r.average.num as int, r.average.den as int, r.maximum.num as int, r.maximum.den as int),
{
    let i = choose|i: int| 0 <= i < s.len() && s[i] == r.minimum;
    assert(s[i].valid());
    let j = choose|j: int| 0 <= j < s.len() && s[j] == r.maximum;
    assert(s[j].valid());
    lemma_lower_bound_le_mean(s, r.minimum);
    lemma_mean_le_upper_bound(s, r.maximum);
}

/// Reduces a non-empty set of bandwidth samples to its summary statistics.
/// The minimum and maximum are samples of the set itself; the average is the
/// exact arithmetic mean, kept as a rational over the product of the sample
/// denominators. Returns `None` exactly when that exact mean does not fit in
/// a `u128` fraction.
pub fn summarize(samples: &Vec<Bandwidth>) -> (r: Option<Summary>)
    requires
        samples@.len() > 0,
        all_valid(samples@),
    ensures
        r is Some <==> (mean_num(samples@) <= u128::MAX && mean_den(samples@) <= u128::MAX),
        r is Some ==> summarizes(r->0, samples@),
{
    let ghost full = samples@;
    let n = samples.len();

    // Exact rational sum of the samples, as a running fraction.
    let mut num: u128 = 0;
    let mut den: u128 = 1;
    let mut i: usize = 0;
    while i < n
        invariant
            n == full.len(),
            full == samples@,
            all_valid(full),
            0 <= i <= n,
            num == sum_num(full.take(i as int)),
            den == sum_den(full.take(i as int)),
        decreases n - i,
    {
        let x = samples[i];
        let ghost p = full.take(i as int);
        proof {
            assert(full.take(i + 1) =~= p.push(x));
            lemma_sum_push(p, x);
            lemma_sum_bounds(p);
            assert(x.valid());
            lemma_sum_prefix_le(full, i + 1);
        }
        let t1 = match num.checked_mul(x.den as u128) {
            Some(v) => v,
            None => {
                proof {
                    assert(sum_num(full.take(i + 1)) >= sum_num(p) * x.den) by (nonlinear_arith)
                        requires
                            sum_num(full.take(i + 1)) == sum_num(p) * x.den + x.num * sum_den(p),
                            x.num >= 0,
                            sum_den(p) >= 1,
                    ;
                }
                return None;
            },
        };
        let t2 = match (x.num as u128).checked_mul(den) {
            Some(v) => v,
            None => {
                proof {
                    assert(sum_num(full.take(i + 1)) >= x.num * sum_den(p)) by (nonlinear_arith)
                        requires
                            sum_num(full.take(i + 1)) == sum_num(p) * x.den + x.num * sum_den(p),
                            sum_num(p) >= 0,
                            x.den >= 1,
                    ;
                }
                return None;
            },
        };
        let new_num = match t1.checked_add(t2) {
            Some(v) => v,
            None => {
                return None;
            },
        };
        let new_den = match den.checked_mul(x.den as u128) {
            Some(v) => v,
            None => {
                proof {
                    lemma_sum_bounds(full);
                    assert(sum_den(full) * full.len() >= sum_den(full)) by (nonlinear_arith)
                        requires
                            sum_den(full) >= 1,
                            full.len() >= 1,
                    ;
                }
                return None;
            },
        };
        num = new_num;
        den = new_den;
        i += 1;
    }
    proof {
        assert(full.take(n as int) =~= full);
        lemma_sum_bounds(full);
    }

    let total_den = match den.checked_mul(n as u128) {
        Some(v) => v,
        None => {
            return None;
        },
    };
    proof {
        assert(sum_den(full) * full.len() >= 1) by (nonlinear_arith)
            requires
                sum_den(full) >= 1,
                full.len() >= 1,
        ;
    }
    let average = Ratio { num, den: total_den };

    // Minimum and maximum of the samples, by exact rational comparison.
    let mut minimum = samples[0];
    let mut maximum = samples[0];
    let mut j: usize = 1;
    while j < n
        invariant
            n == full.len(),
            full == samples@,
            all_valid(full),
            1 <= j <= n,
            exists|k: int| 0 <= k < j && full[k] == minimum,
            exists|k: int| 0 <= k < j && full[k] == maximum,
            forall|k: int| 0 <= k < j ==> rat_le(minimum, full[k]),
            forall|k: int| 0 <= k < j ==> rat_le(full[k], maximum),
        decreases n - j,
    {
        let x = samples[j];
        proof {
            assert(x.valid());
            let km = choose|k: int| 0 <= k < j && full[k] == minimum;
            assert(full[km].valid());
            let kx = choose|k: int| 0 <= k < j && full[k] == maximum;
            assert(full[kx].valid());
        }
        if bandwidth_le(&x, &minimum) {
            proof {
                assert forall|k: int| 0 <= k < j + 1 implies rat_le(x, full[k]) by {
                    if k < j {
                        lemma_rat_le_trans(x, minimum, full[k]);
                    }
                }
            }
            minimum = x;
        }
        if bandwidth_le(&maximum, &x) {
            proof {
                assert forall|k: int| 0 <= k < j + 1 implies rat_le(full[k], x) by {
                    if k < j {
                        lemma_rat_le_trans(full[k], maximum, x);
                    }
                }
            }
            maximum = x;
        }
        j += 1;
    }

    Some(Summary { average, minimum, maximum })
}

} // verus!
