//! Statistics and reporting of the latency benchmark: medians and means of timing
//! samples, the synthetic frame it encodes, and the budget verdict line.

use vstd::prelude::*;
use vstd::relations::{sorted_by, total_ordering};
use crate::text::{chars_of, decimal, extend_chars, extend_str, spec_decimal, string_from_chars};

verus! {

broadcast use vstd::seq_lib::group_to_multiset_ensures;

/// Budget (µs) for constructing an encoder.
pub const ENCODER_INIT_US: u64 = 15_000;
/// Budget (µs) for one steady-state frame encode.
pub const ENCODE_FRAME_US: u64 = 2_000;
/// Budget (µs) for serialising one outbound message.
pub const PROTO_SER_US: u64 = 100;
/// Budget (µs) for deserialising one inbound message.
pub const PROTO_DE_US: u64 = 100;

/// The usual order of numbers.
pub open spec fn u64_order() -> spec_fn(u64, u64) -> bool {
    |a: u64, b: u64| a <= b
}

/// The samples in ascending order.
pub open spec fn sorted_samples(s: Seq<u64>) -> Seq<u64> {
    s.sort_by(u64_order())
}

/// The median of samples: the middle one of the sorted samples, or the mean of the
/// two middle ones (rounded down) for an even count; zero for no samples.
pub open spec fn spec_median(s: Seq<u64>) -> int {
    let t = sorted_samples(s);
    let n = t.len() as int;
    if n == 0 {
        0
    } else if n % 2 == 1 {
        t[n / 2] as int
    } else {
        (t[n / 2 - 1] + t[n / 2]) / 2
    }
}

proof fn lemma_order_total()
    ensures
        total_ordering(u64_order()),
{
}

/// Sorts samples in ascending order.
fn sort_samples(samples: &Vec<u64>) -> (r: Vec<u64>)
    ensures
        r@ == sorted_samples(samples@),
{
    let mut out: Vec<u64> = Vec::new();
    let mut i: usize = 0;
    while i < samples.len()
        invariant
            i <= samples@.len(),
            out@.to_multiset() == samples@.take(i as int).to_multiset(),
            forall|a: int, b: int| 0 <= a < b < out@.len() ==> out@[a] <= out@[b],
        decreases samples@.len() - i,
    {
        let x = samples[i];
        let mut p: usize = 0;
        while p < out.len() && out[p] <= x
            invariant
                p <= out@.len(),
                forall|k: int| 0 <= k < p ==> out@[k] <= x,
            decreases out@.len() - p,
        {
            p = p + 1;
        }
        let ghost before = out@;
        out.insert(p, x);
        proof {
            assert(out@ == before.insert(p as int, x));
            vstd::seq_lib::to_multiset_insert(before, p as int, x);
            assert(samples@.take(i + 1) =~= samples@.take(i as int).push(x));
            assert forall|a: int, b: int| 0 <= a < b < out@.len() implies out@[a] <= out@[b] by {
                if b < p {
                } else if b == p {
                    assert(out@[a] == before[a]);
                } else if a == p {
                    assert(out@[b] == before[b - 1]);
                    assert(p < before.len() && before[p as int] > x);
                    assert(before[p as int] <= before[b - 1] || b - 1 == p);
                } else if a < p {
                    assert(out@[a] == before[a] && out@[b] == before[b - 1]);
                } else {
                    assert(out@[a] == before[a - 1] && out@[b] == before[b - 1]);
                }
            }
        }
        i = i + 1;
    }
    proof {
        assert(samples@.take(i as int) =~= samples@);
        assert(sorted_by(out@, u64_order()));
        samples@.lemma_sort_by_ensures(u64_order());
        lemma_order_total();
        vstd::seq_lib::lemma_sorted_unique(out@, sorted_samples(samples@), u64_order());
    }
    out
}

/// For an even count, the two middle samples add up within `u64`.
pub open spec fn middle_pair_fits(s: Seq<u64>) -> bool {
    let t = sorted_samples(s);
    let n = t.len() as int;
    n % 2 == 0 && n > 0 ==> t[n / 2 - 1] + t[n / 2] <= u64::MAX
}

/// The median of the samples.
pub fn median_us(samples: Vec<u64>) -> (r: u64)
    requires
        middle_pair_fits(samples@),
    ensures
        r == spec_median(samples@),
{
    let t = sort_samples(&samples);
    let n = t.len();
    if n == 0 {
        return 0;
    }
    if n % 2 == 1 {
        t[n / 2]
    } else {
        (t[n / 2 - 1] + t[n / 2]) / 2
    }
}

/// The sum of samples.
pub open spec fn sum_of(s: Seq<u64>) -> int
    decreases s.len(),
{
    if s.len() == 0 {
        0
    } else {
        sum_of(s.drop_last()) + s.last()
    }
}

proof fn lemma_sum_prefix_bound(s: Seq<u64>, i: int)
    requires
        0 <= i <= s.len(),
    ensures
        0 <= sum_of(s.take(i)) <= sum_of(s),
    decreases s.len() - i,
{
    if i < s.len() {
        lemma_sum_prefix_bound(s, i + 1);
        assert(s.take(i + 1).drop_last() =~= s.take(i));
    } else {
        assert(s.take(i) =~= s);
    }
    if i > 0 {
        lemma_sum_nonneg(s.take(i));
    }
}

proof fn lemma_sum_nonneg(s: Seq<u64>)
    ensures
        sum_of(s) >= 0,
    decreases s.len(),
{
    if s.len() > 0 {
        lemma_sum_nonneg(s.drop_last());
    }
}

/// The mean of the samples, rounded down; zero for no samples.
pub fn mean_us(samples: &[u64]) -> (r: u64)
    requires
        sum_of(samples@) <= u64::MAX,
    ensures
        r == if samples@.len() == 0 { 0 } else { sum_of(samples@) / samples@.len() as int },
{
    if samples.len() == 0 {
        return 0;
    }
    let mut total: u64 = 0;
    let mut i: usize = 0;
    while i < samples.len()
        invariant
            i <= samples@.len(),
            sum_of(samples@) <= u64::MAX,
            total == sum_of(samples@.take(i as int)),
        decreases samples@.len() - i,
    {
        proof {
            lemma_sum_prefix_bound(samples@, i + 1);
            assert(samples@.take(i + 1).drop_last() =~= samples@.take(i as int));
        }
        total = total + samples[i];
        i = i + 1;
    }
    assert(samples@.take(i as int) =~= samples@);
    total / (samples.len() as u64)
}

/// A synthetic frame of `width` x `height` pixels in BGR0, every pixel blue 64,
/// green 128, red 32 and padding 255.
pub fn make_bgr0_frame(width: usize, height: usize) -> (r: Vec<u8>)
    requires
        width * height * 4 <= usize::MAX,
    ensures
        r@.len() == width * height * 4,
        forall|i: int| 0 <= i < r@.len() ==> #[trigger] r@[i] == (if i % 4 == 0 { 64u8 } else if i % 4 == 1 {
            128u8
        } else if i % 4 == 2 {
            32u8
        } else {
            255u8
        }),
{
    let pixels = width * height;
    let mut buf: Vec<u8> = Vec::new();
    let mut p: usize = 0;
    while p < pixels
        invariant
            p <= pixels,
            pixels == width * height,
            pixels * 4 <= usize::MAX,
            buf@.len() == p * 4,
            forall|i: int| 0 <= i < buf@.len() ==> #[trigger] buf@[i] == (if i % 4 == 0 { 64u8 } else if i % 4
                == 1 {
                128u8
            } else if i % 4 == 2 {
                32u8
            } else {
                255u8
            }),
        decreases pixels - p,
    {
        buf.push(64);
        buf.push(128);
        buf.push(32);
        buf.push(255);
        p = p + 1;
    }
    buf
}

/// `n` spaces.
pub open spec fn spaces(n: int) -> Seq<char> {
    Seq::new(if n > 0 { n as nat } else { 0 }, |i: int| ' ')
}

fn push_spaces(v: &mut Vec<char>, n: usize)
    ensures
        final(v)@ == old(v)@ + spaces(n as int),
{
    let mut i: usize = 0;
    while i < n
        invariant
            i <= n,
            v@ == old(v)@ + spaces(i as int),
        decreases n - i,
    {
        v.push(' ');
        assert(old(v)@ + spaces(i + 1) =~= (old(v)@ + spaces(i as int)).push(' '));
        i = i + 1;
    }
}

/// A number right-aligned in a field of seven.
pub open spec fn right7(n: u64) -> Seq<char> {
    spaces(7 - spec_decimal(n as nat).len()) + spec_decimal(n as nat)
}

fn push_right7(v: &mut Vec<char>, n: u64)
    ensures
        final(v)@ == old(v)@ + right7(n),
{
    let d = decimal(n);
    let pad: usize = if d.len() < 7 { 7 - d.len() } else { 0 };
    push_spaces(v, pad);
    extend_chars(v, d.as_slice());
    assert(spaces(pad as int) =~= spaces(7 - spec_decimal(n as nat).len()));
}

/// The verdict line of a benchmark target and whether its median is within the
/// budget: the name left-aligned in thirty columns, then median, mean and budget
/// right-aligned in seven, and `PASS` or `FAIL`.
pub open spec fn spec_report_line(name: Seq<char>, median: u64, mean: u64, budget: u64) -> Seq<char> {
    "bench::"@ + name + spaces(30 - name.len()) + "  median="@ + right7(median) + " µs  mean="@ + right7(mean)
        + " µs  budget="@ + right7(budget) + " µs  ["@ + (if median <= budget { "PASS"@ } else { "FAIL"@ }) + "]"@
}

/// Builds the verdict line of a benchmark target; the flag tells whether it passed.
pub fn report(name: &str, median: u64, mean: u64, budget: u64) -> (r: (String, bool))
    ensures
        r.0@ == spec_report_line(name@, median, mean, budget),
        r.1 == (median <= budget),
{
    let pass = median <= budget;
    let mut v = chars_of("bench::");
    let nc = chars_of(name);
    extend_chars(&mut v, nc.as_slice());
    let pad: usize = if nc.len() < 30 { 30 - nc.len() } else { 0 };
    push_spaces(&mut v, pad);
    assert(spaces(pad as int) =~= spaces(30 - name@.len()));
    extend_str(&mut v, "  median=");
    push_right7(&mut v, median);
    extend_str(&mut v, " µs  mean=");
    push_right7(&mut v, mean);
    extend_str(&mut v, " µs  budget=");
    push_right7(&mut v, budget);
    extend_str(&mut v, " µs  [");
    extend_str(&mut v, if pass { "PASS" } else { "FAIL" });
    extend_str(&mut v, "]");
    let s = string_from_chars(v.as_slice());
    assert(s@ =~= spec_report_line(name@, median, mean, budget));
    (s, pass)
}

} // verus!
