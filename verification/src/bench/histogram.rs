//! The CPU reference of the histogram benchmark.
use vstd::prelude::*;

verus! {

/// How many values fall in bucket `b`, that is have `b` as remainder by 256.
pub open spec fn bucket_count(s: Seq<u32>, b: int) -> int
    decreases s.len(),
{
    if s.len() == 0 {
        0
    } else {
        bucket_count(s.drop_last(), b) + (if s.last() % 256 == b { 1int } else { 0int })
    }
}

/// The total of the counts of the buckets below `k`.
pub open spec fn buckets_total(s: Seq<u32>, k: int) -> int
    decreases k,
{
    if k <= 0 {
        0
    } else {
        buckets_total(s, k - 1) + bucket_count(s, k - 1)
    }
}

proof fn lemma_bucket_count_monotone(s: Seq<u32>, i: int, j: int, b: int)
    requires
        0 <= i <= j <= s.len(),
    ensures
        0 <= bucket_count(s.take(i), b) <= bucket_count(s.take(j), b),
    decreases j - i,
{
    if i < j {
        lemma_bucket_count_monotone(s, i, j - 1, b);
        assert(s.take(j).drop_last() =~= s.take(j - 1));
    } else {
        lemma_bucket_count_nonneg(s.take(i), b);
    }
}

proof fn lemma_bucket_count_nonneg(s: Seq<u32>, b: int)
    ensures
        bucket_count(s, b) >= 0,
    decreases s.len(),
{
    if s.len() > 0 {
        lemma_bucket_count_nonneg(s.drop_last(), b);
    }
}

proof fn lemma_buckets_total_push(s: Seq<u32>, x: u32, k: int)
    requires
        0 <= k <= 256,
    ensures
        buckets_total(s.push(x), k) == buckets_total(s, k) + (if x % 256 < k { 1int } else { 0int }),
    decreases k,
{
    if k > 0 {
        lemma_buckets_total_push(s, x, k - 1);
        assert(s.push(x).drop_last() =~= s);
    }
}

/// Every value falls in exactly one bucket: the counts of the 256 buckets
/// add up to the number of values.
pub proof fn lemma_histogram_total(s: Seq<u32>)
    ensures
        buckets_total(s, 256) == s.len(),
    decreases s.len(),
{
    if s.len() == 0 {
        lemma_buckets_total_empty(s, 256);
    } else {
        lemma_histogram_total(s.drop_last());
        lemma_buckets_total_push(s.drop_last(), s.last(), 256);
        assert(s.drop_last().push(s.last()) =~= s);
    }
}

proof fn lemma_buckets_total_empty(s: Seq<u32>, k: int)
    requires
        s.len() == 0,
    ensures
        buckets_total(s, k) == 0,
    decreases k,
{
    if k > 0 {
        lemma_buckets_total_empty(s, k - 1);
    }
}

/// The histogram of `data` over 256 buckets: bucket `b` counts the values
/// whose remainder by 256 is `b`. No bucket may count more than `u32::MAX`
/// values.
pub fn histogram_cpu(data: &[u32]) -> (hist: Vec<u32>)
    requires
        forall|b: int| 0 <= b < 256 ==> #[trigger] bucket_count(data@, b) <= u32::MAX,
    ensures
        hist@.len() == 256,
        forall|b: int| 0 <= b < 256 ==> #[trigger] hist@[b] == bucket_count(data@, b),
{
    let mut hist: Vec<u32> = vec![0u32; 256];
    let mut i: usize = 0;
    while i < data.len()
        invariant
            i <= data@.len(),
            hist@.len() == 256,
            forall|b: int| 0 <= b < 256 ==> #[trigger] bucket_count(data@, b) <= u32::MAX,
            forall|b: int| 0 <= b < 256 ==> #[trigger] hist@[b] == bucket_count(data@.take(i as int), b),
        decreases data@.len() - i,
    {
        let v = data[i];
        let bucket: usize = (v % 256) as usize;
        proof {
            assert(data@.take(i + 1).drop_last() =~= data@.take(i as int));
            lemma_bucket_count_monotone(data@, i + 1, data@.len() as int, bucket as int);
            assert(data@.take(data@.len() as int) =~= data@);
        }
        let old_count = hist[bucket];
        hist.set(bucket, old_count + 1);
        proof {
            assert forall|b: int| 0 <= b < 256 implies #[trigger] hist@[b] == bucket_count(data@.take(i + 1), b) by {
                assert(data@.take(i + 1).last() == v);
            }
        }
        i = i + 1;
    }
    assert(data@.take(i as int) =~= data@);
    hist
}

} // verus!
