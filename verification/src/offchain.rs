//! Bulk data aggregation for offchain workers: sums that a host may spread
//! over many cores; addition is associative and commutative, so the result
//! is pinned to the sequential sum.

use vstd::prelude::*;

verus! {

/// The sum of a sequence of bytes.
pub open spec fn byte_sum(s: Seq<u8>) -> int
    decreases s.len(),
{
    if s.len() == 0 {
        0
    } else {
        byte_sum(s.drop_last()) + s.last()
    }
}

/// The sum of a sequence of 32-bit values.
pub open spec fn dataset_sum(s: Seq<u32>) -> int
    decreases s.len(),
{
    if s.len() == 0 {
        0
    } else {
        dataset_sum(s.drop_last()) + s.last()
    }
}

/// The sum of all values over a sequence of datasets.
pub open spec fn total_sum(ds: Seq<Vec<u32>>) -> int
    decreases ds.len(),
{
    if ds.len() == 0 {
        0
    } else {
        total_sum(ds.drop_last()) + dataset_sum(ds.last()@)
    }
}

/// A byte sum never exceeds 255 per element.
proof fn lemma_byte_sum_bounds(s: Seq<u8>)
    ensures
        0 <= byte_sum(s) <= 255 * s.len(),
    decreases s.len(),
{
    if s.len() > 0 {
        lemma_byte_sum_bounds(s.drop_last());
    }
}

/// A sum of 32-bit values is non-negative.
proof fn lemma_dataset_sum_nonneg(s: Seq<u32>)
    ensures
        0 <= dataset_sum(s),
    decreases s.len(),
{
    if s.len() > 0 {
        lemma_dataset_sum_nonneg(s.drop_last());
    }
}

/// A prefix never sums to more than the whole sequence.
proof fn lemma_dataset_prefix(s: Seq<u32>, j: int)
    requires
        0 <= j <= s.len(),
    ensures
        dataset_sum(s.take(j)) <= dataset_sum(s),
    decreases s.len(),
{
    if j < s.len() {
        assert(s.take(j) =~= s.drop_last().take(j));
        lemma_dataset_prefix(s.drop_last(), j);
    } else {
        assert(s.take(j) =~= s);
    }
}

/// A prefix of the datasets never sums to more than all of them.
proof fn lemma_total_prefix(ds: Seq<Vec<u32>>, i: int)
    requires
        0 <= i <= ds.len(),
    ensures
        total_sum(ds.take(i)) <= total_sum(ds),
    decreases ds.len(),
{
    if i < ds.len() {
        assert(ds.take(i) =~= ds.drop_last().take(i));
        lemma_total_prefix(ds.drop_last(), i);
        lemma_dataset_sum_nonneg(ds.last()@);
    } else {
        assert(ds.take(i) =~= ds);
    }
}

/// Computes the sum of a vector of bytes as a 64-bit value.
///
/// The length bound keeps the running sum within `u64`; it admits any
/// vector a 64-bit machine can hold.
pub fn parallel_sum(data: Vec<u8>) -> (r: u64)
    requires
        255 * data@.len() <= u64::MAX,
    ensures
        r == byte_sum(data@),
{
    let mut total: u64 = 0;
    let mut i: usize = 0;
    while i < data.len()
        invariant
            i <= data@.len(),
            255 * data@.len() <= u64::MAX,
            total == byte_sum(data@.take(i as int)),
            total <= 255 * i,
        decreases data@.len() - i,
    {
        proof {
            assert(data@.take(i + 1).drop_last() =~= data@.take(i as int));
            assert(data@.take(i + 1).last() == data@[i as int]);
        }
        total = total + data[i] as u64;
        i = i + 1;
    }
    proof {
        assert(data@.take(data@.len() as int) =~= data@);
    }
    total
}

/// Aggregates several datasets: each dataset is summed as a 32-bit value
/// and the per-dataset sums are added up as a 64-bit value.
///
/// Each dataset's sum must fit in `u32` and the aggregate in `u64`, as they
/// do in the narrower per-dataset arithmetic this mirrors.
pub fn parallel_data_aggregation(datasets: Vec<Vec<u32>>) -> (r: u64)
    requires
        forall|i: int|
            0 <= i < datasets@.len() ==> dataset_sum((#[trigger] datasets@[i])@) <= u32::MAX,
        total_sum(datasets@) <= u64::MAX,
    ensures
        r == total_sum(datasets@),
{
    let mut total: u64 = 0;
    let mut i: usize = 0;
    while i < datasets.len()
        invariant
            i <= datasets@.len(),
            forall|k: int|
                0 <= k < datasets@.len() ==> dataset_sum((#[trigger] datasets@[k])@) <= u32::MAX,
            total_sum(datasets@) <= u64::MAX,
            total == total_sum(datasets@.take(i as int)),
        decreases datasets@.len() - i,
    {
        let ds = &datasets[i];
        let mut part: u32 = 0;
        let mut j: usize = 0;
        while j < ds.len()
            invariant
                j <= ds@.len(),
                dataset_sum(ds@) <= u32::MAX,
                part == dataset_sum(ds@.take(j as int)),
            decreases ds@.len() - j,
        {
            proof {
                assert(ds@.take(j + 1).drop_last() =~= ds@.take(j as int));
                assert(ds@.take(j + 1).last() == ds@[j as int]);
                lemma_dataset_sum_nonneg(ds@.take(j as int));
                lemma_dataset_prefix(ds@, j + 1);
            }
            part = part + ds[j];
            j = j + 1;
        }
        proof {
            assert(ds@.take(ds@.len() as int) =~= ds@);
            assert(datasets@.take(i + 1).drop_last() =~= datasets@.take(i as int));
            assert(datasets@.take(i + 1).last() == datasets@[i as int]);
            lemma_dataset_sum_nonneg(ds@);
            lemma_total_prefix(datasets@, i as int);
            lemma_total_prefix(datasets@, i + 1);
        }
        total = total + part as u64;
        i = i + 1;
    }
    proof {
        assert(datasets@.take(datasets@.len() as int) =~= datasets@);
    }
    total
}

} // verus!
