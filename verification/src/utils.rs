//! Shared helper routines: memory alignment, element counting, sorting,
//! guarded arithmetic and clamping.

use vstd::prelude::*;
use vstd::multiset::Multiset;
use vstd::seq_lib::lemma_multiset_commutative;

verus! {

/// Whether `alignment` is a power of two.
pub open spec fn power_of_two(alignment: usize) -> bool {
    alignment > 0 && alignment & ((alignment - 1) as usize) == 0
}

/// Rounds `value` up to the next multiple of `alignment`, a power of two:
/// the result is aligned, at least `value`, and less than `value` plus the
/// alignment.
pub fn align_up(value: usize, alignment: usize) -> (r: usize)
    requires
        power_of_two(alignment),
        value + alignment - 1 <= usize::MAX,
    ensures
        r % alignment == 0,
        value <= r < value + alignment,
{
    let bumped = value + (alignment - 1);
    let q = bumped / alignment;
    proof {
        vstd::arithmetic::div_mod::lemma_fundamental_div_mod(bumped as int, alignment as int);
        vstd::arithmetic::div_mod::lemma_mod_multiples_basic(q as int, alignment as int);
        assert(bumped as int == alignment as int * (bumped as int / alignment as int) + (
        bumped as int % alignment as int));
        assert(alignment as int * (q as int) == bumped as int - (bumped as int % alignment as int));
        assert(0 <= bumped as int % (alignment as int));
        assert(bumped as int % (alignment as int) < alignment as int);
        assert(q as int * alignment as int <= bumped as int) by (nonlinear_arith)
            requires
                alignment as int * (q as int) <= bumped as int,
        ;
        assert(value as int <= q as int * alignment as int) by (nonlinear_arith)
            requires
                alignment as int * (q as int) >= bumped as int - (alignment as int - 1),
                bumped as int == value as int + alignment as int - 1,
        ;
    }
    q * alignment
}

/// How many whole values of type `T` a byte slice can hold.
pub fn count_elements<T>(data: &[u8]) -> (n: usize)
    requires
        vstd::layout::size_of::<T>() > 0,
    ensures
        n == data@.len() as int / vstd::layout::size_of::<T>() as int,
{
    data.len() / core::mem::size_of::<T>()
}

/// Whether a sequence is in ascending order.
pub open spec fn sorted(s: Seq<u64>) -> bool {
    forall|i: int, j: int| 0 <= i < j < s.len() ==> s[i] <= s[j]
}

/// The quicksort core: picks the head as the pivot, partitions the tail
/// into the strictly smaller and the at-least-as-large values, sorts both
/// sides, and joins them around the pivot. The result is ascending and
/// holds exactly the input's values.
fn quicksort_values(input: Vec<u64>) -> (out: Vec<u64>)
    ensures
        sorted(out@),
        out@.to_multiset() == input@.to_multiset(),
    decreases input@.len(),
{
    broadcast use vstd::seq_lib::group_to_multiset_ensures;
    broadcast use vstd::multiset::group_multiset_axioms;

    if input.len() <= 1 {
        return input;
    }
    let pivot = input[0];
    let mut less: Vec<u64> = Vec::new();
    let mut geq: Vec<u64> = Vec::new();
    let mut i: usize = 1;
    while i < input.len()
        invariant
            1 <= i <= input@.len(),
            input@.len() >= 2,
            pivot == input@[0],
            forall|k: int| 0 <= k < less@.len() ==> #[trigger] less@[k] < pivot,
            forall|k: int| 0 <= k < geq@.len() ==> #[trigger] geq@[k] >= pivot,
            less@.to_multiset().add(geq@.to_multiset()) == input@.subrange(
                1,
                i as int,
            ).to_multiset(),
            less@.len() + geq@.len() == i - 1,
        decreases input@.len() - i,
    {
        let ghost prefix = input@.subrange(1, i as int);
        let ghost less0 = less@;
        let ghost geq0 = geq@;
        let x = input[i];
        if x < pivot {
            less.push(x);
        } else {
            geq.push(x);
        }
        proof {
            assert(input@.subrange(1, i as int + 1) =~= prefix.push(x));
            prefix.to_multiset_ensures();
            less0.to_multiset_ensures();
            geq0.to_multiset_ensures();
            assert(prefix.push(x).to_multiset() =~= prefix.to_multiset().insert(x));
            if x < pivot {
                assert(less0.push(x).to_multiset() =~= less0.to_multiset().insert(x));
            } else {
                assert(geq0.push(x).to_multiset() =~= geq0.to_multiset().insert(x));
            }
            assert(less@.to_multiset().add(geq@.to_multiset()) =~= input@.subrange(
                1,
                i as int + 1,
            ).to_multiset());
        }
        i = i + 1;
    }
    proof {
        assert(input@.subrange(1, input@.len() as int) =~= input@.drop_first());
    }
    let ghost less_snapshot = less@;
    let ghost geq_snapshot = geq@;
    let sorted_less = quicksort_values(less);
    let mut sorted_geq = quicksort_values(geq);
    let mut out = sorted_less;
    proof {
        assert forall|k: int| 0 <= k < out@.len() implies #[trigger] out@[k] < pivot by {
            out@.to_multiset_ensures();
            less_snapshot.to_multiset_ensures();
            assert(out@.to_multiset().contains(out@[k]));
            assert(less_snapshot.to_multiset().contains(out@[k]));
            assert(less_snapshot.contains(out@[k]));
        }
        assert forall|k: int| 0 <= k < sorted_geq@.len() implies #[trigger] sorted_geq@[k]
            >= pivot by {
            sorted_geq@.to_multiset_ensures();
            geq_snapshot.to_multiset_ensures();
            assert(sorted_geq@.to_multiset().contains(sorted_geq@[k]));
            assert(geq_snapshot.to_multiset().contains(sorted_geq@[k]));
            assert(geq_snapshot.contains(sorted_geq@[k]));
        }
    }
    let ghost left = out@;
    out.push(pivot);
    let ghost mid = out@;
    let ghost right_sorted = sorted_geq@;
    out.append(&mut sorted_geq);
    proof {
        assert(out@ =~= mid + right_sorted);
        // order: every element of `mid` is at most the pivot, every element
        // appended is at least it
        assert forall|a: int, b: int| 0 <= a < b < out@.len() implies out@[a] <= out@[b] by {
            if b < mid.len() {
                if a < left.len() && b < left.len() {
                    assert(left[a] <= left[b]);
                } else if b == left.len() {
                    assert(out@[b] == pivot);
                    assert(out@[a] == left[a]);
                }
            } else {
                if a < left.len() {
                    assert(out@[a] == left[a] && left[a] < pivot);
                    assert(out@[b] == right_sorted[b - mid.len()]);
                } else if a == left.len() {
                    assert(out@[a] == pivot);
                    assert(out@[b] == right_sorted[b - mid.len()]);
                } else {
                    assert(out@[a] == right_sorted[a - mid.len()]);
                    assert(out@[b] == right_sorted[b - mid.len()]);
                }
            }
        }
        // contents: left + pivot + right carries exactly the input's values
        lemma_multiset_commutative(mid, right_sorted);
        left.to_multiset_ensures();
        input@.drop_first().to_multiset_ensures();
        seq![pivot].to_multiset_ensures();
        Seq::<u64>::empty().to_multiset_ensures();
        assert(mid =~= left.push(pivot));
        assert(input@ =~= seq![pivot] + input@.drop_first());
        lemma_multiset_commutative(seq![pivot], input@.drop_first());
        assert(seq![pivot].to_multiset() =~= Multiset::<u64>::empty().insert(pivot));
        assert(out@.to_multiset() =~= input@.to_multiset());
    }
    out
}

/// Sorts in ascending order by quicksort with the head element as the
/// pivot; the result holds exactly the argument's values.
pub fn quick_sort(arr: &mut Vec<u64>)
    ensures
        sorted(final(arr)@),
        final(arr)@.to_multiset() == old(arr)@.to_multiset(),
{
    let mut taken: Vec<u64> = Vec::new();
    core::mem::swap(arr, &mut taken);
    let mut result = quicksort_values(taken);
    core::mem::swap(arr, &mut result);
}

/// Sorts in ascending order; the partition-based twin of `quick_sort`, kept
/// under its historical name.
pub fn quicksort(data: &mut Vec<u64>)
    ensures
        sorted(final(data)@),
        final(data)@.to_multiset() == old(data)@.to_multiset(),
{
    quick_sort(data)
}

/// Division truncated towards zero, as the machine divides.
pub open spec fn trunc_div(a: int, b: int) -> int {
    let q = vstd::math::abs(a) as int / vstd::math::abs(b) as int;
    if (a < 0) != (b < 0) {
        -q
    } else {
        q
    }
}

/// Integer division that reports division by zero instead of failing, and
/// refuses the one overflowing dividend/divisor pair.
pub fn safe_divide(a: i32, b: i32) -> (r: Option<i32>)
    requires
        !(a == i32::MIN && b == -1),
    ensures
        b == 0 ==> r is None,
        b != 0 ==> r == Some(trunc_div(a as int, b as int) as i32),
{
    if b == 0 {
        return None;
    }
    let negative = (a < 0) != (b < 0);
    let magnitude_a: u64 = if a >= 0 {
        a as u64
    } else {
        (-(a as i64)) as u64
    };
    let magnitude_b: u64 = if b >= 0 {
        b as u64
    } else {
        (-(b as i64)) as u64
    };
    let q = magnitude_a / magnitude_b;
    proof {
        assert(magnitude_a == vstd::math::abs(a as int));
        assert(magnitude_b == vstd::math::abs(b as int));
        assert(q <= magnitude_a) by (nonlinear_arith)
            requires
                magnitude_b >= 1,
                q == magnitude_a as int / magnitude_b as int,
                magnitude_a >= 0,
        ;
    }
    if negative {
        Some((-(q as i64)) as i32)
    } else {
        Some(q as i32)
    }
}

/// Clamps a value into the inclusive range `min` to `max`.
pub fn clamp(value: i64, min: i64, max: i64) -> (r: i64)
    ensures
        r == (if value < min {
            min
        } else if value > max {
            max
        } else {
            value
        }),
{
    if value < min {
        min
    } else if value > max {
        max
    } else {
        value
    }
}

} // verus!
