//! Shapes of arrays and chunks: sequences of extents.
use vstd::prelude::*;

use crate::data_type::N5DataType;

verus! {

/// Number of elements of an array of the given shape.
pub open spec fn element_count(shape: Seq<u64>) -> nat
    decreases shape.len(),
{
    if shape.len() == 0 {
        1
    } else {
        element_count(shape.drop_last()) * (shape.last() as nat)
    }
}

/// Whether no extent of the shape is zero.
pub open spec fn all_nonzero(shape: Seq<u64>) -> bool {
    forall|i: int| 0 <= i < shape.len() ==> shape[i] != 0
}

/// Number of bytes of a decoded chunk of the given shape and element type.
pub open spec fn chunk_bytes(shape: Seq<u64>, data_type: N5DataType) -> nat {
    element_count(shape) * data_type.spec_size()
}

/// Whether a chunk of the given shape and element type fits: no extent is
/// zero, and twice the number of its bytes is a `usize`. A chunk that is
/// held in memory fits.
pub open spec fn fits(shape: Seq<u64>, data_type: N5DataType) -> bool {
    all_nonzero(shape) && 2 * chunk_bytes(shape, data_type) <= usize::MAX
}

/// Whether no extent is zero and the number of elements, and that number
/// times `weight`, are at most `limit`.
pub open spec fn spec_all_fit(shape: Seq<u64>, weight: nat, limit: nat) -> bool {
    &&& all_nonzero(shape)
    &&& element_count(shape) <= limit
    &&& element_count(shape) * weight <= limit
}

/// Tells whether no extent is zero and the number of elements, and that
/// number times `weight`, are at most `limit`.
pub fn all_fit(shape: &[u64], weight: usize, limit: u64) -> (told: bool)
    ensures
        told == spec_all_fit(shape@, weight as nat, limit as nat),
{
    // The greatest number of elements whose weight is within the limit.
    let most: u64 = if weight == 0 {
        limit
    } else {
        limit / (weight as u64)
    };
    proof {
        if weight != 0 {
            lemma_quotient_bounds(limit as nat, weight as nat);
        }
    }
    if most == 0 {
        // Even one element is too many; and a shape has at least one,
        // unless an extent is zero.
        proof {
            if all_nonzero(shape@) {
                lemma_count_positive(shape@);
                lemma_weighs(1, element_count(shape@), weight as nat);
            }
        }
        return false;
    }
    let mut count: u64 = 1;
    let mut i: usize = 0;
    assert(shape@.take(0).len() == 0);
    while i < shape.len()
        invariant
            i <= shape@.len(),
            forall|j: int| 0 <= j < i ==> shape@[j] != 0,
            count == element_count(shape@.take(i as int)),
            1 <= count <= most,
            most <= limit,
            weight == 0 ==> most == limit,
            weight != 0 ==> most * weight <= limit < (most + 1) * weight,
        decreases shape@.len() - i,
    {
        let extent = shape[i];
        let ghost next = shape@.take(i + 1);
        proof {
            assert(next.drop_last() =~= shape@.take(i as int));
            assert(next.last() == extent);
        }
        if extent == 0 {
            return false;
        }
        if extent > most / count {
            // The elements up to here are more than `most` already.
            proof {
                lemma_exceeds(count as nat, extent as nat, most as nat);
                if all_nonzero(shape@) {
                    lemma_prefix_count(shape@, i + 1);
                    lemma_weighs(most as nat + 1, element_count(shape@), weight as nat);
                }
            }
            return false;
        }
        proof {
            lemma_within(count as nat, extent as nat, most as nat);
        }
        count = count * extent;
        i += 1;
    }
    proof {
        assert(shape@.take(shape@.len() as int) =~= shape@);
        lemma_weighs(count as nat, most as nat, weight as nat);
    }
    true
}

/// Tells whether no extent is zero.
pub fn no_extent_is_zero(shape: &[u64]) -> (told: bool)
    ensures
        told == all_nonzero(shape@),
{
    let mut i: usize = 0;
    while i < shape.len()
        invariant
            i <= shape@.len(),
            forall|j: int| 0 <= j < i ==> shape@[j] != 0,
        decreases shape@.len() - i,
    {
        if shape[i] == 0 {
            return false;
        }
        i += 1;
    }
    true
}

/// Tells whether a chunk of the given shape and element type fits.
pub fn chunk_fits(shape: &[u64], data_type: N5DataType) -> (told: bool)
    ensures
        told == fits(shape@, data_type),
{
    let weight = 2 * data_type.size();
    let told = all_fit(shape, weight, usize::MAX as u64);
    proof {
        let count = element_count(shape@);
        assert(count * (2 * data_type.spec_size()) == 2 * (count * data_type.spec_size()))
            by (nonlinear_arith);
        if all_nonzero(shape@) {
            lemma_count_positive(shape@);
            lemma_weighs(count, count, 1);
            assert(count * 1 <= count * (2 * data_type.spec_size())) by (nonlinear_arith)
                requires
                    2 * data_type.spec_size() >= 1,
            ;
        }
    }
    told
}

/// Division by a weight: the quotient times the weight is within the
/// limit, and one more is not.
proof fn lemma_quotient_bounds(limit: nat, weight: nat)
    requires
        weight > 0,
    ensures
        (limit / weight) * weight <= limit < (limit / weight + 1) * weight,
{
    assert((limit / weight) * weight <= limit < (limit / weight + 1) * weight)
        by (nonlinear_arith)
        requires
            weight > 0,
    ;
}

/// More elements weigh no less.
proof fn lemma_weighs(few: nat, many: nat, weight: nat)
    requires
        few <= many,
    ensures
        few * weight <= many * weight,
{
    assert(few * weight <= many * weight) by (nonlinear_arith)
        requires
            few <= many,
    ;
}

/// An extent above the quotient takes the count above the bound.
proof fn lemma_exceeds(count: nat, extent: nat, most: nat)
    requires
        count >= 1,
        extent > most / count,
    ensures
        count * extent > most,
{
    assert(count * extent > most) by (nonlinear_arith)
        requires
            count >= 1,
            extent >= most / count + 1,
    ;
}

/// An extent within the quotient keeps the count within the bound.
proof fn lemma_within(count: nat, extent: nat, most: nat)
    requires
        count >= 1,
        extent >= 1,
        extent <= most / count,
    ensures
        1 <= count * extent <= most,
{
    assert(1 <= count * extent <= most) by (nonlinear_arith)
        requires
            count >= 1,
            extent >= 1,
            extent <= most / count,
    ;
}

/// Walks the shape once and multiplies its extents.
pub fn count_elements(shape: &[u64]) -> (count: u64)
    requires
        all_nonzero(shape@),
        element_count(shape@) <= u64::MAX,
    ensures
        count == element_count(shape@),
{
    let mut count: u64 = 1;
    let mut i: usize = 0;
    assert(shape@.take(0).len() == 0);
    while i < shape.len()
        invariant
            i <= shape@.len(),
            all_nonzero(shape@),
            element_count(shape@) <= u64::MAX,
            count == element_count(shape@.take(i as int)),
        decreases shape@.len() - i,
    {
        proof {
            let next = shape@.take(i + 1);
            assert(next.drop_last() =~= shape@.take(i as int));
            assert(next.last() == shape@[i as int]);
            lemma_prefix_count(shape@, i + 1);
        }
        count = count * shape[i];
        i += 1;
    }
    assert(shape@.take(shape@.len() as int) =~= shape@);
    count
}

/// The elements of a leading part of a shape without zero extents are no
/// more than those of the whole.
proof fn lemma_prefix_count(shape: Seq<u64>, n: int)
    requires
        all_nonzero(shape),
        0 <= n <= shape.len(),
    ensures
        1 <= element_count(shape.take(n)) <= element_count(shape),
    decreases shape.len() - n,
{
    lemma_count_positive(shape.take(n));
    if n == shape.len() {
        assert(shape.take(n) =~= shape);
    } else {
        let next = shape.take(n + 1);
        assert(next.drop_last() =~= shape.take(n));
        assert(next.last() == shape[n]);
        lemma_prefix_count(shape, n + 1);
        let count = element_count(shape.take(n));
        let extent = shape[n] as nat;
        assert(count * 1 <= count * extent) by (nonlinear_arith)
            requires
                extent >= 1,
        ;
    }
}

/// A shape without zero extents has at least one element.
proof fn lemma_count_positive(shape: Seq<u64>)
    requires
        all_nonzero(shape),
    ensures
        1 <= element_count(shape),
    decreases shape.len(),
{
    if shape.len() > 0 {
        lemma_count_positive(shape.drop_last());
        assert(1 <= element_count(shape.drop_last()) * (shape.last() as nat))
            by (nonlinear_arith)
            requires
                1 <= element_count(shape.drop_last()),
                1 <= shape.last() as nat,
        ;
    }
}

/// Copies a slice into a vector.
pub fn copy_of<T: Copy>(items: &[T]) -> (copy: Vec<T>)
    ensures
        copy@ == items@,
{
    let mut copy: Vec<T> = Vec::with_capacity(items.len());
    let mut i: usize = 0;
    while i < items.len()
        invariant
            i <= items@.len(),
            copy@ == items@.take(i as int),
        decreases items@.len() - i,
    {
        copy.push(items[i]);
        assert(copy@ =~= items@.take(i + 1));
        i += 1;
    }
    assert(items@.take(items@.len() as int) =~= items@);
    copy
}

/// Copies a sequence of sizes back to front.
pub fn reversed(sizes: &[u64]) -> (result: Vec<u64>)
    ensures
        result@ == sizes@.reverse(),
{
    let n = sizes.len();
    let mut result: Vec<u64> = Vec::with_capacity(n);
    let mut i: usize = 0;
    while i < n
        invariant
            i <= n,
            n == sizes@.len(),
            result@.len() == i,
            forall|j: int| 0 <= j < i ==> result@[j] == sizes@[n - 1 - j],
        decreases n - i,
    {
        result.push(sizes[n - 1 - i]);
        i += 1;
    }
    assert(result@ =~= sizes@.reverse());
    result
}

} // verus!
