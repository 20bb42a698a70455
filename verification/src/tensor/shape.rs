use vstd::arithmetic::mul::{lemma_mul_is_associative, lemma_mul_nonnegative};
use vstd::prelude::*;

use core::ops::Range;

verus! {

/// How many elements a range selects: its length, or zero for a backwards
/// range.
pub open spec fn range_len(r: Range<usize>) -> usize {
    if r.start <= r.end {
        (r.end - r.start) as usize
    } else {
        0
    }
}

/// The number of elements a tensor with the given extents holds: the product
/// of all extents. An empty extent list has product 1; any zero extent makes
/// the whole product zero.
pub open spec fn dims_product(dims: Seq<usize>) -> int
    decreases dims.len(),
{
    if dims.len() == 0 {
        1
    } else {
        dims_product(dims.drop_last()) * dims.last()
    }
}

pub proof fn lemma_dims_product_nonneg(dims: Seq<usize>)
    ensures
        dims_product(dims) >= 0,
    decreases dims.len(),
{
    if dims.len() > 0 {
        lemma_dims_product_nonneg(dims.drop_last());
        lemma_mul_nonnegative(dims_product(dims.drop_last()), dims.last() as int);
    }
}

/// Extending a dimension list by one extent multiplies its product by that
/// extent.
pub proof fn lemma_dims_product_push(dims: Seq<usize>, d: usize)
    ensures
        dims_product(dims.push(d)) == dims_product(dims) * d,
{
    assert(dims.push(d).drop_last() =~= dims);
}

/// A fixed-rank dimension vector: one non-negative extent per axis. The rank
/// is part of the type, so the extent list always has exactly `D` entries,
/// and a constructed value is never mutated in place.
#[derive(Debug, Clone, PartialEq)]
pub struct Shape<const D: usize> {
    pub dims: [usize; D],
}

impl<const D: usize> Shape<D> {
    /// Constructs a shape from exactly `D` extents.
    pub fn new(dims: [usize; D]) -> (s: Self)
        ensures
            s.dims@ == dims@,
    {
        Shape { dims }
    }

    /// True when every prefix product of the extents fits in `usize`, so the
    /// element count can be computed without overflow.
    pub open spec fn product_fits(&self) -> bool {
        forall|i: int| 0 <= i <= D ==> dims_product(self.dims@.take(i)) <= usize::MAX
    }

    /// The product of all extents; never allocates.
    pub fn num_elements(&self) -> (n: usize)
        requires
            self.product_fits(),
        ensures
            n == dims_product(self.dims@),
    {
        let mut n: usize = 1;
        assert(self.dims@.take(0) =~= Seq::<usize>::empty());
        for i in 0..D
            invariant
                self.product_fits(),
                n == dims_product(self.dims@.take(i as int)),
        {
            proof {
                assert(self.dims@.take(i + 1) =~= self.dims@.take(i as int).push(
                    self.dims@[i as int],
                ));
                lemma_dims_product_push(self.dims@.take(i as int), self.dims@[i as int]);
                lemma_dims_product_nonneg(self.dims@.take(i as int));
            }
            n = n * self.dims[i];
        }
        assert(self.dims@.take(D as int) =~= self.dims@);
        n
    }
}

impl<const D1: usize> Shape<D1> {
    /// A new shape of the same rank derived by range-based indexing: axis `i`
    /// gets the length of `indexes[i]` for the `D2` leading axes and keeps the
    /// original extent behind them. Indexing with more ranges than the rank is
    /// undefined and rejected before the call.
    pub fn index<const D2: usize>(&self, indexes: [Range<usize>; D2]) -> (s: Self)
        requires
            D2 <= D1,
        ensures
            forall|i: int| 0 <= i < D2 ==> s.dims@[i] == range_len(indexes@[i]),
            forall|i: int| D2 <= i < D1 ==> s.dims@[i] == self.dims@[i],
    {
        let mut dims = self.dims;
        for i in 0..D2
            invariant
                D2 <= D1,
                forall|j: int| 0 <= j < i ==> dims@[j] == range_len(indexes@[j]),
                forall|j: int| i <= j < D1 ==> dims@[j] == self.dims@[j],
        {
            let rg = &indexes[i];
            dims[i] = if rg.start <= rg.end {
                rg.end - rg.start
            } else {
                0
            };
        }
        Shape { dims }
    }
}

/// A dimension list's product splits at any point into the product of the
/// prefix times the product of the suffix.
pub proof fn lemma_dims_product_split(dims: Seq<usize>, k: int)
    requires
        0 <= k <= dims.len(),
    ensures
        dims_product(dims) == dims_product(dims.take(k)) * dims_product(dims.skip(k)),
    decreases dims.len() - k,
{
    if k == dims.len() {
        assert(dims.take(k) =~= dims);
        assert(dims.skip(k) =~= Seq::<usize>::empty());
    } else {
        let d = dims.last();
        let front = dims.drop_last();
        lemma_dims_product_split(front, k);
        assert(front.take(k) =~= dims.take(k));
        assert(front.skip(k) =~= dims.skip(k).drop_last());
        assert(dims.skip(k).last() == d);
        assert(dims_product(dims.skip(k)) == dims_product(front.skip(k)) * d);
        lemma_mul_is_associative(dims_product(dims.take(k)), dims_product(front.skip(k)), d as int);
    }
}

/// Range-based indexing scales the element count as expected: the count of
/// the derived shape is the product of the range lengths times the product of
/// the unsliced trailing extents.
pub proof fn lemma_index_num_elements<const D1: usize, const D2: usize>(
    original: Shape<D1>,
    indexes: [Range<usize>; D2],
    derived: Shape<D1>,
)
    requires
        D2 <= D1,
        forall|i: int| 0 <= i < D2 ==> derived.dims@[i] == range_len(indexes@[i]),
        forall|i: int| D2 <= i < D1 ==> derived.dims@[i] == original.dims@[i],
    ensures
        dims_product(derived.dims@) == dims_product(
            Seq::new(D2 as nat, |i: int| range_len(indexes@[i])),
        ) * dims_product(original.dims@.skip(D2 as int)),
{
    lemma_dims_product_split(derived.dims@, D2 as int);
    assert(derived.dims@.take(D2 as int) =~= Seq::new(
        D2 as nat,
        |i: int| range_len(indexes@[i]),
    ));
    assert(derived.dims@.skip(D2 as int) =~= original.dims@.skip(D2 as int));
}

} // verus!
