use vstd::prelude::*;

use crate::tensor::shape::{dims_product, Shape};
use rand::distributions::Standard;
use rand::prelude::Distribution;

verus! {

/// A flat value buffer paired with the shape that describes it. The buffer
/// length always equals the shape's element count; every construction path
/// establishes that invariant, and values are replaced rather than mutated.
#[derive(Debug, Clone, PartialEq)]
pub struct Data<P, const D: usize> {
    pub value: Vec<P>,
    pub shape: Shape<D>,
}

impl<P, const D: usize> Data<P, D> {
    /// The invariant every Data value satisfies: the buffer holds exactly one
    /// element per position the shape describes.
    pub open spec fn wf(&self) -> bool {
        self.value@.len() == dims_product(self.shape.dims@)
    }

    /// Pairs a buffer with a shape. The buffer length must equal the shape's
    /// element count; a mismatched pair is a construction-time contract
    /// violation and is rejected before the call.
    pub fn new(value: Vec<P>, shape: Shape<D>) -> (d: Data<P, D>)
        requires
            value@.len() == dims_product(shape.dims@),
        ensures
            d.value == value,
            d.shape == shape,
            d.wf(),
    {
        Data { value, shape }
    }
}

/// Relies on rand::random: draws one value of `T` from the Standard
/// distribution. Nothing is known of the result beyond its type.
pub assume_specification<T>[ rand::random::<T> ]() -> (r: T)
    where Standard: Distribution<T>,
;

impl<P, const D: usize> Data<P, D> where Standard: Distribution<P> {
    /// A buffer of `shape.num_elements()` independently drawn values paired
    /// with `shape`; a zero extent yields an empty buffer. Meant for test and
    /// initialization data, not production-quality sampling.
    pub fn random(shape: Shape<D>) -> (d: Data<P, D>)
        requires
            shape.product_fits(),
        ensures
            d.shape == shape,
            d.value@.len() == dims_product(shape.dims@),
            d.wf(),
    {
        let n = shape.num_elements();
        let mut value: Vec<P> = Vec::new();
        for _i in 0..n
            invariant
                value@.len() == _i,
        {
            value.push(rand::random());
        }
        Data { value, shape }
    }
}

impl<P: Copy> Data<P, 1> {
    /// Conversion from a fixed-size literal sequence: a rank-1 Data whose
    /// shape is `[A]` and whose buffer holds the sequence's elements in order.
    pub fn from_array<const A: usize>(elems: [P; A]) -> (d: Data<P, 1>)
        ensures
            d.value@ == elems@,
            d.value@.len() == A,
            d.shape.dims@ == seq![A],
            dims_product(d.shape.dims@) == A,
            d.wf(),
    {
        let mut value: Vec<P> = Vec::new();
        for i in 0..A
            invariant
                value@.len() == i,
                forall|j: int| 0 <= j < i ==> value@[j] == elems@[j],
        {
            value.push(elems[i]);
        }
        let d = Data { value, shape: Shape { dims: [A] } };
        proof {
            assert(d.shape.dims@ =~= seq![A]);
            assert(d.value@ =~= elems@);
            let sa: Seq<usize> = seq![A];
            assert(sa.drop_last() =~= Seq::<usize>::empty());
            assert(dims_product(Seq::<usize>::empty()) == 1);
            assert(sa.last() == A);
            assert(dims_product(sa) == dims_product(sa.drop_last()) * (A as int));
            assert(dims_product(sa) == A);
        }
        d
    }
}

} // verus!
