use vstd::prelude::*;

use crate::graph::node::{Ones, Zeros};
use crate::tensor::data::Data;
use crate::tensor::shape::Shape;

verus! {

/// Pointwise sum of two models; the result has the length of the first.
pub open spec fn sum_models(a: Seq<int>, b: Seq<int>) -> Seq<int> {
    Seq::new(a.len(), |i: int| a[i] + b[i])
}

/// Pointwise product of two models; the result has the length of the first.
pub open spec fn prod_models(a: Seq<int>, b: Seq<int>) -> Seq<int> {
    Seq::new(a.len(), |i: int| a[i] * b[i])
}

/// The all-zero model of a given length.
pub open spec fn zero_model(len: nat) -> Seq<int> {
    Seq::new(len, |i: int| 0)
}

/// The all-one model of a given length.
pub open spec fn one_model(len: nat) -> Seq<int> {
    Seq::new(len, |i: int| 1)
}

/// The algebraic capability contract a type must satisfy to serve as a node's
/// value: it abstracts to a flat sequence of integers (its model), it can be
/// copied, and it supports pointwise addition and multiplication on values
/// whose sums and products are representable. Gradient accumulation needs the
/// copy and the addition; operation nodes built on top of the graph need the
/// multiplication for chain-rule products. Addition of models is pointwise
/// integer addition, which is commutative and associative, so accumulated
/// gradients do not depend on the order in which contributions arrive.
pub trait Payload: Sized {
    /// The mathematical content of a value: one integer per element. A scalar
    /// models as a single-element sequence, a tensor as its flat buffer.
    spec fn model(&self) -> Seq<int>;

    /// The dimensions of a value: the extents of a tensor's shape, and a fixed
    /// one-axis, one-element rendering for a scalar.
    spec fn dims_model(&self) -> Seq<usize>;

    /// Whether the pointwise sum of two models is representable in `Self`.
    spec fn addable(a: Seq<int>, b: Seq<int>) -> bool;

    /// Whether the pointwise product of two models is representable in `Self`.
    spec fn mullable(a: Seq<int>, b: Seq<int>) -> bool;

    /// Only models of equal length can be added.
    proof fn addable_lengths(a: Seq<int>, b: Seq<int>)
        requires
            Self::addable(a, b),
        ensures
            a.len() == b.len(),
    ;

    /// An owned copy with the same content and dimensions.
    fn dup(&self) -> (r: Self)
        ensures
            r.model() == self.model(),
            r.dims_model() == self.dims_model(),
    ;

    /// Pointwise addition; the result keeps the dimensions of `self`.
    fn add(self, other: Self) -> (r: Self)
        requires
            Self::addable(self.model(), other.model()),
        ensures
            r.model() == sum_models(self.model(), other.model()),
            r.dims_model() == self.dims_model(),
    ;

    /// Pointwise multiplication; the result keeps the dimensions of `self`.
    fn mul(self, other: Self) -> (r: Self)
        requires
            Self::mullable(self.model(), other.model()),
        ensures
            r.model() == prod_models(self.model(), other.model()),
            r.dims_model() == self.dims_model(),
    ;
}

impl Payload for i64 {
    open spec fn model(&self) -> Seq<int> {
        seq![*self as int]
    }

    open spec fn dims_model(&self) -> Seq<usize> {
        seq![1usize]
    }

    open spec fn addable(a: Seq<int>, b: Seq<int>) -> bool {
        &&& a.len() == 1
        &&& b.len() == 1
        &&& i64::MIN <= a[0] + b[0] <= i64::MAX
    }

    open spec fn mullable(a: Seq<int>, b: Seq<int>) -> bool {
        &&& a.len() == 1
        &&& b.len() == 1
        &&& i64::MIN <= a[0] * b[0] <= i64::MAX
    }

    proof fn addable_lengths(a: Seq<int>, b: Seq<int>) {
    }

    fn dup(&self) -> (r: Self) {
        *self
    }

    fn add(self, other: Self) -> (r: Self) {
        let r = self + other;
        proof {
            assert(r.model() =~= sum_models(self.model(), other.model()));
        }
        r
    }

    fn mul(self, other: Self) -> (r: Self) {
        let r = self * other;
        proof {
            assert(r.model() =~= prod_models(self.model(), other.model()));
        }
        r
    }
}

impl<const D: usize> Payload for Data<i64, D> {
    open spec fn model(&self) -> Seq<int> {
        Seq::new(self.value@.len(), |i: int| self.value@[i] as int)
    }

    open spec fn dims_model(&self) -> Seq<usize> {
        self.shape.dims@
    }

    open spec fn addable(a: Seq<int>, b: Seq<int>) -> bool {
        &&& a.len() == b.len()
        &&& forall|i: int| 0 <= i < a.len() ==> i64::MIN <= #[trigger] (a[i] + b[i]) <= i64::MAX
    }

    open spec fn mullable(a: Seq<int>, b: Seq<int>) -> bool {
        &&& a.len() == b.len()
        &&& forall|i: int| 0 <= i < a.len() ==> i64::MIN <= #[trigger] (a[i] * b[i]) <= i64::MAX
    }

    proof fn addable_lengths(a: Seq<int>, b: Seq<int>) {
    }

    fn dup(&self) -> (r: Self)
        ensures
            r.shape == self.shape,
            r.value@ == self.value@,
    {
        let n = self.value.len();
        let mut value: Vec<i64> = Vec::new();
        for i in 0..n
            invariant
                n == self.value@.len(),
                value@.len() == i,
                forall|j: int| 0 <= j < i ==> value@[j] == self.value@[j],
        {
            value.push(self.value[i]);
        }
        let r = Data { value, shape: Shape { dims: self.shape.dims } };
        proof {
            assert(r.model() =~= self.model());
        }
        r
    }

    fn add(self, other: Self) -> (r: Self)
        ensures
            r.shape == self.shape,
    {
        let n = self.value.len();
        let mut value: Vec<i64> = Vec::new();
        for i in 0..n
            invariant
                n == self.value@.len(),
                Self::addable(self.model(), other.model()),
                n == other.value@.len(),
                value@.len() == i,
                forall|j: int| 0 <= j < i ==> value@[j] == self.value@[j] + other.value@[j],
        {
            proof {
                assert(self.model()[i as int] + other.model()[i as int] == self.value@[i as int]
                    + other.value@[i as int]);
            }
            value.push(self.value[i] + other.value[i]);
        }
        let r = Data { value, shape: self.shape };
        proof {
            assert(r.model() =~= sum_models(self.model(), other.model()));
        }
        r
    }

    fn mul(self, other: Self) -> (r: Self)
        ensures
            r.shape == self.shape,
    {
        let n = self.value.len();
        let mut value: Vec<i64> = Vec::new();
        for i in 0..n
            invariant
                n == self.value@.len(),
                Self::mullable(self.model(), other.model()),
                n == other.value@.len(),
                value@.len() == i,
                forall|j: int| 0 <= j < i ==> value@[j] == self.value@[j] * other.value@[j],
        {
            proof {
                assert(self.model()[i as int] * other.model()[i as int] == self.value@[i as int]
                    * other.value@[i as int]);
            }
            value.push(self.value[i] * other.value[i]);
        }
        let r = Data { value, shape: self.shape };
        proof {
            assert(r.model() =~= prod_models(self.model(), other.model()));
        }
        r
    }
}

/// The model and dimensions determine a Data value outright: two tensors that
/// agree on both have the same buffer contents and the same shape. So a
/// contract that pins a result's model and dimensions pins the tensor itself.
pub proof fn lemma_data_model_determines_value<const D: usize>(a: Data<i64, D>, b: Data<i64, D>)
    requires
        a.model() == b.model(),
        a.dims_model() == b.dims_model(),
    ensures
        a.value@ == b.value@,
        a.shape.dims@ == b.shape.dims@,
{
    assert(a.value@.len() == a.model().len());
    assert(b.value@.len() == b.model().len());
    assert(forall|i: int| 0 <= i < a.value@.len() ==> #[trigger] a.value@[i] == b.value@[i]) by {
        assert(forall|i: int|
            0 <= i < a.value@.len() ==> a.model()[i] == #[trigger] a.value@[i] as int);
        assert(forall|i: int|
            0 <= i < b.value@.len() ==> b.model()[i] == #[trigger] b.value@[i] as int);
    }
    assert(a.value@ =~= b.value@);
}

impl<const D: usize> Zeros<Data<i64, D>> for Data<i64, D> {
    fn zeros(&self) -> (r: Data<i64, D>)
        ensures
            r.shape == self.shape,
    {
        let n = self.value.len();
        let mut value: Vec<i64> = Vec::new();
        for i in 0..n
            invariant
                value@.len() == i,
                forall|j: int| 0 <= j < i ==> value@[j] == 0i64,
        {
            value.push(0);
        }
        let r = Data { value, shape: Shape { dims: self.shape.dims } };
        proof {
            assert(r.model() =~= zero_model(self.model().len()));
        }
        r
    }
}

impl<const D: usize> Ones<Data<i64, D>> for Data<i64, D> {
    fn ones(&self) -> (r: Data<i64, D>)
        ensures
            r.shape == self.shape,
    {
        let n = self.value.len();
        let mut value: Vec<i64> = Vec::new();
        for i in 0..n
            invariant
                value@.len() == i,
                forall|j: int| 0 <= j < i ==> value@[j] == 1i64,
        {
            value.push(1);
        }
        let r = Data { value, shape: Shape { dims: self.shape.dims } };
        proof {
            assert(r.model() =~= one_model(self.model().len()));
        }
        r
    }
}

} // verus!
