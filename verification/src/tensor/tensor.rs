use vstd::prelude::*;

use crate::tensor::data::Data;
use crate::tensor::shape::Shape;
use core::ops::Range;

verus! {

/// Failure conditions reported by tensor operations.
#[derive(Debug)]
pub enum TensorError {
    ReshapeError(String),
}

/// The base capability of any concrete tensor type: it knows its shape and
/// converts to and from the plain buffer-plus-shape representation.
pub trait TensorBase<P, const D: usize>: Sized {
    fn shape(&self) -> &Shape<D>;

    fn into_data(self) -> Data<P, D>;

    fn from(other: Data<P, D>) -> Self;

    fn empty(shape: Shape<D>) -> Self;
}

/// Elementwise addition, with both tensor-tensor and tensor-scalar forms.
pub trait TensorOpsAdd<P, const D: usize>: core::ops::Add<Self, Output = Self> + core::ops::Add<
    P,
    Output = Self,
> where Self: Sized {
    fn add(&self, other: &Self) -> Self;

    fn add_scalar(&self, other: &P) -> Self;
}

/// Matrix multiplication.
pub trait TensorOpsMatmul<P, const D: usize>: Sized {
    fn matmul(&self, other: &Self) -> Self;
}

/// Elementwise negation.
pub trait TensorOpsNeg<P, const D: usize>: core::ops::Neg where Self: Sized {
    fn neg(&self) -> Self;
}

/// Elementwise multiplication, with both tensor-tensor and tensor-scalar forms.
pub trait TensorOpsMul<P, const D: usize>: core::ops::Mul<P, Output = Self> + core::ops::Mul<
    Self,
    Output = Self,
> where Self: Sized {
    fn mul(&self, other: &Self) -> Self;

    fn mul_scalar(&self, other: &P) -> Self;
}

/// Reinterpretation of a tensor under a new shape of possibly different rank.
pub trait TensorOpsReshape<P, const D1: usize, const D2: usize, T: TensorBase<P, D2>> {
    fn reshape(&self, shape: Shape<D2>) -> T;
}

/// Range-based sub-tensor selection along the leading axes.
pub trait TensorOpsIndex<P, const D1: usize, const D2: usize>: Sized {
    fn index(&self, indexes: [Range<usize>; D2]) -> Self;
}

} // verus!
