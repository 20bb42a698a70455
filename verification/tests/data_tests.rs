use gradgraph::tensor::tensor::TensorError;
use gradgraph::{Data, Shape};

#[test]
fn data_new_buffer_matches_shape() {
    let shape = Shape::new([2usize, 3]);
    let d = Data::new(vec![1i64, 2, 3, 4, 5, 6], shape);
    assert_eq!(d.value.len(), d.shape.num_elements());
    assert_eq!(d.value, vec![1i64, 2, 3, 4, 5, 6]);
    assert_eq!(d.shape.dims, [2usize, 3]);
}

#[test]
fn data_random_buffer_matches_shape() {
    let d: Data<i64, 2> = Data::random(Shape::new([3usize, 4]));
    assert_eq!(d.value.len(), 12);
    assert_eq!(d.value.len(), d.shape.num_elements());
}

#[test]
fn data_random_scalar_shape() {
    let d: Data<u8, 1> = Data::random(Shape::new([5usize]));
    assert_eq!(d.value.len(), 5);
}

#[test]
fn data_random_zero_extent_gives_empty_buffer() {
    let d: Data<i64, 2> = Data::random(Shape::new([0usize, 7]));
    assert_eq!(d.value.len(), 0);
    assert_eq!(d.value.len(), d.shape.num_elements());
}

#[test]
fn data_from_array_is_rank_one() {
    let d: Data<i64, 1> = Data::from_array([7i64, 8, 9]);
    assert_eq!(d.value, vec![7i64, 8, 9]);
    assert_eq!(d.shape.dims, [3usize]);
    assert_eq!(d.value.len(), d.shape.num_elements());
}

#[test]
fn data_from_empty_array() {
    let d: Data<i64, 1> = Data::from_array([]);
    assert_eq!(d.value.len(), 0);
    assert_eq!(d.shape.dims, [0usize]);
}

#[test]
fn tensor_error_carries_message() {
    let e = TensorError::ReshapeError(String::from("rank mismatch"));
    assert!(matches!(e, TensorError::ReshapeError(_)));
}
