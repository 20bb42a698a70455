use gradgraph::Shape;

#[test]
fn shape_round_trip_dims() {
    let dims = [2usize, 3, 4];
    let s = Shape::new(dims);
    assert_eq!(s.dims, dims);
}

#[test]
fn shape_round_trip_rank_one() {
    let s = Shape::new([7usize]);
    assert_eq!(s.dims, [7usize]);
}

#[test]
fn shape_round_trip_rank_zero() {
    let s = Shape::new([]);
    assert_eq!(s.dims, [0usize; 0]);
}

#[test]
fn num_elements_is_product() {
    let s = Shape::new([2usize, 3, 4]);
    assert_eq!(s.num_elements(), 24);
}

#[test]
fn num_elements_empty_rank_is_one() {
    let s = Shape::new([]);
    assert_eq!(s.num_elements(), 1);
}

#[test]
fn num_elements_zero_extent_is_zero() {
    let s = Shape::new([3usize, 0, 2]);
    assert_eq!(s.num_elements(), 0);
}

#[test]
fn index_takes_range_lengths_and_keeps_tail() {
    let s = Shape::new([4usize, 5, 6]);
    let t = s.index([1..3, 0..5]);
    assert_eq!(t.dims, [2usize, 5, 6]);
    assert_eq!(t.num_elements(), 2 * 5 * 6);
}

#[test]
fn index_all_axes() {
    let s = Shape::new([4usize, 5]);
    let t = s.index([0..1, 2..4]);
    assert_eq!(t.dims, [1usize, 2]);
    assert_eq!(t.num_elements(), 2);
}

#[test]
fn index_no_axes_keeps_shape() {
    let s = Shape::new([4usize, 5]);
    let t = s.index([]);
    assert_eq!(t.dims, [4usize, 5]);
}

#[test]
fn index_backwards_range_selects_nothing() {
    let s = Shape::new([4usize, 5]);
    let t = s.index([3..1]);
    assert_eq!(t.dims, [0usize, 5]);
    assert_eq!(t.num_elements(), 0);
}

#[test]
fn shapes_compare_by_extents() {
    assert_eq!(Shape::new([2usize, 3]), Shape::new([2usize, 3]));
    assert_ne!(Shape::new([2usize, 3]), Shape::new([3usize, 2]));
}
