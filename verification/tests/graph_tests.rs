use gradgraph::graph::handle::Graph;
use gradgraph::graph::node::{Node, NodeId, Ones, RootNode, Zeros};
use gradgraph::graph::payload::Payload;
use gradgraph::{Data, Shape};

#[test]
fn root_node_holds_value_and_no_grad() {
    let n = RootNode::new(5i64);
    assert_eq!(n.value, 5);
    assert!(n.grad.is_none());
}

#[test]
fn node_id_is_stable_and_cloneable() {
    let n = RootNode::new(5i64);
    let a: NodeId = n.id();
    let b: NodeId = n.id();
    assert_eq!(a, b);
    assert_eq!(a.clone(), a);
}

#[test]
fn node_ids_distinguish_nodes() {
    let n1 = RootNode::new(5i64);
    let n2 = RootNode::new(5i64);
    assert_ne!(n1.id(), n2.id());
}

#[test]
fn node_id_token_has_default_nanoid_length() {
    let n = RootNode::new(5i64);
    let printed = format!("{:?}", n.id);
    let frame = "NodeId { value: \"\" }";
    assert_eq!(printed.len(), frame.len() + 21);
}

#[test]
fn grad_before_update_is_zero_and_idempotent() {
    let mut n = RootNode::new(5i64);
    assert_eq!(n.grad(), 0);
    assert_eq!(n.grad(), 0);
    assert!(n.grad.is_some());
    assert_eq!(n.value(), 5);
}

#[test]
fn grad_of_tensor_root_is_zero_of_matching_shape() {
    let mut n = RootNode::new(Data::from_array([1i64, 2, 3]));
    let g = n.grad();
    assert_eq!(g.value, vec![0i64, 0, 0]);
    assert_eq!(g.shape.dims, [3usize]);
    let again = n.grad();
    assert_eq!(again.value, vec![0i64, 0, 0]);
}

#[test]
fn value_read_does_not_materialize_grad() {
    let n = RootNode::new(7i64);
    assert_eq!(n.value(), 7);
    assert!(n.grad.is_none());
}

#[test]
fn update_grad_accumulates_sum() {
    let mut n = RootNode::new(5i64);
    n.update_grad(3);
    n.update_grad(4);
    assert_eq!(n.grad(), 7);
}

#[test]
fn update_grad_order_does_not_matter() {
    let mut a = RootNode::new(Data::from_array([1i64, 2, 3]));
    a.update_grad(Data::from_array([1i64, 1, 1]));
    a.update_grad(Data::from_array([2i64, 2, 2]));
    let ga = a.grad();
    assert_eq!(ga.value, vec![3i64, 3, 3]);

    let mut b = RootNode::new(Data::from_array([1i64, 2, 3]));
    b.update_grad(Data::from_array([2i64, 2, 2]));
    b.update_grad(Data::from_array([1i64, 1, 1]));
    let gb = b.grad();
    assert_eq!(gb.value, vec![3i64, 3, 3]);
}

#[test]
fn shared_handles_alias_one_node() {
    let mut g: Graph<i64> = Graph::new();
    let a = g.root(5);
    let b = a.clone();
    g.update_grad(a, 3);
    assert_eq!(g.grad(b), 3);
    assert_eq!(g.value(b), 5);
}

#[test]
fn graph_grad_is_zero_before_updates() {
    let mut g: Graph<i64> = Graph::new();
    let h = g.root(9);
    assert_eq!(g.grad(h), 0);
    assert_eq!(g.grad(h), 0);
}

#[test]
fn graph_accumulates_across_handles() {
    let mut g: Graph<Data<i64, 1>> = Graph::new();
    let h = g.root(Data::from_array([1i64, 2, 3]));
    let h2 = h.clone();
    g.update_grad(h, Data::from_array([1i64, 1, 1]));
    g.update_grad(h2, Data::from_array([2i64, 2, 2]));
    assert_eq!(g.grad(h).value, vec![3i64, 3, 3]);
}

#[test]
fn graph_factories_build_each_kind() {
    let mut g: Graph<i64> = Graph::new();
    let x = g.root(2);
    let y = g.root(3);
    let neg = g.unary(x, -2);
    let sum = g.binary(x, y, 5);
    assert_eq!(g.value(x), 2);
    assert_eq!(g.value(y), 3);
    assert_eq!(g.value(neg), -2);
    assert_eq!(g.value(sum), 5);
    assert_ne!(g.id(x), g.id(sum));
}

#[test]
fn op_nodes_accumulate_like_roots() {
    let mut g: Graph<i64> = Graph::new();
    let x = g.root(2);
    let y = g.unary(x, 4);
    g.update_grad(y, 10);
    g.update_grad(y, 1);
    assert_eq!(g.grad(y), 11);
    assert_eq!(g.grad(x), 0);
}

#[test]
fn payload_add_and_mul_are_pointwise() {
    let a = Data::from_array([1i64, 2, 3]);
    let b = Data::from_array([4i64, 5, 6]);
    let s = Payload::add(a, b);
    assert_eq!(s.value, vec![5i64, 7, 9]);
    let c = Data::from_array([1i64, 2, 3]);
    let d = Data::from_array([4i64, 5, 6]);
    let p = Payload::mul(c, d);
    assert_eq!(p.value, vec![4i64, 10, 18]);
    assert_eq!(Payload::add(2i64, 3i64), 5);
    assert_eq!(Payload::mul(2i64, 3i64), 6);
}

#[test]
fn zeros_and_ones_match_template_length() {
    let t = Data::from_array([5i64, 6]);
    let z: Data<i64, 1> = t.zeros();
    assert_eq!(z.value, vec![0i64, 0]);
    let o: Data<i64, 1> = t.ones();
    assert_eq!(o.value, vec![1i64, 1]);
    let zs: i64 = 9i64.zeros();
    assert_eq!(zs, 0);
    let os: i64 = 9i64.ones();
    assert_eq!(os, 1);
}

#[test]
fn graph_grad_zero_matches_value_shape() {
    let mut g: Graph<Data<i64, 1>> = Graph::new();
    let h = g.root(Data::from_array([4i64, 5, 6]));
    let z = g.grad(h);
    assert_eq!(z.value, vec![0i64, 0, 0]);
    assert_eq!(z.shape.dims, [3usize]);
    let v = g.value(h);
    assert_eq!(v.value, vec![4i64, 5, 6]);
    assert_eq!(v.shape.dims, [3usize]);
}
