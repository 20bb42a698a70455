use vstd::prelude::*;

use crate::graph::node::{
    materialize_grad, materialize_grad_dims, BinaryOpNode, Node, NodeId, RootNode, UnaryOpNode,
    Zeros,
};
use crate::graph::payload::{sum_models, Payload};

verus! {

/// A shared reference to one node of a graph. Handles are cheap to clone —
/// copying an index, not the node — and every clone refers to the same node
/// record, so a gradient update made through one handle is observed through
/// all of them.
#[derive(Debug, Clone, Copy, PartialEq, Eq, Structural)]
pub struct NodeHandle {
    idx: usize,
}

impl NodeHandle {
    /// The position of the referenced node record in its graph.
    pub closed spec fn index_spec(&self) -> int {
        self.idx as int
    }
}

/// The tagged union of the structural node kinds a graph holds: a leaf, a
/// single-input operation, or a two-input operation. Each kind satisfies the
/// node contract, so the graph can treat them uniformly.
#[derive(Debug)]
pub enum GraphNode<Out> {
    Root(RootNode<Out>),
    Unary(UnaryOpNode<Out>),
    Binary(BinaryOpNode<Out>),
}

impl<Out: Payload + Zeros<Out>> Node<Out> for GraphNode<Out> {
    open spec fn id_spec(&self) -> NodeId {
        match self {
            GraphNode::Root(n) => n.id_spec(),
            GraphNode::Unary(n) => n.id_spec(),
            GraphNode::Binary(n) => n.id_spec(),
        }
    }

    open spec fn value_model(&self) -> Seq<int> {
        match self {
            GraphNode::Root(n) => n.value_model(),
            GraphNode::Unary(n) => n.value_model(),
            GraphNode::Binary(n) => n.value_model(),
        }
    }

    open spec fn value_dims(&self) -> Seq<usize> {
        match self {
            GraphNode::Root(n) => n.value_dims(),
            GraphNode::Unary(n) => n.value_dims(),
            GraphNode::Binary(n) => n.value_dims(),
        }
    }

    open spec fn grad_model(&self) -> Option<Seq<int>> {
        match self {
            GraphNode::Root(n) => n.grad_model(),
            GraphNode::Unary(n) => n.grad_model(),
            GraphNode::Binary(n) => n.grad_model(),
        }
    }

    open spec fn grad_dims(&self) -> Option<Seq<usize>> {
        match self {
            GraphNode::Root(n) => n.grad_dims(),
            GraphNode::Unary(n) => n.grad_dims(),
            GraphNode::Binary(n) => n.grad_dims(),
        }
    }

    fn id(&self) -> (r: NodeId) {
        match self {
            GraphNode::Root(n) => n.id(),
            GraphNode::Unary(n) => n.id(),
            GraphNode::Binary(n) => n.id(),
        }
    }

    fn value(&self) -> (r: Out) {
        match self {
            GraphNode::Root(n) => n.value(),
            GraphNode::Unary(n) => n.value(),
            GraphNode::Binary(n) => n.value(),
        }
    }

    fn grad(&mut self) -> (r: Out) {
        match self {
            GraphNode::Root(n) => n.grad(),
            GraphNode::Unary(n) => n.grad(),
            GraphNode::Binary(n) => n.grad(),
        }
    }

    fn update_grad(&mut self, grad: Out) {
        match self {
            GraphNode::Root(n) => n.update_grad(grad),
            GraphNode::Unary(n) => n.update_grad(grad),
            GraphNode::Binary(n) => n.update_grad(grad),
        }
    }
}

/// The arena that owns every node of one computation graph. Nodes are created
/// through the three factory methods — root, unary, binary — and referenced
/// everywhere else only by the shared handles those factories return, so
/// callers never assemble the sharing machinery by hand. Shared read access
/// and serialized gradient mutation both go through the arena, one caller at
/// a time.
#[derive(Debug)]
pub struct Graph<Out> {
    nodes: Vec<GraphNode<Out>>,
}

impl<Out: Payload + Zeros<Out>> Graph<Out> {
    /// How many nodes the graph holds.
    pub closed spec fn len_spec(&self) -> nat {
        self.nodes@.len()
    }

    /// Whether a handle refers to a node of this graph.
    pub open spec fn valid_handle(&self, h: NodeHandle) -> bool {
        0 <= h.index_spec() < self.len_spec()
    }

    /// The node record a handle refers to.
    pub closed spec fn node_at(&self, h: NodeHandle) -> GraphNode<Out> {
        self.nodes@[h.index_spec()]
    }

    /// An empty graph.
    pub fn new() -> (g: Self)
        ensures
            g.len_spec() == 0,
    {
        Graph { nodes: Vec::new() }
    }

    /// Appends a node record and hands back the shared handle for it; every
    /// existing handle keeps referring to the node it referred to before.
    fn push_node(&mut self, node: GraphNode<Out>) -> (h: NodeHandle)
        ensures
            final(self).len_spec() == old(self).len_spec() + 1,
            h.index_spec() == old(self).len_spec(),
            final(self).valid_handle(h),
            final(self).node_at(h) == node,
            forall|h2: NodeHandle|
                old(self).valid_handle(h2) ==> final(self).valid_handle(h2)
                    && final(self).node_at(h2) == old(self).node_at(h2),
    {
        let h = NodeHandle { idx: self.nodes.len() };
        self.nodes.push(node);
        h
    }

    /// Build-and-wrap a root node from a bare value: a ready-to-share handle
    /// to a fresh leaf with no gradient.
    pub fn root(&mut self, value: Out) -> (h: NodeHandle)
        ensures
            final(self).len_spec() == old(self).len_spec() + 1,
            h.index_spec() == old(self).len_spec(),
            final(self).valid_handle(h),
            final(self).node_at(h) is Root,
            final(self).node_at(h).value_model() == value.model(),
            final(self).node_at(h).value_dims() == value.dims_model(),
            final(self).node_at(h).grad_model() == None::<Seq<int>>,
            final(self).node_at(h).grad_dims() == None::<Seq<usize>>,
            forall|h2: NodeHandle|
                old(self).valid_handle(h2) ==> final(self).valid_handle(h2)
                    && final(self).node_at(h2) == old(self).node_at(h2),
    {
        self.push_node(GraphNode::Root(RootNode::new(value)))
    }

    /// Build-and-wrap a single-input operation node from an input handle and
    /// the output value computed for it.
    pub fn unary(&mut self, input: NodeHandle, value: Out) -> (h: NodeHandle)
        requires
            old(self).valid_handle(input),
        ensures
            final(self).len_spec() == old(self).len_spec() + 1,
            h.index_spec() == old(self).len_spec(),
            final(self).valid_handle(h),
            final(self).node_at(h) matches GraphNode::Unary(n) && n.input == input,
            final(self).node_at(h).value_model() == value.model(),
            final(self).node_at(h).value_dims() == value.dims_model(),
            final(self).node_at(h).grad_model() == None::<Seq<int>>,
            final(self).node_at(h).grad_dims() == None::<Seq<usize>>,
            forall|h2: NodeHandle|
                old(self).valid_handle(h2) ==> final(self).valid_handle(h2)
                    && final(self).node_at(h2) == old(self).node_at(h2),
    {
        self.push_node(GraphNode::Unary(UnaryOpNode::new(input, value)))
    }

    /// Build-and-wrap a two-input operation node from its operand handles and
    /// the output value computed for them.
    pub fn binary(&mut self, lhs: NodeHandle, rhs: NodeHandle, value: Out) -> (h: NodeHandle)
        requires
            old(self).valid_handle(lhs),
            old(self).valid_handle(rhs),
        ensures
            final(self).len_spec() == old(self).len_spec() + 1,
            h.index_spec() == old(self).len_spec(),
            final(self).valid_handle(h),
            final(self).node_at(h) matches GraphNode::Binary(n) && n.lhs == lhs && n.rhs == rhs,
            final(self).node_at(h).value_model() == value.model(),
            final(self).node_at(h).value_dims() == value.dims_model(),
            final(self).node_at(h).grad_model() == None::<Seq<int>>,
            final(self).node_at(h).grad_dims() == None::<Seq<usize>>,
            forall|h2: NodeHandle|
                old(self).valid_handle(h2) ==> final(self).valid_handle(h2)
                    && final(self).node_at(h2) == old(self).node_at(h2),
    {
        self.push_node(GraphNode::Binary(BinaryOpNode::new(lhs, rhs, value)))
    }

    /// The identity of the node a handle refers to.
    pub fn id(&self, h: NodeHandle) -> (r: NodeId)
        requires
            self.valid_handle(h),
        ensures
            r == self.node_at(h).id_spec(),
    {
        let node = &self.nodes[h.idx];
        node.id()
    }

    /// The forward value of the node a handle refers to; a pure read.
    pub fn value(&self, h: NodeHandle) -> (r: Out)
        requires
            self.valid_handle(h),
        ensures
            r.model() == self.node_at(h).value_model(),
            r.dims_model() == self.node_at(h).value_dims(),
    {
        let node = &self.nodes[h.idx];
        node.value()
    }

    /// The accumulated gradient of the node a handle refers to, materialized
    /// as the additive zero of its value on first access. No other node
    /// changes.
    pub fn grad(&mut self, h: NodeHandle) -> (r: Out)
        requires
            old(self).valid_handle(h),
        ensures
            final(self).len_spec() == old(self).len_spec(),
            r.model() == materialize_grad(
                old(self).node_at(h).grad_model(),
                old(self).node_at(h).value_model(),
            ),
            r.dims_model() == materialize_grad_dims(
                old(self).node_at(h).grad_dims(),
                old(self).node_at(h).value_dims(),
            ),
            final(self).node_at(h).grad_model() == Some(r.model()),
            final(self).node_at(h).grad_dims() == Some(r.dims_model()),
            final(self).node_at(h).value_model() == old(self).node_at(h).value_model(),
            final(self).node_at(h).value_dims() == old(self).node_at(h).value_dims(),
            final(self).node_at(h).id_spec() == old(self).node_at(h).id_spec(),
            forall|h2: NodeHandle|
                old(self).valid_handle(h2) && h2 != h ==> final(self).node_at(h2) == old(self).node_at(h2),
    {
        let node = &mut self.nodes[h.idx];
        node.grad()
    }

    /// Adds one contribution to the gradient of the node a handle refers to,
    /// on top of the lazily materialized zero. No other node changes, so every
    /// handle cloned from the same node observes the new gradient.
    pub fn update_grad(&mut self, h: NodeHandle, grad: Out)
        requires
            old(self).valid_handle(h),
            Out::addable(
                materialize_grad(
                    old(self).node_at(h).grad_model(),
                    old(self).node_at(h).value_model(),
                ),
                grad.model(),
            ),
        ensures
            final(self).len_spec() == old(self).len_spec(),
            final(self).node_at(h).grad_model() == Some(
                sum_models(
                    materialize_grad(
                        old(self).node_at(h).grad_model(),
                        old(self).node_at(h).value_model(),
                    ),
                    grad.model(),
                ),
            ),
            final(self).node_at(h).grad_dims() == Some(
                materialize_grad_dims(
                    old(self).node_at(h).grad_dims(),
                    old(self).node_at(h).value_dims(),
                ),
            ),
            final(self).node_at(h).value_model() == old(self).node_at(h).value_model(),
            final(self).node_at(h).value_dims() == old(self).node_at(h).value_dims(),
            final(self).node_at(h).id_spec() == old(self).node_at(h).id_spec(),
            forall|h2: NodeHandle|
                old(self).valid_handle(h2) && h2 != h ==> final(self).node_at(h2) == old(self).node_at(h2),
    {
        let node = &mut self.nodes[h.idx];
        node.update_grad(grad);
    }
}

/// Handles are aliases, not copies of state: two handles that are equal — as
/// a clone of a handle is — refer to the very same node record, so a gradient
/// written through one is the gradient read through the other.
pub proof fn lemma_shared_handle_aliasing<Out: Payload + Zeros<Out>>(
    g: Graph<Out>,
    a: NodeHandle,
    b: NodeHandle,
)
    requires
        a == b,
        g.valid_handle(a),
    ensures
        g.valid_handle(b),
        g.node_at(a) == g.node_at(b),
{
}

/// A gradient update made through one handle is observed through every handle
/// cloned from the same node: when `post` is the state `update_grad` leaves
/// behind for handle `a`, the gradient read through the equal handle `b` is
/// the old gradient plus the contribution — shared mutable state, not a copy.
pub proof fn lemma_update_visible_through_alias<Out: Payload + Zeros<Out>>(
    pre: Graph<Out>,
    post: Graph<Out>,
    a: NodeHandle,
    b: NodeHandle,
    contribution: Out,
)
    requires
        a == b,
        pre.valid_handle(a),
        post.len_spec() == pre.len_spec(),
        post.node_at(a).grad_model() == Some(
            sum_models(
                materialize_grad(pre.node_at(a).grad_model(), pre.node_at(a).value_model()),
                contribution.model(),
            ),
        ),
    ensures
        post.valid_handle(b),
        post.node_at(b).grad_model() == Some(
            sum_models(
                materialize_grad(pre.node_at(b).grad_model(), pre.node_at(b).value_model()),
                contribution.model(),
            ),
        ),
{
}

} // verus!
