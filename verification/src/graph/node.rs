use vstd::prelude::*;

use crate::graph::handle::NodeHandle;
use crate::graph::payload::{sum_models, zero_model, one_model, Payload};

verus! {

/// A process-unique opaque identity token, assigned once at node creation and
/// never derived from the node's content. It distinguishes structurally
/// identical nodes and serves as a bookkeeping key during graph traversal.
#[derive(Debug, PartialEq, Eq, Hash)]
pub struct NodeId {
    value: String,
}

/// Relies on nanoid::format with nanoid's default settings (its SAFE
/// 64-character URL alphabet and length 21): it returns a random token of
/// exactly 21 characters.
#[verifier::external_body]
fn fresh_token() -> (r: String)
    ensures
        r@.len() == 21,
{
    nanoid::format(nanoid::rngs::default, &nanoid::alphabet::SAFE, 21)
}

impl NodeId {
    /// The token this identity carries.
    pub closed spec fn token(&self) -> Seq<char> {
        self.value@
    }

    /// A fresh random identity for a new node. Nothing relates the result to
    /// earlier tokens; distinct calls collide only with negligible probability.
    pub fn new() -> (id: Self)
        ensures
            id.token().len() == 21,
    {
        NodeId { value: fresh_token() }
    }
}

impl Clone for NodeId {
    fn clone(&self) -> (r: Self)
        ensures
            r == *self,
    {
        NodeId { value: self.value.clone() }
    }
}

/// Produce the additive-zero of `T`, using `self` as the template so the zero
/// matches the template's shape and length.
pub trait Zeros<T: Payload>: Payload {
    fn zeros(&self) -> (r: T)
        ensures
            r.model() == zero_model(self.model().len()),
            r.dims_model() == self.dims_model(),
    ;
}

/// Produce the all-one value of `T`, using `self` as the template so the
/// result matches the template's shape and length.
pub trait Ones<T: Payload>: Payload {
    fn ones(&self) -> (r: T)
        ensures
            r.model() == one_model(self.model().len()),
            r.dims_model() == self.dims_model(),
    ;
}

impl Zeros<i64> for i64 {
    fn zeros(&self) -> (r: i64) {
        proof {
            assert((0i64).model() =~= zero_model(self.model().len()));
        }
        0
    }
}

impl Ones<i64> for i64 {
    fn ones(&self) -> (r: i64) {
        proof {
            assert((1i64).model() =~= one_model(self.model().len()));
        }
        1
    }
}

/// The gradient a node reports: the stored gradient when one has been
/// materialized, and otherwise the additive zero matching the node's value.
pub open spec fn materialize_grad(grad: Option<Seq<int>>, value: Seq<int>) -> Seq<int> {
    match grad {
        Some(g) => g,
        None => zero_model(value.len()),
    }
}

/// The model of an optional stored gradient.
pub open spec fn grad_model_of<Out: Payload>(grad: Option<Out>) -> Option<Seq<int>> {
    match grad {
        Some(g) => Some(g.model()),
        None => None,
    }
}

/// The dimensions the reported gradient carries: those of the stored gradient
/// when one has been materialized, and otherwise those of the node's value,
/// since the materialized zero uses the value as its template.
pub open spec fn materialize_grad_dims(grad: Option<Seq<usize>>, value: Seq<usize>) -> Seq<usize> {
    match grad {
        Some(d) => d,
        None => value,
    }
}

/// The dimensions of an optional stored gradient.
pub open spec fn grad_dims_of<Out: Payload>(grad: Option<Out>) -> Option<Seq<usize>> {
    match grad {
        Some(g) => Some(g.dims_model()),
        None => None,
    }
}

/// The contract every graph participant must satisfy: a stable identity, a
/// readable value, and an accumulated gradient that is lazily materialized as
/// the additive zero of the value on first access and grows by pointwise
/// addition on every `update_grad` call.
pub trait Node<Out: Payload> {
    /// The node's identity.
    spec fn id_spec(&self) -> NodeId;

    /// The model of the node's current forward value.
    spec fn value_model(&self) -> Seq<int>;

    /// The dimensions of the node's current forward value.
    spec fn value_dims(&self) -> Seq<usize>;

    /// The model of the accumulated gradient, `None` until first materialized.
    spec fn grad_model(&self) -> Option<Seq<int>>;

    /// The dimensions of the accumulated gradient, `None` until first
    /// materialized.
    spec fn grad_dims(&self) -> Option<Seq<usize>>;

    /// The identity, stable for the node's lifetime.
    fn id(&self) -> (r: NodeId)
        ensures
            r == self.id_spec(),
    ;

    /// The current forward value, content and dimensions alike; a pure read
    /// that never touches the gradient.
    fn value(&self) -> (r: Out)
        ensures
            r.model() == self.value_model(),
            r.dims_model() == self.value_dims(),
    ;

    /// The accumulated gradient. On first access the additive zero of the
    /// value is materialized and persisted, so repeated calls return the same
    /// gradient until the next update.
    fn grad(&mut self) -> (r: Out)
        ensures
            final(self).id_spec() == old(self).id_spec(),
            final(self).value_model() == old(self).value_model(),
            final(self).value_dims() == old(self).value_dims(),
            r.model() == materialize_grad(old(self).grad_model(), old(self).value_model()),
            r.dims_model() == materialize_grad_dims(old(self).grad_dims(), old(self).value_dims()),
            final(self).grad_model() == Some(r.model()),
            final(self).grad_dims() == Some(r.dims_model()),
    ;

    /// Adds `grad` to the (lazily materialized) gradient and stores the sum:
    /// the single mutation path for gradients.
    fn update_grad(&mut self, grad: Out)
        requires
            Out::addable(
                materialize_grad(old(self).grad_model(), old(self).value_model()),
                grad.model(),
            ),
        ensures
            final(self).id_spec() == old(self).id_spec(),
            final(self).value_model() == old(self).value_model(),
            final(self).value_dims() == old(self).value_dims(),
            final(self).grad_model() == Some(
                sum_models(
                    materialize_grad(old(self).grad_model(), old(self).value_model()),
                    grad.model(),
                ),
            ),
            final(self).grad_dims() == Some(
                materialize_grad_dims(old(self).grad_dims(), old(self).value_dims()),
            ),
    ;
}

/// Materializing an absent gradient and reading it back is idempotent: once a
/// gradient has been materialized, materializing again changes nothing.
pub proof fn lemma_grad_materialization_idempotent(grad: Option<Seq<int>>, value: Seq<int>)
    ensures
        materialize_grad(Some(materialize_grad(grad, value)), value) == materialize_grad(
            grad,
            value,
        ),
{
}

/// Two gradient contributions leave the same accumulated gradient in whichever
/// order they are applied: pointwise integer addition commutes.
pub proof fn lemma_accumulation_order_independent(m: Seq<int>, g1: Seq<int>, g2: Seq<int>)
    requires
        g1.len() == m.len(),
        g2.len() == m.len(),
    ensures
        sum_models(sum_models(m, g1), g2) == sum_models(sum_models(m, g2), g1),
{
    assert(sum_models(sum_models(m, g1), g2) =~= sum_models(sum_models(m, g2), g1));
}

/// Starting from an untouched gradient, accumulating two contributions yields
/// exactly their sum: the lazily materialized zero is the additive identity.
pub proof fn lemma_fresh_grad_is_sum(value: Seq<int>, g1: Seq<int>, g2: Seq<int>)
    requires
        g1.len() == value.len(),
        g2.len() == value.len(),
    ensures
        sum_models(sum_models(materialize_grad(None, value), g1), g2) == sum_models(g1, g2),
{
    assert(sum_models(sum_models(materialize_grad(None, value), g1), g2) =~= sum_models(g1, g2));
}

/// The gradient state after a sequence of contributions, applied first to last.
pub open spec fn accumulate(m: Seq<int>, gs: Seq<Seq<int>>) -> Seq<int>
    decreases gs.len(),
{
    if gs.len() == 0 {
        m
    } else {
        sum_models(accumulate(m, gs.drop_last()), gs.last())
    }
}

/// Accumulation never changes the gradient's length.
pub proof fn lemma_accumulate_len(m: Seq<int>, gs: Seq<Seq<int>>)
    ensures
        accumulate(m, gs).len() == m.len(),
    decreases gs.len(),
{
    if gs.len() > 0 {
        lemma_accumulate_len(m, gs.drop_last());
    }
}

/// Swapping two adjacent contributions does not change the accumulated
/// gradient; since adjacent swaps generate every permutation, the final
/// gradient is independent of the order in which contributions are applied.
pub proof fn lemma_accumulate_swap_adjacent(m: Seq<int>, gs1: Seq<Seq<int>>, gs2: Seq<Seq<int>>, k: int)
    requires
        gs1.len() == gs2.len(),
        0 <= k,
        k + 1 < gs1.len(),
        gs2[k] == gs1[k + 1],
        gs2[k + 1] == gs1[k],
        forall|i: int| 0 <= i < gs1.len() && i != k && i != k + 1 ==> gs2[i] == gs1[i],
        forall|i: int| 0 <= i < gs1.len() ==> (#[trigger] gs1[i]).len() == m.len(),
    ensures
        accumulate(m, gs1) == accumulate(m, gs2),
    decreases gs1.len(),
{
    let n = gs1.len() as int;
    if k + 1 == n - 1 {
        let p1 = gs1.drop_last();
        let p2 = gs2.drop_last();
        let p = p1.drop_last();
        assert(p2.drop_last() =~= p);
        assert(p1.last() == gs1[k]);
        assert(p2.last() == gs2[k]);
        lemma_accumulate_len(m, p);
        lemma_accumulation_order_independent(accumulate(m, p), gs1[k], gs1[k + 1]);
        assert(accumulate(m, gs1) == sum_models(accumulate(m, p1), gs1.last()));
        assert(accumulate(m, p1) == sum_models(accumulate(m, p), gs1[k]));
        assert(accumulate(m, gs2) == sum_models(accumulate(m, p2), gs2.last()));
        assert(accumulate(m, p2) == sum_models(accumulate(m, p), gs1[k + 1]));
        assert(gs1.last() == gs1[k + 1]);
        assert(gs2.last() == gs1[k]);
    } else {
        assert(gs2.last() == gs1.last());
        let p1 = gs1.drop_last();
        let p2 = gs2.drop_last();
        assert(forall|i: int| 0 <= i < p1.len() ==> (#[trigger] p1[i]).len() == m.len());
        assert(p2[k] == p1[k + 1] && p2[k + 1] == p1[k]);
        assert(forall|i: int| 0 <= i < p1.len() && i != k && i != k + 1 ==> p2[i] == p1[i]);
        lemma_accumulate_swap_adjacent(m, p1, p2, k);
        assert(accumulate(m, gs1) == sum_models(accumulate(m, p1), gs1.last()));
        assert(accumulate(m, gs2) == sum_models(accumulate(m, p2), gs2.last()));
    }
}

/// Moving one contribution to the end of the sequence does not change the
/// accumulated gradient.
proof fn lemma_accumulate_move_to_end(m: Seq<int>, gs: Seq<Seq<int>>, j: int)
    requires
        0 <= j < gs.len(),
        forall|i: int| 0 <= i < gs.len() ==> (#[trigger] gs[i]).len() == m.len(),
    ensures
        accumulate(m, gs) == accumulate(m, gs.remove(j).push(gs[j])),
    decreases gs.len(),
{
    let n = gs.len() as int;
    if j == n - 1 {
        assert(gs.remove(j).push(gs[j]) =~= gs);
    } else {
        let dl = gs.drop_last();
        assert(forall|i: int| 0 <= i < dl.len() ==> (#[trigger] dl[i]).len() == m.len());
        lemma_accumulate_move_to_end(m, dl, j);
        let moved = dl.remove(j).push(gs[j]);
        let a = moved.push(gs.last());
        let b = dl.remove(j).push(gs.last()).push(gs[j]);
        assert(a.drop_last() =~= moved);
        assert(accumulate(m, gs) == sum_models(accumulate(m, dl), gs.last()));
        assert(accumulate(m, a) == sum_models(accumulate(m, moved), gs.last()));
        assert(forall|i: int| 0 <= i < a.len() ==> (#[trigger] a[i]).len() == m.len()) by {
            assert(forall|i: int|
                0 <= i < dl.remove(j).len() ==> (#[trigger] dl.remove(j)[i]).len() == m.len());
        }
        assert(b.len() == a.len());
        assert(b[a.len() - 2] == a[a.len() - 1] && b[a.len() - 1] == a[a.len() - 2]);
        assert(forall|i: int| 0 <= i < a.len() - 2 ==> b[i] == a[i]);
        lemma_accumulate_swap_adjacent(m, a, b, a.len() as int - 2);
        assert(b =~= gs.remove(j).push(gs[j]));
    }
}

/// Gradient accumulation is fully order-independent: two sequences of
/// contributions that are permutations of one another — the same
/// contributions, each occurring the same number of times — accumulate to the
/// same gradient, whatever the order in which they were applied.
pub proof fn lemma_accumulate_permutation(m: Seq<int>, gs1: Seq<Seq<int>>, gs2: Seq<Seq<int>>)
    requires
        gs1.to_multiset() == gs2.to_multiset(),
        forall|i: int| 0 <= i < gs1.len() ==> (#[trigger] gs1[i]).len() == m.len(),
    ensures
        accumulate(m, gs1) == accumulate(m, gs2),
    decreases gs1.len(),
{
    broadcast use vstd::seq_lib::group_to_multiset_ensures;
    broadcast use vstd::multiset::group_multiset_axioms;

    assert(gs1.len() == gs1.to_multiset().len());
    assert(gs2.len() == gs2.to_multiset().len());
    if gs1.len() == 0 {
        assert(gs2.len() == 0);
    } else {
        let x = gs2.last();
        assert(gs2.drop_last().push(x) =~= gs2);
        assert(gs2.to_multiset() =~= gs2.drop_last().to_multiset().insert(x));
        assert(gs1.to_multiset().count(x) > 0);
        assert(gs1.contains(x));
        let j = choose|j: int| 0 <= j < gs1.len() && gs1[j] == x;
        lemma_accumulate_move_to_end(m, gs1, j);
        let rest = gs1.remove(j);
        assert(rest.to_multiset() =~= gs1.to_multiset().remove(x));
        assert(gs2.drop_last().to_multiset() =~= gs2.to_multiset().remove(x));
        assert(rest.len() == gs1.len() - 1);
        assert(forall|i: int| 0 <= i < rest.len() ==> (#[trigger] rest[i]).len() == m.len());
        lemma_accumulate_permutation(m, rest, gs2.drop_last());
        assert(rest.push(x).drop_last() =~= rest);
        assert(accumulate(m, rest.push(x)) == sum_models(accumulate(m, rest), x));
        assert(accumulate(m, gs2) == sum_models(accumulate(m, gs2.drop_last()), x));
    }
}

/// The stored gradient after a whole sequence of `update_grad` calls: each
/// step adds one contribution to the materialized gradient, exactly as
/// `update_grad`'s contract states for a single call.
pub open spec fn grad_after_updates(
    grad: Option<Seq<int>>,
    value: Seq<int>,
    gs: Seq<Seq<int>>,
) -> Option<Seq<int>>
    decreases gs.len(),
{
    if gs.len() == 0 {
        grad
    } else {
        Some(
            sum_models(
                materialize_grad(grad_after_updates(grad, value, gs.drop_last()), value),
                gs.last(),
            ),
        )
    }
}

/// On a fresh node, a sequence of `update_grad` calls leaves exactly the
/// accumulation of every contribution ever passed over the materialized zero
/// — the sum of all contributions.
pub proof fn lemma_updates_accumulate(value: Seq<int>, gs: Seq<Seq<int>>)
    requires
        gs.len() > 0,
    ensures
        grad_after_updates(None, value, gs) == Some(accumulate(zero_model(value.len()), gs)),
    decreases gs.len(),
{
    let z = zero_model(value.len());
    assert(grad_after_updates(None, value, gs) == Some(
        sum_models(
            materialize_grad(grad_after_updates(None, value, gs.drop_last()), value),
            gs.last(),
        ),
    ));
    assert(accumulate(z, gs) == sum_models(accumulate(z, gs.drop_last()), gs.last()));
    if gs.len() == 1 {
        assert(gs.drop_last().len() == 0);
        assert(grad_after_updates(None, value, gs.drop_last()) == None::<Seq<int>>);
        assert(accumulate(z, gs.drop_last()) == z);
        assert(materialize_grad(None, value) == z);
    } else {
        lemma_updates_accumulate(value, gs.drop_last());
    }
}

/// On a fresh node, the gradient left by a sequence of `update_grad` calls
/// does not depend on the order of the calls: any permutation of the same
/// contributions leaves the same gradient.
pub proof fn lemma_updates_order_independent(
    value: Seq<int>,
    gs1: Seq<Seq<int>>,
    gs2: Seq<Seq<int>>,
)
    requires
        gs1.to_multiset() == gs2.to_multiset(),
        forall|i: int| 0 <= i < gs1.len() ==> (#[trigger] gs1[i]).len() == value.len(),
    ensures
        grad_after_updates(None, value, gs1) == grad_after_updates(None, value, gs2),
{
    broadcast use vstd::seq_lib::group_to_multiset_ensures;

    assert(gs1.len() == gs1.to_multiset().len());
    assert(gs2.len() == gs2.to_multiset().len());
    if gs1.len() == 0 {
        assert(gs2.len() == 0);
    } else {
        lemma_updates_accumulate(value, gs1);
        lemma_updates_accumulate(value, gs2);
        lemma_accumulate_permutation(zero_model(value.len()), gs1, gs2);
    }
}

/// The concrete leaf node: it owns a value and its identity, has no
/// predecessors, and accumulates the gradient that flows back to it.
#[derive(Debug)]
pub struct RootNode<Out> {
    pub id: NodeId,
    pub value: Out,
    pub grad: Option<Out>,
}

impl<Out> RootNode<Out> {
    /// A fresh leaf node holding `value`, with a new identity and no gradient.
    pub fn new(value: Out) -> (n: Self)
        ensures
            n.value == value,
            n.grad == None::<Out>,
            n.id.token().len() == 21,
    {
        RootNode { id: NodeId::new(), value, grad: None }
    }
}

/// Materialize the gradient slot if it is still absent, then hand back a copy:
/// the shared gradient-access path of every node kind.
fn take_grad<Out: Payload + Zeros<Out>>(grad: &mut Option<Out>, value: &Out) -> (r: Out)
    ensures
        r.model() == materialize_grad(grad_model_of(*old(grad)), value.model()),
        r.dims_model() == materialize_grad_dims(grad_dims_of(*old(grad)), value.dims_model()),
        grad_model_of(*final(grad)) == Some(r.model()),
        grad_dims_of(*final(grad)) == Some(r.dims_model()),
{
    let g = match grad {
        Some(v) => v.dup(),
        None => value.zeros(),
    };
    *grad = Some(g.dup());
    g
}

impl<Out: Payload + Zeros<Out>> Node<Out> for RootNode<Out> {
    open spec fn id_spec(&self) -> NodeId {
        self.id
    }

    open spec fn value_model(&self) -> Seq<int> {
        self.value.model()
    }

    open spec fn value_dims(&self) -> Seq<usize> {
        self.value.dims_model()
    }

    open spec fn grad_model(&self) -> Option<Seq<int>> {
        grad_model_of(self.grad)
    }

    open spec fn grad_dims(&self) -> Option<Seq<usize>> {
        grad_dims_of(self.grad)
    }

    fn id(&self) -> (r: NodeId) {
        self.id.clone()
    }

    fn value(&self) -> (r: Out) {
        self.value.dup()
    }

    fn grad(&mut self) -> (r: Out) {
        take_grad(&mut self.grad, &self.value)
    }

    fn update_grad(&mut self, grad: Out) {
        let acc = take_grad(&mut self.grad, &self.value);
        self.grad = Some(acc.add(grad));
    }
}

/// An operation node with one input: it records the handle of its input and
/// the output value computed for it, and accumulates gradients like any node.
#[derive(Debug)]
pub struct UnaryOpNode<Out> {
    pub id: NodeId,
    pub input: NodeHandle,
    pub value: Out,
    pub grad: Option<Out>,
}

impl<Out> UnaryOpNode<Out> {
    /// A fresh single-input operation node with output `value`.
    pub fn new(input: NodeHandle, value: Out) -> (n: Self)
        ensures
            n.input == input,
            n.value == value,
            n.grad == None::<Out>,
            n.id.token().len() == 21,
    {
        UnaryOpNode { id: NodeId::new(), input, value, grad: None }
    }
}

impl<Out: Payload + Zeros<Out>> Node<Out> for UnaryOpNode<Out> {
    open spec fn id_spec(&self) -> NodeId {
        self.id
    }

    open spec fn value_model(&self) -> Seq<int> {
        self.value.model()
    }

    open spec fn value_dims(&self) -> Seq<usize> {
        self.value.dims_model()
    }

    open spec fn grad_model(&self) -> Option<Seq<int>> {
        grad_model_of(self.grad)
    }

    open spec fn grad_dims(&self) -> Option<Seq<usize>> {
        grad_dims_of(self.grad)
    }

    fn id(&self) -> (r: NodeId) {
        self.id.clone()
    }

    fn value(&self) -> (r: Out) {
        self.value.dup()
    }

    fn grad(&mut self) -> (r: Out) {
        take_grad(&mut self.grad, &self.value)
    }

    fn update_grad(&mut self, grad: Out) {
        let acc = take_grad(&mut self.grad, &self.value);
        self.grad = Some(acc.add(grad));
    }
}

/// An operation node with two inputs: it records the handles of both operands
/// and the output value computed for them.
#[derive(Debug)]
pub struct BinaryOpNode<Out> {
    pub id: NodeId,
    pub lhs: NodeHandle,
    pub rhs: NodeHandle,
    pub value: Out,
    pub grad: Option<Out>,
}

impl<Out> BinaryOpNode<Out> {
    /// A fresh two-input operation node with output `value`.
    pub fn new(lhs: NodeHandle, rhs: NodeHandle, value: Out) -> (n: Self)
        ensures
            n.lhs == lhs,
            n.rhs == rhs,
            n.value == value,
            n.grad == None::<Out>,
            n.id.token().len() == 21,
    {
        BinaryOpNode { id: NodeId::new(), lhs, rhs, value, grad: None }
    }
}

impl<Out: Payload + Zeros<Out>> Node<Out> for BinaryOpNode<Out> {
    open spec fn id_spec(&self) -> NodeId {
        self.id
    }

    open spec fn value_model(&self) -> Seq<int> {
        self.value.model()
    }

    open spec fn value_dims(&self) -> Seq<usize> {
        self.value.dims_model()
    }

    open spec fn grad_model(&self) -> Option<Seq<int>> {
        grad_model_of(self.grad)
    }

    open spec fn grad_dims(&self) -> Option<Seq<usize>> {
        grad_dims_of(self.grad)
    }

    fn id(&self) -> (r: NodeId) {
        self.id.clone()
    }

    fn value(&self) -> (r: Out) {
        self.value.dup()
    }

    fn grad(&mut self) -> (r: Out) {
        take_grad(&mut self.grad, &self.value)
    }

    fn update_grad(&mut self, grad: Out) {
        let acc = take_grad(&mut self.grad, &self.value);
        self.grad = Some(acc.add(grad));
    }
}

} // verus!
