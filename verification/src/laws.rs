//! The engine's laws, proved against the resolver's mathematical model.
//!
//! Each law is a public proof function: its statement is the contract and
//! Verus checks the proof.  The laws speak over [`spec_resolve`], the
//! model the executable resolver is proved equal to, so they hold of the
//! code that runs.

use vstd::prelude::*;
use vstd::multiset::Multiset;
use crate::dispatch::PassModel;
use crate::element_wise::{
    spec_modify_data, spec_rev_bodies, ElementWiseFunctionModel,
};
use crate::graph::{
    key_index, AnyComputeKey, ComputeNodeModel, GraphModel, PairWiseFunctionModel,
    ReduceFunctionModel,
};
use crate::layout::SliceRangeModel;
use crate::resolve::{
    lemma_collect_props, spec_collect, spec_element_wise_pass, spec_fresh_tensor, spec_peel,
    spec_resolve, spec_resolve_pair_wise_then, spec_resolve_reduce_then, spec_resolve_stuck,
    ResolveOut,
};

verus! {

/// Resolving a tensor leaf returns exactly the stored handle and records
/// no pass at all.
pub proof fn lemma_resolve_leaf(g: GraphModel, key: AnyComputeKey, nb: int)
    requires
        g.wf(),
        g.key_valid(key),
        g.nodes[key_index(key)].op is Tensor,
    ensures
        spec_resolve(g, key, nb).tensor == g.nodes[key_index(key)].op->Tensor_data,
        spec_resolve(g, key, nb).passes =~= Seq::<PassModel>::empty(),
        spec_resolve(g, key, nb).next_buffer == nb,
{
}

/// The snippets of a collected chain `[f_root, ..., f_bottom]`, applied in
/// insertion order: the earliest producer (the chain's bottom) first, the
/// root last.
pub open spec fn spec_ops_in_insertion_order(chain: Seq<ElementWiseFunctionModel>) -> Seq<char>
    decreases chain.len(),
{
    if chain.len() == 0 {
        Seq::empty()
    } else {
        chain.last().operation + "\n"@ + spec_ops_in_insertion_order(chain.drop_last())
    }
}

/// The emitter's reverse-order inline emission applies the collected
/// chain in insertion order: the walk collects nearest-to-root first, and
/// reversing it at emission runs the earliest producer first.
pub proof fn lemma_inline_emission_is_insertion_order(chain: Seq<ElementWiseFunctionModel>)
    ensures
        spec_modify_data(chain, true) == spec_ops_in_insertion_order(chain),
{
    lemma_rev_bodies_take(chain, chain.len() as int);
    assert(chain.take(chain.len() as int) =~= chain);
}

/// `spec_rev_bodies` over the first `i` entries equals the
/// insertion-order emission of that prefix.
proof fn lemma_rev_bodies_take(chain: Seq<ElementWiseFunctionModel>, i: int)
    requires
        0 <= i <= chain.len(),
    ensures
        spec_rev_bodies(chain, i) == spec_ops_in_insertion_order(chain.take(i)),
    decreases i,
{
    if i > 0 {
        lemma_rev_bodies_take(chain, i - 1);
        let t = chain.take(i);
        assert(t.last() == chain[i - 1]);
        assert(t.drop_last() =~= chain.take(i - 1));
    } else {
        assert(chain.take(0).len() == 0);
    }
}

/// Collapsing a chain of elementwise nodes onto a leaf records exactly
/// one fused pass: it rewrites the stored leaf in place, carries the
/// whole collected chain, and its inline emission applies the functions
/// in insertion order, so the result is the chain's composition applied
/// elementwise to the leaf.
pub proof fn lemma_resolve_chain_over_leaf(g: GraphModel, key: AnyComputeKey, nb: int)
    requires
        g.wf(),
        g.key_valid(key),
        g.nodes[key_index(key)].op is ElementWise,
        g.nodes[key_index(spec_collect(g, key_index(key)).1)].op is Tensor,
    ensures
        ({
            let chain = spec_collect(g, key_index(key)).0;
            let leaf = g.nodes[key_index(spec_collect(g, key_index(key)).1)].op->Tensor_data;
            let out = spec_resolve(g, key, nb);
            &&& out.tensor == leaf
            &&& out.passes.len() == 1
            &&& out.passes[0] == spec_element_wise_pass(chain, leaf)
            &&& chain.len() >= 1
            &&& out.next_buffer == nb
        }),
{
    lemma_collect_props(g, key_index(key));
    let p = spec_collect(g, key_index(key)).1;
    lemma_resolve_leaf(g, p, nb);
    let out = spec_resolve(g, key, nb);
    assert(out.passes =~= Seq::<PassModel>::empty().push(
        spec_element_wise_pass(spec_collect(g, key_index(key)).0, spec_resolve(g, p, nb).tensor),
    ));
}

/// A layout-mapping node never emits a compute pass: resolving it records
/// exactly the passes of its input, and allocates nothing.
pub proof fn lemma_map_layout_emits_no_pass(g: GraphModel, key: AnyComputeKey, nb: int)
    requires
        g.wf(),
        g.key_valid(key),
        g.nodes[key_index(key)].op is MapLayout,
    ensures
        spec_resolve(g, key, nb).passes == spec_resolve(
            g,
            g.nodes[key_index(key)].op->MapLayout_input,
            nb,
        ).passes,
        spec_resolve(g, key, nb).next_buffer == spec_resolve(
            g,
            g.nodes[key_index(key)].op->MapLayout_input,
            nb,
        ).next_buffer,
        spec_resolve(g, key, nb).tensor.buffer == spec_resolve(
            g,
            g.nodes[key_index(key)].op->MapLayout_input,
            nb,
        ).tensor.buffer,
{
    assert(g.node_wf(key_index(key)));
}

/// One applied operation of the per-element evaluation stream.
#[verifier::ext_equal]
pub ghost enum OpAtom {
    Unary(ElementWiseFunctionModel),
    Combine(PairWiseFunctionModel),
    Reduction(ReduceFunctionModel, u32),
    MatrixMultiply,
    ResizeOp(Seq<int>, Seq<int>),
    SliceAssignOp(Seq<SliceRangeModel>),
}

/// A stored chain, in the order it is applied: the walk collects
/// nearest-to-root first, evaluation reverses it.
pub open spec fn spec_applied(fns: Seq<ElementWiseFunctionModel>) -> Seq<OpAtom> {
    fns.reverse().map_values(|f: ElementWiseFunctionModel| OpAtom::Unary(f))
}

/// The operations one pass applies, in evaluation order: pre-elementwise
/// stages, then the combining operation, then the post-elementwise stage.
pub open spec fn spec_pass_stream(p: PassModel) -> Seq<OpAtom> {
    match p {
        PassModel::ElementWise(e) => spec_applied(e.functions),
        PassModel::PairWise(pw) => spec_applied(pw.pre_first) + spec_applied(pw.pre_second)
            + seq![OpAtom::Combine(pw.function)] + spec_applied(pw.post),
        PassModel::Reduce(r) => spec_applied(r.pre) + seq![OpAtom::Reduction(r.function, r.axis)]
            + spec_applied(r.post),
        PassModel::MatMul(_) => seq![OpAtom::MatrixMultiply],
        PassModel::Resize(r) => seq![OpAtom::ResizeOp(r.new_shape, r.fill_shape)],
        PassModel::SliceAssign(s) => seq![OpAtom::SliceAssignOp(s.slices)],
    }
}

/// The operations a recorded plan applies, in evaluation order.
pub open spec fn spec_stream(passes: Seq<PassModel>) -> Seq<OpAtom>
    decreases passes.len(),
{
    if passes.len() == 0 {
        Seq::empty()
    } else {
        spec_pass_stream(passes[0]) + spec_stream(passes.skip(1))
    }
}

/// The stream of a concatenation is the concatenation of the streams.
pub proof fn lemma_stream_concat(a: Seq<PassModel>, b: Seq<PassModel>)
    ensures
        spec_stream(a + b) == spec_stream(a) + spec_stream(b),
    decreases a.len(),
{
    if a.len() == 0 {
        assert(a + b =~= b);
        assert(spec_stream(a) + spec_stream(b) =~= spec_stream(b));
    } else {
        lemma_stream_concat(a.skip(1), b);
        assert((a + b).skip(1) =~= a.skip(1) + b);
        assert((a + b)[0] == a[0]);
        assert(spec_pass_stream(a[0]) + (spec_stream(a.skip(1)) + spec_stream(b)) =~= (
        spec_pass_stream(a[0]) + spec_stream(a.skip(1))) + spec_stream(b));
    }
}

/// The stream of a one-pass plan.
pub proof fn lemma_stream_single(p: PassModel)
    ensures
        spec_stream(seq![p]) == spec_pass_stream(p),
{
    assert(seq![p].skip(1).len() == 0);
    assert(spec_stream(seq![p].skip(1)) == Seq::<OpAtom>::empty());
    assert(seq![p][0] == p);
    assert(spec_stream(seq![p]) =~= spec_pass_stream(p));
}

/// The stream of a plan with one pass appended.
pub proof fn lemma_stream_push(a: Seq<PassModel>, p: PassModel)
    ensures
        spec_stream(a.push(p)) == spec_stream(a) + spec_pass_stream(p),
{
    assert(a.push(p) =~= a + seq![p]);
    lemma_stream_concat(a, seq![p]);
    lemma_stream_single(p);
}

/// Prepending a function to a chain appends its application to the
/// evaluation stream: the chain is stored nearest-to-root first, and the
/// root's function is applied last.
pub proof fn lemma_applied_cons(f: ElementWiseFunctionModel, rest: Seq<ElementWiseFunctionModel>)
    ensures
        spec_applied(seq![f] + rest) == spec_applied(rest) + seq![OpAtom::Unary(f)],
        spec_applied(seq![f]) == seq![OpAtom::Unary(f)],
        spec_applied(Seq::<ElementWiseFunctionModel>::empty()) == Seq::<OpAtom>::empty(),
{
    assert((seq![f] + rest).reverse() =~= rest.reverse() + seq![f]);
    assert(spec_applied(seq![f] + rest) =~= spec_applied(rest) + seq![OpAtom::Unary(f)]);
    assert(seq![f].reverse() =~= seq![f]);
    assert(spec_applied(seq![f]) =~= seq![OpAtom::Unary(f)]);
    assert(spec_applied(Seq::<ElementWiseFunctionModel>::empty())
        =~= Seq::<OpAtom>::empty());
}

/// The resolver with fusion disabled: every elementwise node becomes its
/// own single-function pass, and pairwise and reduce kernels run with
/// empty pre- and post-elementwise stages.
pub open spec fn spec_resolve_unfused(g: GraphModel, key: AnyComputeKey, nb: int) -> ResolveOut
    decreases key_index(key),
{
    let i = key_index(key);
    if 0 <= i < g.nodes.len() {
        match g.nodes[i].op {
            ComputeNodeModel::Tensor { data } => ResolveOut {
                tensor: data,
                passes: Seq::empty(),
                next_buffer: nb,
            },
            ComputeNodeModel::MapLayout { input, slices } => {
                if 0 <= key_index(input) < i {
                    let r = spec_resolve_unfused(g, input, nb);
                    ResolveOut { tensor: r.tensor, passes: r.passes, next_buffer: r.next_buffer }
                } else {
                    spec_resolve_stuck(nb)
                }
            },
            ComputeNodeModel::ElementWise { value, function } => {
                if 0 <= key_index(value) < i {
                    let r = spec_resolve_unfused(g, value, nb);
                    ResolveOut {
                        tensor: r.tensor,
                        passes: r.passes.push(spec_element_wise_pass(seq![function], r.tensor)),
                        next_buffer: r.next_buffer,
                    }
                } else {
                    spec_resolve_stuck(nb)
                }
            },
            ComputeNodeModel::Reduce { value, axis, function } => {
                if 0 <= key_index(value) < i {
                    let r = spec_resolve_unfused(g, value, nb);
                    let out = spec_fresh_tensor(g, i, r.next_buffer);
                    ResolveOut {
                        tensor: out,
                        passes: r.passes + seq![
                            PassModel::Reduce(
                                crate::dispatch::ReducePassModel {
                                    function,
                                    axis,
                                    pre: Seq::empty(),
                                    post: Seq::empty(),
                                    input: r.tensor,
                                    output: out,
                                },
                            ),
                        ],
                        next_buffer: r.next_buffer + 1,
                    }
                } else {
                    spec_resolve_stuck(nb)
                }
            },
            ComputeNodeModel::Resize { input, new_shape, fill_shape } => {
                if 0 <= key_index(input) < i {
                    let r = spec_resolve_unfused(g, input, nb);
                    let out = spec_fresh_tensor(g, i, r.next_buffer);
                    ResolveOut {
                        tensor: out,
                        passes: r.passes + seq![
                            PassModel::Resize(
                                crate::dispatch::ResizePassModel {
                                    input: r.tensor,
                                    new_shape,
                                    fill_shape,
                                    output: out,
                                },
                            ),
                        ],
                        next_buffer: r.next_buffer + 1,
                    }
                } else {
                    spec_resolve_stuck(nb)
                }
            },
            ComputeNodeModel::PairWise { first, second, function } => {
                if 0 <= key_index(first) < i && 0 <= key_index(second) < i {
                    let r1 = spec_resolve_unfused(g, first, nb);
                    let r2 = spec_resolve_unfused(g, second, r1.next_buffer);
                    let out = spec_fresh_tensor(g, i, r2.next_buffer);
                    ResolveOut {
                        tensor: out,
                        passes: r1.passes + r2.passes + seq![
                            PassModel::PairWise(
                                crate::dispatch::PairWisePassModel {
                                    function,
                                    pre_first: Seq::empty(),
                                    pre_second: Seq::empty(),
                                    post: Seq::empty(),
                                    first: r1.tensor,
                                    second: r2.tensor,
                                    output: out,
                                },
                            ),
                        ],
                        next_buffer: r2.next_buffer + 1,
                    }
                } else {
                    spec_resolve_stuck(nb)
                }
            },
            ComputeNodeModel::MatMul { first, second } => {
                if 0 <= key_index(first) < i && 0 <= key_index(second) < i {
                    let r1 = spec_resolve_unfused(g, first, nb);
                    let r2 = spec_resolve_unfused(g, second, r1.next_buffer);
                    let out = spec_fresh_tensor(g, i, r2.next_buffer);
                    ResolveOut {
                        tensor: out,
                        passes: r1.passes + r2.passes + seq![
                            PassModel::MatMul(
                                crate::dispatch::MatMulPassModel {
                                    first: r1.tensor,
                                    second: r2.tensor,
                                    output: out,
                                },
                            ),
                        ],
                        next_buffer: r2.next_buffer + 1,
                    }
                } else {
                    spec_resolve_stuck(nb)
                }
            },
            ComputeNodeModel::SliceAssign { input, value, slices } => {
                if 0 <= key_index(input) < i && 0 <= key_index(value) < i {
                    let r1 = spec_resolve_unfused(g, input, nb);
                    let r2 = spec_resolve_unfused(g, value, r1.next_buffer);
                    ResolveOut {
                        tensor: r1.tensor,
                        passes: r1.passes + r2.passes + seq![
                            PassModel::SliceAssign(
                                crate::dispatch::SliceAssignPassModel {
                                    input: r1.tensor,
                                    value: r2.tensor,
                                    slices,
                                },
                            ),
                        ],
                        next_buffer: r2.next_buffer,
                    }
                } else {
                    spec_resolve_stuck(nb)
                }
            },
        }
    } else {
        spec_resolve_stuck(nb)
    }
}

/// Whether the graph under `key` is a single chain: elementwise, reduce,
/// layout-mapping and resize nodes over one tensor leaf.  On such graphs
/// the recorded pass order is the data-flow order, so fused and unfused
/// plans can be compared as one stream.
pub open spec fn spec_linear(g: GraphModel, key: AnyComputeKey) -> bool
    decreases key_index(key),
{
    let i = key_index(key);
    if 0 <= i < g.nodes.len() {
        match g.nodes[i].op {
            ComputeNodeModel::Tensor { data } => true,
            ComputeNodeModel::ElementWise { value, function } => 0 <= key_index(value) < i
                && spec_linear(g, value),
            ComputeNodeModel::Reduce { value, axis, function } => 0 <= key_index(value) < i
                && spec_linear(g, value),
            ComputeNodeModel::MapLayout { input, slices } => 0 <= key_index(input) < i
                && spec_linear(g, input),
            ComputeNodeModel::Resize { input, new_shape, fill_shape } => 0 <= key_index(input) < i
                && spec_linear(g, input),
            _ => false,
        }
    } else {
        false
    }
}

/// Linearity descends an elementwise chain to its terminal.
proof fn lemma_linear_collect(g: GraphModel, key: AnyComputeKey)
    requires
        g.wf(),
        g.key_valid(key),
        key is ElementWiseComputeNodeKey,
        spec_linear(g, key),
    ensures
        spec_linear(g, spec_collect(g, key_index(key)).1),
    decreases key_index(key),
{
    let i = key_index(key);
    assert(g.node_wf(i));
    let value = g.nodes[i].op->ElementWise_value;
    assert(spec_linear(g, value));
    if value is ElementWiseComputeNodeKey {
        lemma_linear_collect(g, value);
    }
}

/// The unfused plan of an elementwise chain is the unfused plan of its
/// terminal followed by the chain's functions, applied in insertion
/// order.
proof fn lemma_unfused_chain(g: GraphModel, key: AnyComputeKey, nb: int)
    requires
        g.wf(),
        g.key_valid(key),
        key is ElementWiseComputeNodeKey,
    ensures
        ({
            let cp = spec_collect(g, key_index(key));
            let u = spec_resolve_unfused(g, key, nb);
            let ut = spec_resolve_unfused(g, cp.1, nb);
            &&& spec_stream(u.passes) == spec_stream(ut.passes) + spec_applied(cp.0)
            &&& u.next_buffer == ut.next_buffer
        }),
    decreases key_index(key),
{
    let i = key_index(key);
    assert(g.node_wf(i));
    let value = g.nodes[i].op->ElementWise_value;
    let function = g.nodes[i].op->ElementWise_function;
    let cp = spec_collect(g, i);
    let r = spec_resolve_unfused(g, value, nb);
    let u = spec_resolve_unfused(g, key, nb);
    assert(u.passes == r.passes.push(spec_element_wise_pass(seq![function], r.tensor)));
    lemma_stream_push(r.passes, spec_element_wise_pass(seq![function], r.tensor));
    if value is ElementWiseComputeNodeKey {
        lemma_unfused_chain(g, value, nb);
        let rest = spec_collect(g, key_index(value));
        assert(cp.0 == seq![function] + rest.0);
        assert(cp.1 == rest.1);
        lemma_applied_cons(function, rest.0);
        let ut = spec_resolve_unfused(g, cp.1, nb);
        assert(spec_stream(u.passes) =~= spec_stream(ut.passes) + spec_applied(cp.0)) by {
            assert(spec_stream(r.passes) == spec_stream(ut.passes) + spec_applied(rest.0));
            assert(spec_pass_stream(spec_element_wise_pass(seq![function], r.tensor))
                == spec_applied(seq![function]));
            assert(spec_applied(seq![function]) == seq![OpAtom::Unary(function)]);
            assert(spec_applied(cp.0) == spec_applied(rest.0) + seq![OpAtom::Unary(function)]);
        }
    } else {
        assert(cp.0 == seq![function]);
        assert(cp.1 == value);
        lemma_applied_cons(function, Seq::empty());
        assert(seq![function] + Seq::<ElementWiseFunctionModel>::empty() =~= seq![function]);
        assert(spec_stream(u.passes) =~= spec_stream(r.passes) + spec_applied(cp.0)) by {
            assert(spec_pass_stream(spec_element_wise_pass(seq![function], r.tensor))
                == spec_applied(seq![function]));
        }
    }
}

/// Fusion invariance on single-chain graphs: the fused plan applies
/// exactly the operations of the unfused plan, in the same evaluation
/// order.  Fused and unfused resolutions therefore perform the same
/// per-element computation, so their results agree wherever the
/// individual kernels do.
pub proof fn lemma_fusion_invariance(g: GraphModel, key: AnyComputeKey, nb: int, nbu: int)
    requires
        g.wf(),
        g.key_valid(key),
        spec_linear(g, key),
    ensures
        spec_stream(spec_resolve(g, key, nb).passes) == spec_stream(
            spec_resolve_unfused(g, key, nbu).passes,
        ),
    decreases key_index(key), 2int,
{
    let i = key_index(key);
    assert(g.node_wf(i));
    match g.nodes[i].op {
        ComputeNodeModel::Tensor { data } => {},
        ComputeNodeModel::MapLayout { input, slices } => {
            lemma_fusion_invariance(g, input, nb, nbu);
        },
        ComputeNodeModel::Resize { input, new_shape, fill_shape } => {
            lemma_fusion_invariance(g, input, nb, nbu);
            let rf = spec_resolve(g, input, nb);
            let ru = spec_resolve_unfused(g, input, nbu);
            let pf = PassModel::Resize(
                crate::dispatch::ResizePassModel {
                    input: rf.tensor,
                    new_shape,
                    fill_shape,
                    output: spec_fresh_tensor(g, i, rf.next_buffer),
                },
            );
            let pu = PassModel::Resize(
                crate::dispatch::ResizePassModel {
                    input: ru.tensor,
                    new_shape,
                    fill_shape,
                    output: spec_fresh_tensor(g, i, ru.next_buffer),
                },
            );
            lemma_stream_concat(rf.passes, seq![pf]);
            lemma_stream_concat(ru.passes, seq![pu]);
            lemma_stream_single(pf);
            lemma_stream_single(pu);
            assert(spec_pass_stream(pf) == spec_pass_stream(pu));
        },
        ComputeNodeModel::ElementWise { value, function } => {
            lemma_collect_props(g, i);
            lemma_linear_collect(g, key);
            lemma_unfused_chain(g, key, nbu);
            let cp = spec_collect(g, i);
            let p = cp.1;
            if p is ReduceComputeNodeKey {
                lemma_fused_reduce_then_stream(g, p, cp.0, nb, nbu);
                lemma_unfused_reduce_stream(g, p, nbu);
                let pp = spec_peel(g, g.nodes[key_index(p)].op->Reduce_value);
                let uterm = spec_resolve_unfused(g, pp.1, nbu);
                let raxis = g.nodes[key_index(p)].op->Reduce_axis;
                let rfunction = g.nodes[key_index(p)].op->Reduce_function;
                assert(spec_stream(spec_resolve(g, key, nb).passes) =~= spec_stream(
                    spec_resolve_unfused(g, key, nbu).passes,
                )) by {
                    assert(spec_stream(spec_resolve(g, key, nb).passes) == spec_stream(
                        uterm.passes,
                    ) + spec_applied(pp.0) + seq![OpAtom::Reduction(rfunction, raxis)]
                        + spec_applied(cp.0));
                    assert(spec_stream(spec_resolve_unfused(g, p, nbu).passes) == spec_stream(
                        uterm.passes,
                    ) + spec_applied(pp.0) + seq![OpAtom::Reduction(rfunction, raxis)]);
                    assert(spec_stream(spec_resolve_unfused(g, key, nbu).passes) == spec_stream(
                        spec_resolve_unfused(g, p, nbu).passes,
                    ) + spec_applied(cp.0));
                }
            } else {
                assert(!(p is PairWiseComputeNodeKey));
                lemma_fusion_invariance(g, p, nb, nbu);
                let rf = spec_resolve(g, p, nb);
                lemma_stream_push(rf.passes, spec_element_wise_pass(cp.0, rf.tensor));
                assert(spec_pass_stream(spec_element_wise_pass(cp.0, rf.tensor)) == spec_applied(
                    cp.0,
                ));
            }
        },
        ComputeNodeModel::Reduce { value, axis, function } => {
            lemma_fused_reduce_then_stream(g, key, Seq::empty(), nb, nbu);
            lemma_unfused_reduce_stream(g, key, nbu);
            let pp = spec_peel(g, value);
            let uterm = spec_resolve_unfused(g, pp.1, nbu);
            assert(Seq::<ElementWiseFunctionModel>::empty().reverse()
                =~= Seq::<ElementWiseFunctionModel>::empty());
            assert(spec_applied(Seq::<ElementWiseFunctionModel>::empty())
                =~= Seq::<OpAtom>::empty());
            assert(spec_stream(spec_resolve(g, key, nb).passes) =~= spec_stream(
                spec_resolve_unfused(g, key, nbu).passes,
            )) by {
                assert(spec_stream(spec_resolve(g, key, nb).passes) == spec_stream(uterm.passes)
                    + spec_applied(pp.0) + seq![OpAtom::Reduction(function, axis)] + spec_applied(
                    Seq::empty(),
                ));
                assert(spec_stream(spec_resolve_unfused(g, key, nbu).passes) == spec_stream(
                    uterm.passes,
                ) + spec_applied(pp.0) + seq![OpAtom::Reduction(function, axis)]);
            }
        },
        _ => {
            assert(false);
        },
    }
}

/// The unfused plan of a reduce node: the unfused plan of its peeled
/// input, the input's chain, then the bare reduction.
proof fn lemma_unfused_reduce_stream(g: GraphModel, key: AnyComputeKey, nbu: int)
    requires
        g.wf(),
        g.key_valid(key),
        key is ReduceComputeNodeKey,
    ensures
        ({
            let i = key_index(key);
            let value = g.nodes[i].op->Reduce_value;
            let axis = g.nodes[i].op->Reduce_axis;
            let function = g.nodes[i].op->Reduce_function;
            let pp = spec_peel(g, value);
            let uterm = spec_resolve_unfused(g, pp.1, nbu);
            spec_stream(spec_resolve_unfused(g, key, nbu).passes) == spec_stream(uterm.passes)
                + spec_applied(pp.0) + seq![OpAtom::Reduction(function, axis)]
        }),
{
    let i = key_index(key);
    assert(g.node_wf(i));
    let value = g.nodes[i].op->Reduce_value;
    let axis = g.nodes[i].op->Reduce_axis;
    let function = g.nodes[i].op->Reduce_function;
    let pp = spec_peel(g, value);
    let ru = spec_resolve_unfused(g, value, nbu);
    let uterm = spec_resolve_unfused(g, pp.1, nbu);
    if value is ElementWiseComputeNodeKey {
        lemma_unfused_chain(g, value, nbu);
    } else {
        assert(pp.0 =~= Seq::<ElementWiseFunctionModel>::empty());
        assert(pp.0.reverse() =~= Seq::<ElementWiseFunctionModel>::empty());
        assert(spec_applied(pp.0) =~= Seq::<OpAtom>::empty());
    }
    let pu = PassModel::Reduce(
        crate::dispatch::ReducePassModel {
            function,
            axis,
            pre: Seq::empty(),
            post: Seq::empty(),
            input: ru.tensor,
            output: spec_fresh_tensor(g, i, ru.next_buffer),
        },
    );
    lemma_stream_concat(ru.passes, seq![pu]);
    lemma_stream_single(pu);
    assert(Seq::<ElementWiseFunctionModel>::empty().reverse()
        =~= Seq::<ElementWiseFunctionModel>::empty());
    assert(spec_applied(Seq::<ElementWiseFunctionModel>::empty()) =~= Seq::<OpAtom>::empty());
    assert(spec_pass_stream(pu) =~= seq![OpAtom::Reduction(function, axis)]);
    assert(spec_stream(spec_resolve_unfused(g, key, nbu).passes) =~= spec_stream(uterm.passes)
        + spec_applied(pp.0) + seq![OpAtom::Reduction(function, axis)]);
}

/// The fused reduce path's stream: the fused plan of the peeled input,
/// then the pre-chain, the reduction, and the tail chain.
proof fn lemma_fused_reduce_then_stream(
    g: GraphModel,
    key: AnyComputeKey,
    then: Seq<ElementWiseFunctionModel>,
    nb: int,
    nbu: int,
)
    requires
        g.wf(),
        g.key_valid(key),
        key is ReduceComputeNodeKey,
        spec_linear(g, key),
    ensures
        ({
            let i = key_index(key);
            let value = g.nodes[i].op->Reduce_value;
            let axis = g.nodes[i].op->Reduce_axis;
            let function = g.nodes[i].op->Reduce_function;
            let pp = spec_peel(g, value);
            let f = spec_resolve_reduce_then(g, i, then, nb);
            let uterm = spec_resolve_unfused(g, pp.1, nbu);
            spec_stream(f.passes) == spec_stream(uterm.passes) + spec_applied(pp.0) + seq![
                OpAtom::Reduction(function, axis),
            ] + spec_applied(then)
        }),
    decreases key_index(key), 1int,
{
    let i = key_index(key);
    assert(g.node_wf(i));
    let value = g.nodes[i].op->Reduce_value;
    let axis = g.nodes[i].op->Reduce_axis;
    let function = g.nodes[i].op->Reduce_function;
    if value is ElementWiseComputeNodeKey {
        lemma_collect_props(g, key_index(value));
        lemma_linear_collect(g, value);
    }
    let pp = spec_peel(g, value);
    assert(spec_linear(g, pp.1));
    lemma_fusion_invariance(g, pp.1, nb, nbu);
    let rf = spec_resolve(g, pp.1, nb);
    let uterm = spec_resolve_unfused(g, pp.1, nbu);
    let pf = PassModel::Reduce(
        crate::dispatch::ReducePassModel {
            function,
            axis,
            pre: pp.0,
            post: then,
            input: rf.tensor,
            output: spec_fresh_tensor(g, i, rf.next_buffer),
        },
    );
    lemma_stream_concat(rf.passes, seq![pf]);
    lemma_stream_single(pf);
    let f = spec_resolve_reduce_then(g, i, then, nb);
    assert(f.passes == rf.passes + seq![pf]);
    assert(spec_stream(f.passes) =~= spec_stream(uterm.passes) + spec_applied(pp.0) + seq![
        OpAtom::Reduction(function, axis),
    ] + spec_applied(then));
}


/// Fusion invariance on every graph, as a multiset: the fused plan
/// applies exactly the operations of the unfused plan, each the same
/// number of times.  Passes over independent operands may interleave
/// differently between the two plans, so the order-preserving form
/// [`lemma_fusion_invariance`] is stated for single-chain graphs and this
/// form for all graphs.
#[verifier::rlimit(100)]
pub proof fn lemma_fusion_multiset(g: GraphModel, key: AnyComputeKey, nb: int, nbu: int)
    requires
        g.wf(),
        g.key_valid(key),
    ensures
        spec_stream(spec_resolve(g, key, nb).passes).to_multiset() == spec_stream(
            spec_resolve_unfused(g, key, nbu).passes,
        ).to_multiset(),
    decreases key_index(key), 2int,
{
    broadcast use vstd::seq_lib::lemma_multiset_commutative;

    let i = key_index(key);
    assert(g.node_wf(i));
    match g.nodes[i].op {
        ComputeNodeModel::Tensor { data } => {},
        ComputeNodeModel::MapLayout { input, slices } => {
            lemma_fusion_multiset(g, input, nb, nbu);
        },
        ComputeNodeModel::Resize { input, new_shape, fill_shape } => {
            lemma_fusion_multiset(g, input, nb, nbu);
            let rf = spec_resolve(g, input, nb);
            let ru = spec_resolve_unfused(g, input, nbu);
            let pf = PassModel::Resize(
                crate::dispatch::ResizePassModel {
                    input: rf.tensor,
                    new_shape,
                    fill_shape,
                    output: spec_fresh_tensor(g, i, rf.next_buffer),
                },
            );
            let pu = PassModel::Resize(
                crate::dispatch::ResizePassModel {
                    input: ru.tensor,
                    new_shape,
                    fill_shape,
                    output: spec_fresh_tensor(g, i, ru.next_buffer),
                },
            );
            lemma_stream_concat(rf.passes, seq![pf]);
            lemma_stream_concat(ru.passes, seq![pu]);
            lemma_stream_single(pf);
            lemma_stream_single(pu);
            assert(spec_pass_stream(pf) == spec_pass_stream(pu));
            assert(spec_stream(spec_resolve(g, key, nb).passes).to_multiset() =~= spec_stream(
                spec_resolve_unfused(g, key, nbu).passes,
            ).to_multiset());
        },
        ComputeNodeModel::ElementWise { value, function } => {
            lemma_collect_props(g, i);
            lemma_unfused_chain(g, key, nbu);
            let cp = spec_collect(g, i);
            let p = cp.1;
            if p is ReduceComputeNodeKey {
                lemma_fused_reduce_then_multiset(g, p, cp.0, nb, nbu);
            } else if p is PairWiseComputeNodeKey {
                lemma_fused_pair_wise_then_multiset(g, p, cp.0, nb, nbu);
            } else {
                lemma_fusion_multiset(g, p, nb, nbu);
                let rf = spec_resolve(g, p, nb);
                lemma_stream_push(rf.passes, spec_element_wise_pass(cp.0, rf.tensor));
                assert(spec_pass_stream(spec_element_wise_pass(cp.0, rf.tensor)) == spec_applied(
                    cp.0,
                ));
            }
            let uterm = spec_resolve_unfused(g, p, nbu);
            vstd::seq_lib::lemma_multiset_commutative(spec_stream(uterm.passes), spec_applied(cp.0));
            if !(p is ReduceComputeNodeKey) && !(p is PairWiseComputeNodeKey) {
                let rf = spec_resolve(g, p, nb);
                vstd::seq_lib::lemma_multiset_commutative(spec_stream(rf.passes), spec_applied(cp.0));
                assert(spec_stream(spec_resolve(g, key, nb).passes) =~= spec_stream(rf.passes)
                    + spec_applied(cp.0));
            }
            assert(spec_stream(spec_resolve(g, key, nb).passes).to_multiset() =~= spec_stream(
                uterm.passes,
            ).to_multiset().add(spec_applied(cp.0).to_multiset()));
            assert(spec_stream(spec_resolve_unfused(g, key, nbu).passes).to_multiset()
                =~= spec_stream(uterm.passes).to_multiset().add(spec_applied(cp.0).to_multiset()));
        },
        ComputeNodeModel::Reduce { value, axis, function } => {
            lemma_fused_reduce_then_multiset(g, key, Seq::empty(), nb, nbu);
            assert(spec_stream(spec_resolve(g, key, nb).passes).to_multiset() =~= spec_stream(
                spec_resolve_unfused(g, key, nbu).passes,
            ).to_multiset());
        },
        ComputeNodeModel::PairWise { first, second, function } => {
            lemma_fused_pair_wise_then_multiset(g, key, Seq::empty(), nb, nbu);
            assert(spec_stream(spec_resolve(g, key, nb).passes).to_multiset() =~= spec_stream(
                spec_resolve_unfused(g, key, nbu).passes,
            ).to_multiset());
        },
        ComputeNodeModel::MatMul { first, second } => {
            let r1f = spec_resolve(g, first, nb);
            let r2f = spec_resolve(g, second, r1f.next_buffer);
            let r1u = spec_resolve_unfused(g, first, nbu);
            let r2u = spec_resolve_unfused(g, second, r1u.next_buffer);
            lemma_fusion_multiset(g, first, nb, nbu);
            lemma_fusion_multiset(g, second, r1f.next_buffer, r1u.next_buffer);
            let pf = PassModel::MatMul(
                crate::dispatch::MatMulPassModel {
                    first: r1f.tensor,
                    second: r2f.tensor,
                    output: spec_fresh_tensor(g, i, r2f.next_buffer),
                },
            );
            let pu = PassModel::MatMul(
                crate::dispatch::MatMulPassModel {
                    first: r1u.tensor,
                    second: r2u.tensor,
                    output: spec_fresh_tensor(g, i, r2u.next_buffer),
                },
            );
            lemma_stream_concat(r1f.passes + r2f.passes, seq![pf]);
            lemma_stream_concat(r1f.passes, r2f.passes);
            lemma_stream_concat(r1u.passes + r2u.passes, seq![pu]);
            lemma_stream_concat(r1u.passes, r2u.passes);
            lemma_stream_single(pf);
            lemma_stream_single(pu);
            assert(spec_pass_stream(pf) == spec_pass_stream(pu));
            assert(spec_stream(spec_resolve(g, key, nb).passes).to_multiset() =~= spec_stream(
                spec_resolve_unfused(g, key, nbu).passes,
            ).to_multiset());
        },
        ComputeNodeModel::SliceAssign { input, value, slices } => {
            let r1f = spec_resolve(g, input, nb);
            let r2f = spec_resolve(g, value, r1f.next_buffer);
            let r1u = spec_resolve_unfused(g, input, nbu);
            let r2u = spec_resolve_unfused(g, value, r1u.next_buffer);
            lemma_fusion_multiset(g, input, nb, nbu);
            lemma_fusion_multiset(g, value, r1f.next_buffer, r1u.next_buffer);
            let pf = PassModel::SliceAssign(
                crate::dispatch::SliceAssignPassModel {
                    input: r1f.tensor,
                    value: r2f.tensor,
                    slices,
                },
            );
            let pu = PassModel::SliceAssign(
                crate::dispatch::SliceAssignPassModel {
                    input: r1u.tensor,
                    value: r2u.tensor,
                    slices,
                },
            );
            lemma_stream_concat(r1f.passes + r2f.passes, seq![pf]);
            lemma_stream_concat(r1f.passes, r2f.passes);
            lemma_stream_concat(r1u.passes + r2u.passes, seq![pu]);
            lemma_stream_concat(r1u.passes, r2u.passes);
            lemma_stream_single(pf);
            lemma_stream_single(pu);
            assert(spec_pass_stream(pf) == spec_pass_stream(pu));
            assert(spec_stream(spec_resolve(g, key, nb).passes).to_multiset() =~= spec_stream(
                spec_resolve_unfused(g, key, nbu).passes,
            ).to_multiset());
        },
    }
}

/// The multiset form of the fused reduce path: its stream holds the
/// unfused reduce plan's operations plus the tail chain's.
proof fn lemma_fused_reduce_then_multiset(
    g: GraphModel,
    key: AnyComputeKey,
    then: Seq<ElementWiseFunctionModel>,
    nb: int,
    nbu: int,
)
    requires
        g.wf(),
        g.key_valid(key),
        key is ReduceComputeNodeKey,
    ensures
        ({
            let i = key_index(key);
            let f = spec_resolve_reduce_then(g, i, then, nb);
            &&& spec_stream(f.passes).to_multiset() == spec_stream(
                spec_resolve_unfused(g, key, nbu).passes,
            ).to_multiset().add(spec_applied(then).to_multiset())
            &&& then.len() == 0 ==> spec_stream(f.passes).to_multiset() == spec_stream(
                spec_resolve_unfused(g, key, nbu).passes,
            ).to_multiset()
        }),
    decreases key_index(key), 1int,
{
    broadcast use vstd::seq_lib::lemma_multiset_commutative;

    let i = key_index(key);
    assert(g.node_wf(i));
    let value = g.nodes[i].op->Reduce_value;
    let axis = g.nodes[i].op->Reduce_axis;
    let function = g.nodes[i].op->Reduce_function;
    if value is ElementWiseComputeNodeKey {
        lemma_collect_props(g, key_index(value));
    }
    let pp = spec_peel(g, value);
    lemma_fusion_multiset(g, pp.1, nb, nbu);
    lemma_unfused_reduce_stream(g, key, nbu);
    let rf = spec_resolve(g, pp.1, nb);
    let uterm = spec_resolve_unfused(g, pp.1, nbu);
    let pf = PassModel::Reduce(
        crate::dispatch::ReducePassModel {
            function,
            axis,
            pre: pp.0,
            post: then,
            input: rf.tensor,
            output: spec_fresh_tensor(g, i, rf.next_buffer),
        },
    );
    lemma_stream_concat(rf.passes, seq![pf]);
    lemma_stream_single(pf);
    let f = spec_resolve_reduce_then(g, i, then, nb);
    assert(f.passes == rf.passes + seq![pf]);
    assert(spec_stream(f.passes).to_multiset() =~= spec_stream(
        spec_resolve_unfused(g, key, nbu).passes,
    ).to_multiset().add(spec_applied(then).to_multiset()));
    if then.len() == 0 {
        lemma_empty_applied_multiset(then);
        assert(spec_stream(f.passes).to_multiset() =~= spec_stream(
            spec_resolve_unfused(g, key, nbu).passes,
        ).to_multiset());
    }
}

/// An empty chain applies no operation: its stream multiset is empty and
/// adding it changes nothing.
proof fn lemma_empty_applied_multiset(then: Seq<ElementWiseFunctionModel>)
    requires
        then.len() == 0,
    ensures
        spec_applied(then).to_multiset() =~= Multiset::<OpAtom>::empty(),
{
    broadcast use vstd::seq_lib::group_to_multiset_ensures;
    broadcast use vstd::multiset::lemma_multiset_empty_len;

    assert(then.reverse() =~= Seq::<ElementWiseFunctionModel>::empty());
    assert(spec_applied(then) =~= Seq::<OpAtom>::empty());
    assert(spec_applied(then).to_multiset().len() == 0);
}

/// The stream of the unfused pairwise plan: each operand's unfused plan
/// ends with its own chain, and the bare combination follows.
proof fn lemma_unfused_pair_wise_stream(g: GraphModel, key: AnyComputeKey, nbu: int)
    requires
        g.wf(),
        g.key_valid(key),
        key is PairWiseComputeNodeKey,
    ensures
        ({
            let i = key_index(key);
            let first = g.nodes[i].op->PairWise_first;
            let second = g.nodes[i].op->PairWise_second;
            let function = g.nodes[i].op->PairWise_function;
            let p1 = spec_peel(g, first);
            let p2 = spec_peel(g, second);
            let u1 = spec_resolve_unfused(g, first, nbu);
            let ut1 = spec_resolve_unfused(g, p1.1, nbu);
            let ut2 = spec_resolve_unfused(g, p2.1, u1.next_buffer);
            spec_stream(spec_resolve_unfused(g, key, nbu).passes) == spec_stream(ut1.passes)
                + spec_applied(p1.0) + spec_stream(ut2.passes) + spec_applied(p2.0) + seq![
                OpAtom::Combine(function),
            ]
        }),
{
    let i = key_index(key);
    assert(g.node_wf(i));
    let first = g.nodes[i].op->PairWise_first;
    let second = g.nodes[i].op->PairWise_second;
    let function = g.nodes[i].op->PairWise_function;
    let u1 = spec_resolve_unfused(g, first, nbu);
    let u2 = spec_resolve_unfused(g, second, u1.next_buffer);
    if first is ElementWiseComputeNodeKey {
        lemma_unfused_chain(g, first, nbu);
    } else {
        assert(spec_peel(g, first).0.reverse() =~= Seq::<ElementWiseFunctionModel>::empty());
        assert(spec_applied(spec_peel(g, first).0) =~= Seq::<OpAtom>::empty());
    }
    if second is ElementWiseComputeNodeKey {
        lemma_unfused_chain(g, second, u1.next_buffer);
    } else {
        assert(spec_peel(g, second).0.reverse() =~= Seq::<ElementWiseFunctionModel>::empty());
        assert(spec_applied(spec_peel(g, second).0) =~= Seq::<OpAtom>::empty());
    }
    let pu = PassModel::PairWise(
        crate::dispatch::PairWisePassModel {
            function,
            pre_first: Seq::empty(),
            pre_second: Seq::empty(),
            post: Seq::empty(),
            first: u1.tensor,
            second: u2.tensor,
            output: spec_fresh_tensor(g, i, u2.next_buffer),
        },
    );
    lemma_stream_concat(u1.passes + u2.passes, seq![pu]);
    lemma_stream_concat(u1.passes, u2.passes);
    lemma_stream_single(pu);
    assert(Seq::<ElementWiseFunctionModel>::empty().reverse()
        =~= Seq::<ElementWiseFunctionModel>::empty());
    assert(spec_applied(Seq::<ElementWiseFunctionModel>::empty()) =~= Seq::<OpAtom>::empty());
    assert(spec_pass_stream(pu) =~= seq![OpAtom::Combine(function)]);
    let p1 = spec_peel(g, first);
    let p2 = spec_peel(g, second);
    let ut1 = spec_resolve_unfused(g, p1.1, nbu);
    let ut2 = spec_resolve_unfused(g, p2.1, u1.next_buffer);
    assert(spec_stream(spec_resolve_unfused(g, key, nbu).passes) =~= spec_stream(ut1.passes)
        + spec_applied(p1.0) + spec_stream(ut2.passes) + spec_applied(p2.0) + seq![
        OpAtom::Combine(function),
    ]);
}

/// The multiset form of the fused pairwise path: its stream holds the
/// unfused pairwise plan's operations plus the tail chain's.
proof fn lemma_fused_pair_wise_then_multiset(
    g: GraphModel,
    key: AnyComputeKey,
    then: Seq<ElementWiseFunctionModel>,
    nb: int,
    nbu: int,
)
    requires
        g.wf(),
        g.key_valid(key),
        key is PairWiseComputeNodeKey,
    ensures
        ({
            let i = key_index(key);
            let f = spec_resolve_pair_wise_then(g, i, then, nb);
            &&& spec_stream(f.passes).to_multiset() == spec_stream(
                spec_resolve_unfused(g, key, nbu).passes,
            ).to_multiset().add(spec_applied(then).to_multiset())
            &&& then.len() == 0 ==> spec_stream(f.passes).to_multiset() == spec_stream(
                spec_resolve_unfused(g, key, nbu).passes,
            ).to_multiset()
        }),
    decreases key_index(key), 1int,
{
    broadcast use vstd::seq_lib::lemma_multiset_commutative;

    let i = key_index(key);
    assert(g.node_wf(i));
    let first = g.nodes[i].op->PairWise_first;
    let second = g.nodes[i].op->PairWise_second;
    let function = g.nodes[i].op->PairWise_function;
    if first is ElementWiseComputeNodeKey {
        lemma_collect_props(g, key_index(first));
    }
    if second is ElementWiseComputeNodeKey {
        lemma_collect_props(g, key_index(second));
    }
    let p1 = spec_peel(g, first);
    let p2 = spec_peel(g, second);
    let u1 = spec_resolve_unfused(g, first, nbu);
    let r1f = spec_resolve(g, p1.1, nb);
    let r2f = spec_resolve(g, p2.1, r1f.next_buffer);
    lemma_fusion_multiset(g, p1.1, nb, nbu);
    lemma_fusion_multiset(g, p2.1, r1f.next_buffer, u1.next_buffer);
    lemma_unfused_pair_wise_stream(g, key, nbu);
    let pf = PassModel::PairWise(
        crate::dispatch::PairWisePassModel {
            function,
            pre_first: p1.0,
            pre_second: p2.0,
            post: then,
            first: r1f.tensor,
            second: r2f.tensor,
            output: spec_fresh_tensor(g, i, r2f.next_buffer),
        },
    );
    lemma_stream_concat(r1f.passes + r2f.passes, seq![pf]);
    lemma_stream_concat(r1f.passes, r2f.passes);
    lemma_stream_single(pf);
    let f = spec_resolve_pair_wise_then(g, i, then, nb);
    assert(f.passes == r1f.passes + r2f.passes + seq![pf]);
    assert(spec_stream(f.passes).to_multiset() =~= spec_stream(
        spec_resolve_unfused(g, key, nbu).passes,
    ).to_multiset().add(spec_applied(then).to_multiset()));
    if then.len() == 0 {
        lemma_empty_applied_multiset(then);
        assert(spec_stream(f.passes).to_multiset() =~= spec_stream(
            spec_resolve_unfused(g, key, nbu).passes,
        ).to_multiset());
    }
}

} // verus!
