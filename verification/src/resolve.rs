//! The graph resolver: post-order traversal with kernel fusion.
//!
//! Resolving a key records the compute passes that realize it and returns
//! the realized tensor handle.  Chains of elementwise nodes collapse into
//! a single fused elementwise dispatch, or into the pre- and post-stages
//! of the pairwise or reduce kernel that produces or consumes them; a
//! layout-mapping node is a pure metadata change and records nothing.
//!
//! The executable resolver is proved equal to the specification
//! [`spec_resolve`], which is the mathematical model the library's laws
//! are stated over.

use vstd::prelude::*;
use crate::dispatch::{
    spec_blocksize, spec_grid, CommandRecorder, ElementWisePassModel, MatMulPass,
    MatMulPassModel, PairWisePass, PairWisePassModel, PassModel, PlannedPass, ReducePass,
    ReducePassModel, ResizePass, ResizePassModel, SliceAssignPass, SliceAssignPassModel,
};
use crate::element_wise::{
    spec_tiled_map, spec_views, ElementWiseFunction, ElementWiseFunctionModel,
    UntypedElementWiseKernel,
};
use crate::graph::{
    key_index, AnyComputeKey, ComputeGraph, ComputeNode, ComputeNodeModel,
    ElementWiseComputeNodeKey, GraphModel, MapLayoutComputeNodeKey, MatMulComputeNodeKey,
    PairWiseComputeNodeKey, ReduceComputeNodeKey, ResizeComputeNodeKey,
    SliceAssignComputeNodeKey, TensorComputeNodeKey,
};
use crate::layout::{apply_slices, spec_apply_slices, spec_layout_uniform};
use crate::tensor::{TensorData, TensorDataModel};

verus! {

/// The outcome of resolving one key: the realized tensor, the passes
/// recorded for it, and the next fresh buffer id.
#[verifier::ext_equal]
pub ghost struct ResolveOut {
    pub tensor: TensorDataModel,
    pub passes: Seq<PassModel>,
    pub next_buffer: int,
}

/// A degenerate outcome, never reached from a well-formed graph.
pub open spec fn spec_resolve_stuck(nb: int) -> ResolveOut {
    ResolveOut { tensor: arbitrary(), passes: Seq::empty(), next_buffer: nb }
}

/// Walks the chain of elementwise nodes from node `i` down to the first
/// non-elementwise input.  Yields the functions nearest-to-root first and
/// the terminal key.
pub open spec fn spec_collect(g: GraphModel, i: int) -> (Seq<ElementWiseFunctionModel>,
    AnyComputeKey)
    decreases i,
{
    if 0 <= i < g.nodes.len() && g.nodes[i].op is ElementWise {
        let value = g.nodes[i].op->ElementWise_value;
        let function = g.nodes[i].op->ElementWise_function;
        if value is ElementWiseComputeNodeKey && 0 <= key_index(value) < i {
            let rest = spec_collect(g, key_index(value));
            (seq![function] + rest.0, rest.1)
        } else {
            (seq![function], value)
        }
    } else {
        (Seq::empty(), arbitrary())
    }
}

/// Peels a producer input: an elementwise input yields its collected
/// chain as a pre-elementwise stage, any other input stays bare.
pub open spec fn spec_peel(g: GraphModel, k: AnyComputeKey) -> (Seq<ElementWiseFunctionModel>,
    AnyComputeKey) {
    if k is ElementWiseComputeNodeKey {
        spec_collect(g, key_index(k))
    } else {
        (Seq::empty(), k)
    }
}

/// A fresh output tensor for producer node `i`: a new buffer under the
/// node's statically inferred layout and datatype.
pub open spec fn spec_fresh_tensor(g: GraphModel, i: int, buffer: int) -> TensorDataModel {
    TensorDataModel { buffer: buffer as u64, layout: g.nodes[i].layout, datatype: g.nodes[i].datatype }
}

/// The fused elementwise pass over `t`: the chain, the shader source
/// specialized to `t`'s contiguity and rank, the grid and the layout
/// uniform.  The pass rewrites `t` in place.
pub open spec fn spec_element_wise_pass(
    chain: Seq<ElementWiseFunctionModel>,
    t: TensorDataModel,
) -> PassModel {
    let contiguous = t.layout.is_contiguous();
    PassModel::ElementWise(
        ElementWisePassModel {
            functions: chain,
            source: spec_tiled_map(
                chain,
                t.datatype,
                spec_blocksize(contiguous, t.layout.rank()),
                true,
                contiguous,
                t.layout.rank(),
            ),
            dense: contiguous,
            grid: spec_grid(t.layout),
            uniform: spec_layout_uniform(t.layout),
            tensor: t,
        },
    )
}

/// Resolves the key `key`, threading the fresh-buffer allocator from
/// `nb`.  This is the mathematical model of the resolver with fusion.
pub open spec fn spec_resolve(g: GraphModel, key: AnyComputeKey, nb: int) -> ResolveOut
    decreases key_index(key), 2int,
{
    let i = key_index(key);
    if 0 <= i < g.nodes.len() {
        match g.nodes[i].op {
            ComputeNodeModel::Tensor { data } => ResolveOut {
                tensor: data,
                passes: Seq::empty(),
                next_buffer: nb,
            },
            ComputeNodeModel::MapLayout { input, slices } => {
                if 0 <= key_index(input) < i {
                    let r = spec_resolve(g, input, nb);
                    ResolveOut {
                        tensor: TensorDataModel {
                            buffer: r.tensor.buffer,
                            layout: spec_apply_slices(r.tensor.layout, slices),
                            datatype: r.tensor.datatype,
                        },
                        passes: r.passes,
                        next_buffer: r.next_buffer,
                    }
                } else {
                    spec_resolve_stuck(nb)
                }
            },
            ComputeNodeModel::ElementWise { value, function } => {
                let cp = spec_collect(g, i);
                let p = cp.1;
                if 0 <= key_index(p) < i {
                    if p is ReduceComputeNodeKey {
                        spec_resolve_reduce_then(g, key_index(p), cp.0, nb)
                    } else if p is PairWiseComputeNodeKey {
                        spec_resolve_pair_wise_then(g, key_index(p), cp.0, nb)
                    } else {
                        let r = spec_resolve(g, p, nb);
                        ResolveOut {
                            tensor: r.tensor,
                            passes: r.passes.push(spec_element_wise_pass(cp.0, r.tensor)),
                            next_buffer: r.next_buffer,
                        }
                    }
                } else {
                    spec_resolve_stuck(nb)
                }
            },
            ComputeNodeModel::PairWise { first, second, function } => spec_resolve_pair_wise_then(
                g,
                i,
                Seq::empty(),
                nb,
            ),
            ComputeNodeModel::Reduce { value, axis, function } => spec_resolve_reduce_then(
                g,
                i,
                Seq::empty(),
                nb,
            ),
            ComputeNodeModel::MatMul { first, second } => {
                if 0 <= key_index(first) < i && 0 <= key_index(second) < i {
                    let r1 = spec_resolve(g, first, nb);
                    let r2 = spec_resolve(g, second, r1.next_buffer);
                    let out = spec_fresh_tensor(g, i, r2.next_buffer);
                    ResolveOut {
                        tensor: out,
                        passes: r1.passes + r2.passes + seq![
                            PassModel::MatMul(
                                MatMulPassModel { first: r1.tensor, second: r2.tensor, output: out },
                            ),
                        ],
                        next_buffer: r2.next_buffer + 1,
                    }
                } else {
                    spec_resolve_stuck(nb)
                }
            },
            ComputeNodeModel::Resize { input, new_shape, fill_shape } => {
                if 0 <= key_index(input) < i {
                    let r = spec_resolve(g, input, nb);
                    let out = spec_fresh_tensor(g, i, r.next_buffer);
                    ResolveOut {
                        tensor: out,
                        passes: r.passes + seq![
                            PassModel::Resize(
                                ResizePassModel {
                                    input: r.tensor,
                                    new_shape,
                                    fill_shape,
                                    output: out,
                                },
                            ),
                        ],
                        next_buffer: r.next_buffer + 1,
                    }
                } else {
                    spec_resolve_stuck(nb)
                }
            },
            ComputeNodeModel::SliceAssign { input, value, slices } => {
                if 0 <= key_index(input) < i && 0 <= key_index(value) < i {
                    let r1 = spec_resolve(g, input, nb);
                    let r2 = spec_resolve(g, value, r1.next_buffer);
                    ResolveOut {
                        tensor: r1.tensor,
                        passes: r1.passes + r2.passes + seq![
                            PassModel::SliceAssign(
                                SliceAssignPassModel {
                                    input: r1.tensor,
                                    value: r2.tensor,
                                    slices,
                                },
                            ),
                        ],
                        next_buffer: r2.next_buffer,
                    }
                } else {
                    spec_resolve_stuck(nb)
                }
            },
        }
    } else {
        spec_resolve_stuck(nb)
    }
}

/// Resolves pairwise node `i` with the collected tail chain `then` fused
/// as its post-elementwise stage; each operand's own elementwise chain is
/// peeled into a pre-elementwise stage.
pub open spec fn spec_resolve_pair_wise_then(
    g: GraphModel,
    i: int,
    then: Seq<ElementWiseFunctionModel>,
    nb: int,
) -> ResolveOut
    decreases i, 0int,
{
    if 0 <= i < g.nodes.len() && g.nodes[i].op is PairWise {
        let first = g.nodes[i].op->PairWise_first;
        let second = g.nodes[i].op->PairWise_second;
        let function = g.nodes[i].op->PairWise_function;
        let p1 = spec_peel(g, first);
        let p2 = spec_peel(g, second);
        if 0 <= key_index(p1.1) < i && 0 <= key_index(p2.1) < i {
            let r1 = spec_resolve(g, p1.1, nb);
            let r2 = spec_resolve(g, p2.1, r1.next_buffer);
            let out = spec_fresh_tensor(g, i, r2.next_buffer);
            ResolveOut {
                tensor: out,
                passes: r1.passes + r2.passes + seq![
                    PassModel::PairWise(
                        PairWisePassModel {
                            function,
                            pre_first: p1.0,
                            pre_second: p2.0,
                            post: then,
                            first: r1.tensor,
                            second: r2.tensor,
                            output: out,
                        },
                    ),
                ],
                next_buffer: r2.next_buffer + 1,
            }
        } else {
            spec_resolve_stuck(nb)
        }
    } else {
        spec_resolve_stuck(nb)
    }
}

/// Resolves reduce node `i` with the collected tail chain `then` fused as
/// its post-elementwise stage; the input's own elementwise chain is
/// peeled into the pre-elementwise stage.
pub open spec fn spec_resolve_reduce_then(
    g: GraphModel,
    i: int,
    then: Seq<ElementWiseFunctionModel>,
    nb: int,
) -> ResolveOut
    decreases i, 0int,
{
    if 0 <= i < g.nodes.len() && g.nodes[i].op is Reduce {
        let value = g.nodes[i].op->Reduce_value;
        let axis = g.nodes[i].op->Reduce_axis;
        let function = g.nodes[i].op->Reduce_function;
        let p = spec_peel(g, value);
        if 0 <= key_index(p.1) < i {
            let r = spec_resolve(g, p.1, nb);
            let out = spec_fresh_tensor(g, i, r.next_buffer);
            ResolveOut {
                tensor: out,
                passes: r.passes + seq![
                    PassModel::Reduce(
                        ReducePassModel {
                            function,
                            axis,
                            pre: p.0,
                            post: then,
                            input: r.tensor,
                            output: out,
                        },
                    ),
                ],
                next_buffer: r.next_buffer + 1,
            }
        } else {
            spec_resolve_stuck(nb)
        }
    } else {
        spec_resolve_stuck(nb)
    }
}

/// Walking an elementwise chain in a well-formed graph yields at least
/// one function, ends at a valid non-elementwise key below the start, and
/// keeps the statically inferred layout and datatype.
pub proof fn lemma_collect_props(g: GraphModel, i: int)
    requires
        g.wf(),
        0 <= i < g.nodes.len(),
        g.nodes[i].op is ElementWise,
    ensures
        ({
            let cp = spec_collect(g, i);
            &&& cp.0.len() >= 1
            &&& g.key_valid(cp.1)
            &&& key_index(cp.1) < i
            &&& !(cp.1 is ElementWiseComputeNodeKey)
            &&& g.nodes[key_index(cp.1)].layout == g.nodes[i].layout
            &&& g.nodes[key_index(cp.1)].datatype == g.nodes[i].datatype
        }),
    decreases i,
{
    assert(g.node_wf(i));
    let value = g.nodes[i].op->ElementWise_value;
    if value is ElementWiseComputeNodeKey {
        lemma_collect_props(g, key_index(value));
    }
}

/// The collected chain's functions all come from elementwise nodes at or
/// below `i`, so under the monotonic allocator their ids are pairwise
/// distinct.
pub proof fn lemma_collect_ids_distinct(g: GraphModel, i: int)
    requires
        g.wf(),
        0 <= i < g.nodes.len(),
        g.nodes[i].op is ElementWise,
    ensures
        ({
            let chain = spec_collect(g, i).0;
            forall|a: int, b: int|
                0 <= a < chain.len() && 0 <= b < chain.len() && a != b ==> (#[trigger] chain[a]).name_id
                    != (#[trigger] chain[b]).name_id
        }),
    decreases i,
{
    assert(g.node_wf(i));
    let value = g.nodes[i].op->ElementWise_value;
    let function = g.nodes[i].op->ElementWise_function;
    let chain = spec_collect(g, i).0;
    if value is ElementWiseComputeNodeKey && 0 <= key_index(value) < i {
        let rest = spec_collect(g, key_index(value)).0;
        lemma_collect_ids_distinct(g, key_index(value));
        lemma_collect_ids_in_nodes(g, key_index(value));
        assert forall|a: int, b: int|
            0 <= a < chain.len() && 0 <= b < chain.len() && a != b implies (
        #[trigger] chain[a]).name_id != (#[trigger] chain[b]).name_id by {
            if a == 0 || b == 0 {
                let c = if a == 0 { b } else { a };
                let j = choose|j: int|
                    0 <= j < g.nodes.len() && g.nodes[j].op is ElementWise && #[trigger] g.nodes[j].op->ElementWise_function
                        == rest[c - 1] && j <= key_index(value);
                assert(g.nodes[i].op->ElementWise_function == function);
                assert(j != i);
            }
        }
    }
}

/// Every function of a collected chain is the function of some
/// elementwise node at or below the start.
pub proof fn lemma_collect_ids_in_nodes(g: GraphModel, i: int)
    requires
        g.wf(),
        0 <= i < g.nodes.len(),
        g.nodes[i].op is ElementWise,
    ensures
        ({
            let chain = spec_collect(g, i).0;
            forall|c: int|
                0 <= c < chain.len() ==> exists|j: int|
                    0 <= j < g.nodes.len() && g.nodes[j].op is ElementWise
                        && #[trigger] g.nodes[j].op->ElementWise_function == #[trigger] chain[c]
                        && j <= i
        }),
    decreases i,
{
    assert(g.node_wf(i));
    let value = g.nodes[i].op->ElementWise_value;
    let chain = spec_collect(g, i).0;
    if value is ElementWiseComputeNodeKey && 0 <= key_index(value) < i {
        lemma_collect_ids_in_nodes(g, key_index(value));
        let rest = spec_collect(g, key_index(value)).0;
        assert forall|c: int| 0 <= c < chain.len() implies exists|j: int|
            0 <= j < g.nodes.len() && g.nodes[j].op is ElementWise
                && #[trigger] g.nodes[j].op->ElementWise_function == #[trigger] chain[c] && j
                <= i by {
            if c == 0 {
                assert(g.nodes[i].op is ElementWise && g.nodes[i].op->ElementWise_function
                    == chain[0] && i <= i);
            } else {
                assert(chain[c] == rest[c - 1]);
                let j = choose|j: int|
                    0 <= j < g.nodes.len() && g.nodes[j].op is ElementWise && #[trigger] g.nodes[j].op->ElementWise_function
                        == rest[c - 1] && j <= key_index(value);
                assert(g.nodes[j].op->ElementWise_function == chain[c] && j <= i);
            }
        }
    } else {
        assert forall|c: int| 0 <= c < chain.len() implies exists|j: int|
            0 <= j < g.nodes.len() && g.nodes[j].op is ElementWise
                && #[trigger] g.nodes[j].op->ElementWise_function == #[trigger] chain[c] && j
                <= i by {
            assert(g.nodes[i].op is ElementWise && g.nodes[i].op->ElementWise_function == chain[0]
                && i <= i);
        }
    }
}

/// Resolving a valid key of a well-formed graph yields a tensor whose
/// layout and datatype are the ones static shape inference predicts, and
/// never hands out a buffer id below the allocator's start.
pub proof fn lemma_resolve_props(g: GraphModel, key: AnyComputeKey, nb: int)
    requires
        g.wf(),
        g.key_valid(key),
    ensures
        ({
            let out = spec_resolve(g, key, nb);
            &&& out.tensor.layout == g.node_layout(key)
            &&& out.tensor.datatype == g.node_datatype(key)
            &&& nb <= out.next_buffer
        }),
    decreases key_index(key), 2int,
{
    let i = key_index(key);
    assert(g.node_wf(i));
    match g.nodes[i].op {
        ComputeNodeModel::Tensor { data } => {},
        ComputeNodeModel::MapLayout { input, slices } => {
            lemma_resolve_props(g, input, nb);
        },
        ComputeNodeModel::ElementWise { value, function } => {
            lemma_collect_props(g, i);
            let cp = spec_collect(g, i);
            let p = cp.1;
            if p is ReduceComputeNodeKey {
                lemma_resolve_reduce_then_props(g, key_index(p), cp.0, nb);
            } else if p is PairWiseComputeNodeKey {
                lemma_resolve_pair_wise_then_props(g, key_index(p), cp.0, nb);
            } else {
                lemma_resolve_props(g, p, nb);
            }
        },
        ComputeNodeModel::PairWise { first, second, function } => {
            lemma_resolve_pair_wise_then_props(g, i, Seq::empty(), nb);
        },
        ComputeNodeModel::Reduce { value, axis, function } => {
            lemma_resolve_reduce_then_props(g, i, Seq::empty(), nb);
        },
        ComputeNodeModel::MatMul { first, second } => {
            let r1 = spec_resolve(g, first, nb);
            lemma_resolve_props(g, first, nb);
            lemma_resolve_props(g, second, r1.next_buffer);
        },
        ComputeNodeModel::Resize { input, new_shape, fill_shape } => {
            lemma_resolve_props(g, input, nb);
        },
        ComputeNodeModel::SliceAssign { input, value, slices } => {
            let r1 = spec_resolve(g, input, nb);
            lemma_resolve_props(g, input, nb);
            lemma_resolve_props(g, value, r1.next_buffer);
        },
    }
}

/// [`lemma_resolve_props`] for the pairwise fusion path.
pub proof fn lemma_resolve_pair_wise_then_props(
    g: GraphModel,
    i: int,
    then: Seq<ElementWiseFunctionModel>,
    nb: int,
)
    requires
        g.wf(),
        0 <= i < g.nodes.len(),
        g.nodes[i].op is PairWise,
    ensures
        ({
            let out = spec_resolve_pair_wise_then(g, i, then, nb);
            &&& out.tensor.layout == g.nodes[i].layout
            &&& out.tensor.datatype == g.nodes[i].datatype
            &&& nb <= out.next_buffer
        }),
    decreases i, 0int,
{
    assert(g.node_wf(i));
    let first = g.nodes[i].op->PairWise_first;
    let second = g.nodes[i].op->PairWise_second;
    if first is ElementWiseComputeNodeKey {
        lemma_collect_props(g, key_index(first));
    }
    if second is ElementWiseComputeNodeKey {
        lemma_collect_props(g, key_index(second));
    }
    let p1 = spec_peel(g, first);
    let p2 = spec_peel(g, second);
    let r1 = spec_resolve(g, p1.1, nb);
    lemma_resolve_props(g, p1.1, nb);
    lemma_resolve_props(g, p2.1, r1.next_buffer);
}

/// [`lemma_resolve_props`] for the reduce fusion path.
pub proof fn lemma_resolve_reduce_then_props(
    g: GraphModel,
    i: int,
    then: Seq<ElementWiseFunctionModel>,
    nb: int,
)
    requires
        g.wf(),
        0 <= i < g.nodes.len(),
        g.nodes[i].op is Reduce,
    ensures
        ({
            let out = spec_resolve_reduce_then(g, i, then, nb);
            &&& out.tensor.layout == g.nodes[i].layout
            &&& out.tensor.datatype == g.nodes[i].datatype
            &&& nb <= out.next_buffer
        }),
    decreases i, 0int,
{
    assert(g.node_wf(i));
    let value = g.nodes[i].op->Reduce_value;
    if value is ElementWiseComputeNodeKey {
        lemma_collect_props(g, key_index(value));
    }
    let p = spec_peel(g, value);
    lemma_resolve_props(g, p.1, nb);
}

impl ComputeGraph {
    /// Collects the chain of elementwise functions hanging off `key`,
    /// nearest-to-root first, and the first non-elementwise input it
    /// terminates at.
    pub fn collect_element_wise_ops(&self, key: ElementWiseComputeNodeKey) -> (r: (
        Vec<ElementWiseFunction>,
        AnyComputeKey,
    ))
        requires
            self@.wf(),
            self@.key_valid(AnyComputeKey::ElementWiseComputeNodeKey(key)),
        ensures
            spec_views(r.0@) == spec_collect(self@, key.index as int).0,
            r.1 == spec_collect(self@, key.index as int).1,
        decreases key.index,
    {
        proof {
            assert(self@.node_wf(key.index as int));
        }
        let (value, function) = {
            let node = self.node(AnyComputeKey::ElementWiseComputeNodeKey(key));
            match &node.op {
                ComputeNode::ElementWise(op) => (op.value, op.function.clone()),
                _ => vstd::pervasive::unreached(),
            }
        };
        match value {
            AnyComputeKey::ElementWiseComputeNodeKey(k2) => {
                let (mut fs, p) = self.collect_element_wise_ops(k2);
                fs.insert(0, function);
                proof {
                    assert(spec_views(fs@) =~= spec_collect(self@, key.index as int).0);
                }
                (fs, p)
            },
            _ => {
                let mut fs: Vec<ElementWiseFunction> = Vec::new();
                fs.push(function);
                proof {
                    assert(spec_views(fs@) =~= spec_collect(self@, key.index as int).0);
                }
                (fs, value)
            },
        }
    }

    /// Resolves `key` against this graph, appending the compute passes
    /// that realize it to `rec` and returning the realized tensor.  The
    /// recorder's allocator must have room for the fresh buffers the
    /// resolve hands out.
    pub fn resolve(&self, key: AnyComputeKey, rec: &mut CommandRecorder) -> (r: TensorData)
        requires
            self@.wf(),
            self@.key_valid(key),
            spec_resolve(self@, key, old(rec)@.next_buffer).next_buffer <= u64::MAX,
        ensures
            ({
                let out = spec_resolve(self@, key, old(rec)@.next_buffer);
                &&& r@ == out.tensor
                &&& final(rec)@.passes =~= old(rec)@.passes + out.passes
                &&& final(rec)@.next_buffer == out.next_buffer
            }),
        decreases key_index(key), 2int,
    {
        match key {
            AnyComputeKey::ElementWiseComputeNodeKey(k) => self.resolve_element_wise(k, rec),
            AnyComputeKey::PairWiseComputeNodeKey(k) => self.resolve_pair_wise(k, rec),
            AnyComputeKey::MatMulComputeNodeKey(k) => self.resolve_mat_mul(k, rec),
            AnyComputeKey::ReduceComputeNodeKey(k) => self.resolve_reduce(k, rec),
            AnyComputeKey::TensorComputeNodeKey(k) => self.resolve_tensor(k, rec),
            AnyComputeKey::MapLayoutComputeNodeKey(k) => self.resolve_slice(k, rec),
            AnyComputeKey::ResizeComputeNodeKey(k) => self.resolve_resize(k, rec),
            AnyComputeKey::SliceAssignComputeNodeKey(k) => self.resolve_slice_assign(k, rec),
        }
    }

    /// Resolves a tensor leaf: hands back the stored tensor, recording
    /// nothing.
    fn resolve_tensor(&self, key: TensorComputeNodeKey, rec: &mut CommandRecorder) -> (r:
        TensorData)
        requires
            self@.wf(),
            self@.key_valid(AnyComputeKey::TensorComputeNodeKey(key)),
        ensures
            ({
                let out = spec_resolve(self@, AnyComputeKey::TensorComputeNodeKey(key), old(
                    rec,
                )@.next_buffer);
                &&& r@ == out.tensor
                &&& final(rec)@.passes =~= old(rec)@.passes + out.passes
                &&& final(rec)@.next_buffer == out.next_buffer
            }),
        decreases key.index, 1int,
    {
        let node = self.node(AnyComputeKey::TensorComputeNodeKey(key));
        let r = match &node.op {
            ComputeNode::Tensor(data) => data.clone(),
            _ => vstd::pervasive::unreached(),
        };
        proof {
            assert(final(rec)@.passes =~= old(rec)@.passes + Seq::<PassModel>::empty());
        }
        r
    }

    /// Resolves a layout-mapping node: resolves the input and applies the
    /// slices as a pure metadata change over the same buffer.  No compute
    /// pass is recorded for the node itself.
    fn resolve_slice(&self, key: MapLayoutComputeNodeKey, rec: &mut CommandRecorder) -> (r:
        TensorData)
        requires
            self@.wf(),
            self@.key_valid(AnyComputeKey::MapLayoutComputeNodeKey(key)),
            spec_resolve(self@, AnyComputeKey::MapLayoutComputeNodeKey(key), old(
                rec,
            )@.next_buffer).next_buffer <= u64::MAX,
        ensures
            ({
                let out = spec_resolve(self@, AnyComputeKey::MapLayoutComputeNodeKey(key), old(
                    rec,
                )@.next_buffer);
                &&& r@ == out.tensor
                &&& final(rec)@.passes =~= old(rec)@.passes + out.passes
                &&& final(rec)@.next_buffer == out.next_buffer
            }),
        decreases key.index, 1int,
    {
        proof {
            assert(self@.node_wf(key.index as int));
        }
        let input_key = {
            let node = self.node(AnyComputeKey::MapLayoutComputeNodeKey(key));
            match &node.op {
                ComputeNode::MapLayout(op) => op.input,
                _ => vstd::pervasive::unreached(),
            }
        };
        proof {
            let g = self@;
            let nb0 = old(rec)@.next_buffer;
            let sub = spec_resolve(g, input_key, nb0);
            let out = spec_resolve(g, AnyComputeKey::MapLayoutComputeNodeKey(key), nb0);
            lemma_resolve_props(g, input_key, nb0);
            assert(out.next_buffer == sub.next_buffer);
            assert(g.node_wf(key_index(input_key)));
        }
        let input = self.resolve(input_key, rec);
        let node = self.node(AnyComputeKey::MapLayoutComputeNodeKey(key));
        let sliced = match &node.op {
            ComputeNode::MapLayout(op) => {
                match apply_slices(&input.layout, &op.slices) {
                    Ok(nl) => nl,
                    Err(_) => vstd::pervasive::unreached(),
                }
            },
            _ => vstd::pervasive::unreached(),
        };
        let r = TensorData::new(input.buffer, sliced, input.datatype);
        proof {
            let out = spec_resolve(self@, AnyComputeKey::MapLayoutComputeNodeKey(key), old(
                rec,
            )@.next_buffer);
            assert(r@ =~= out.tensor);
        }
        r
    }

    /// Resolves an elementwise node: collapses the whole chain, fuses it
    /// into a reduce or pairwise producer where one terminates the chain,
    /// and otherwise materializes the terminal input and runs the chain as
    /// one standalone in-place dispatch over it.
    fn resolve_element_wise(&self, key: ElementWiseComputeNodeKey, rec: &mut CommandRecorder) -> (r:
        TensorData)
        requires
            self@.wf(),
            self@.key_valid(AnyComputeKey::ElementWiseComputeNodeKey(key)),
            spec_resolve(self@, AnyComputeKey::ElementWiseComputeNodeKey(key), old(
                rec,
            )@.next_buffer).next_buffer <= u64::MAX,
        ensures
            ({
                let out = spec_resolve(self@, AnyComputeKey::ElementWiseComputeNodeKey(key), old(
                    rec,
                )@.next_buffer);
                &&& r@ == out.tensor
                &&& final(rec)@.passes =~= old(rec)@.passes + out.passes
                &&& final(rec)@.next_buffer == out.next_buffer
            }),
        decreases key.index, 1int,
    {
        proof {
            lemma_collect_props(self@, key.index as int);
        }
        let (functions, input) = self.collect_element_wise_ops(key);
        match input {
            AnyComputeKey::ReduceComputeNodeKey(k) => self.resolve_reduce_then(k, functions, rec),
            AnyComputeKey::PairWiseComputeNodeKey(k) => self.resolve_pair_wise_then(
                k,
                functions,
                rec,
            ),
            _ => {
                proof {
                    let g = self@;
                    let nb0 = old(rec)@.next_buffer;
                    let sub = spec_resolve(g, input, nb0);
                    let out = spec_resolve(g, AnyComputeKey::ElementWiseComputeNodeKey(key), nb0);
                    lemma_resolve_props(g, input, nb0);
                    assert(out.next_buffer == sub.next_buffer);
                    assert(g.node_wf(key_index(input)));
                }
                let input_t = self.resolve(input, rec);
                let mut kernel = UntypedElementWiseKernel::new(functions, input_t.datatype());
                let r = match kernel.run(&input_t, rec) {
                    Some(t) => t,
                    None => vstd::pervasive::unreached(),
                };
                proof {
                    let out = spec_resolve(self@, AnyComputeKey::ElementWiseComputeNodeKey(key),
                        old(rec)@.next_buffer);
                    let sub = spec_resolve(self@, input, old(rec)@.next_buffer);
                    assert(out.passes =~= sub.passes.push(
                        spec_element_wise_pass(spec_collect(self@, key.index as int).0, sub.tensor),
                    ));
                    assert(final(rec)@.passes =~= old(rec)@.passes + out.passes);
                }
                r
            },
        }
    }

    /// Resolves a pairwise node with no tail chain.
    fn resolve_pair_wise(&self, key: PairWiseComputeNodeKey, rec: &mut CommandRecorder) -> (r:
        TensorData)
        requires
            self@.wf(),
            self@.key_valid(AnyComputeKey::PairWiseComputeNodeKey(key)),
            spec_resolve(self@, AnyComputeKey::PairWiseComputeNodeKey(key), old(
                rec,
            )@.next_buffer).next_buffer <= u64::MAX,
        ensures
            ({
                let out = spec_resolve(self@, AnyComputeKey::PairWiseComputeNodeKey(key), old(
                    rec,
                )@.next_buffer);
                &&& r@ == out.tensor
                &&& final(rec)@.passes =~= old(rec)@.passes + out.passes
                &&& final(rec)@.next_buffer == out.next_buffer
            }),
        decreases key.index, 1int,
    {
        let then: Vec<ElementWiseFunction> = Vec::new();
        proof {
            assert(spec_views(then@) =~= Seq::<ElementWiseFunctionModel>::empty());
        }
        self.resolve_pair_wise_then(key, then, rec)
    }

    /// Resolves a pairwise node, fusing `then` as the post-elementwise
    /// stage and each operand's own elementwise chain as its
    /// pre-elementwise stage.  Operands resolve left before right, which
    /// pins the dispatch order.
    #[verifier::rlimit(100)]
    fn resolve_pair_wise_then(
        &self,
        key: PairWiseComputeNodeKey,
        then: Vec<ElementWiseFunction>,
        rec: &mut CommandRecorder,
    ) -> (r: TensorData)
        requires
            self@.wf(),
            self@.key_valid(AnyComputeKey::PairWiseComputeNodeKey(key)),
            spec_resolve_pair_wise_then(self@, key.index as int, spec_views(then@), old(
                rec,
            )@.next_buffer).next_buffer <= u64::MAX,
        ensures
            ({
                let out = spec_resolve_pair_wise_then(self@, key.index as int, spec_views(then@),
                    old(rec)@.next_buffer);
                &&& r@ == out.tensor
                &&& final(rec)@.passes =~= old(rec)@.passes + out.passes
                &&& final(rec)@.next_buffer == out.next_buffer
            }),
        decreases key.index, 0int,
    {
        proof {
            assert(self@.node_wf(key.index as int));
        }
        let (first_key, second_key, function) = {
            let node = self.node(AnyComputeKey::PairWiseComputeNodeKey(key));
            match &node.op {
                ComputeNode::PairWise(op) => (op.first, op.second, op.function.clone()),
                _ => vstd::pervasive::unreached(),
            }
        };
        let mut first_input = first_key;
        let first_pre: Vec<ElementWiseFunction> = match first_key {
            AnyComputeKey::ElementWiseComputeNodeKey(k) => {
                proof {
                    lemma_collect_props(self@, k.index as int);
                }
                let (fs, inp) = self.collect_element_wise_ops(k);
                first_input = inp;
                fs
            },
            _ => {
                let v: Vec<ElementWiseFunction> = Vec::new();
                proof {
                    assert(spec_views(v@) =~= Seq::<ElementWiseFunctionModel>::empty());
                }
                v
            },
        };
        let mut second_input = second_key;
        let second_pre: Vec<ElementWiseFunction> = match second_key {
            AnyComputeKey::ElementWiseComputeNodeKey(k) => {
                proof {
                    lemma_collect_props(self@, k.index as int);
                }
                let (fs, inp) = self.collect_element_wise_ops(k);
                second_input = inp;
                fs
            },
            _ => {
                let v: Vec<ElementWiseFunction> = Vec::new();
                proof {
                    assert(spec_views(v@) =~= Seq::<ElementWiseFunctionModel>::empty());
                }
                v
            },
        };
        proof {
            let g = self@;
            let nb0 = old(rec)@.next_buffer;
            let r1 = spec_resolve(g, first_input, nb0);
            lemma_resolve_props(g, first_input, nb0);
            let r2 = spec_resolve(g, second_input, r1.next_buffer);
            lemma_resolve_props(g, second_input, r1.next_buffer);
            let out = spec_resolve_pair_wise_then(g, key.index as int, spec_views(then@), nb0);
            assert(out.next_buffer == r2.next_buffer + 1);
            assert(r1.next_buffer <= u64::MAX && r2.next_buffer < u64::MAX);
        }
        let first = self.resolve(first_input, rec);
        let second = self.resolve(second_input, rec);
        let (out_layout, out_datatype) = {
            let node = self.node(AnyComputeKey::PairWiseComputeNodeKey(key));
            (node.layout.clone(), node.datatype)
        };
        let buffer = rec.alloc_buffer();
        let output = TensorData::new(buffer, out_layout, out_datatype);
        rec.record(
            PlannedPass::PairWise(
                PairWisePass {
                    function,
                    pre_first: first_pre,
                    pre_second: second_pre,
                    post: then,
                    first,
                    second,
                    output: output.clone(),
                },
            ),
        );
        proof {
            let out = spec_resolve_pair_wise_then(self@, key.index as int, spec_views(then@), old(
                rec,
            )@.next_buffer);
            assert(output@ =~= out.tensor);
            assert(final(rec)@.passes =~= old(rec)@.passes + out.passes);
        }
        output
    }

    /// Resolves a matrix-multiplication node: resolves both operands and
    /// records one matmul dispatch into a fresh output buffer.
    fn resolve_mat_mul(&self, key: MatMulComputeNodeKey, rec: &mut CommandRecorder) -> (r:
        TensorData)
        requires
            self@.wf(),
            self@.key_valid(AnyComputeKey::MatMulComputeNodeKey(key)),
            spec_resolve(self@, AnyComputeKey::MatMulComputeNodeKey(key), old(
                rec,
            )@.next_buffer).next_buffer <= u64::MAX,
        ensures
            ({
                let out = spec_resolve(self@, AnyComputeKey::MatMulComputeNodeKey(key), old(
                    rec,
                )@.next_buffer);
                &&& r@ == out.tensor
                &&& final(rec)@.passes =~= old(rec)@.passes + out.passes
                &&& final(rec)@.next_buffer == out.next_buffer
            }),
        decreases key.index, 1int,
    {
        proof {
            assert(self@.node_wf(key.index as int));
        }
        let (first_key, second_key) = {
            let node = self.node(AnyComputeKey::MatMulComputeNodeKey(key));
            match &node.op {
                ComputeNode::MatMul(op) => (op.first, op.second),
                _ => vstd::pervasive::unreached(),
            }
        };
        proof {
            let g = self@;
            let nb0 = old(rec)@.next_buffer;
            let r1 = spec_resolve(g, first_key, nb0);
            lemma_resolve_props(g, first_key, nb0);
            let r2 = spec_resolve(g, second_key, r1.next_buffer);
            lemma_resolve_props(g, second_key, r1.next_buffer);
            let out = spec_resolve(g, AnyComputeKey::MatMulComputeNodeKey(key), nb0);
            assert(out.next_buffer == r2.next_buffer + 1);
            assert(r1.next_buffer <= u64::MAX && r2.next_buffer < u64::MAX);
        }
        let first = self.resolve(first_key, rec);
        let second = self.resolve(second_key, rec);
        let (out_layout, out_datatype) = {
            let node = self.node(AnyComputeKey::MatMulComputeNodeKey(key));
            (node.layout.clone(), node.datatype)
        };
        let buffer = rec.alloc_buffer();
        let output = TensorData::new(buffer, out_layout, out_datatype);
        rec.record(
            PlannedPass::MatMul(MatMulPass { first, second, output: output.clone() }),
        );
        proof {
            let out = spec_resolve(self@, AnyComputeKey::MatMulComputeNodeKey(key), old(
                rec,
            )@.next_buffer);
            assert(output@ =~= out.tensor);
            assert(final(rec)@.passes =~= old(rec)@.passes + out.passes);
        }
        output
    }

    /// Resolves a reduce node with no tail chain.
    fn resolve_reduce(&self, key: ReduceComputeNodeKey, rec: &mut CommandRecorder) -> (r:
        TensorData)
        requires
            self@.wf(),
            self@.key_valid(AnyComputeKey::ReduceComputeNodeKey(key)),
            spec_resolve(self@, AnyComputeKey::ReduceComputeNodeKey(key), old(
                rec,
            )@.next_buffer).next_buffer <= u64::MAX,
        ensures
            ({
                let out = spec_resolve(self@, AnyComputeKey::ReduceComputeNodeKey(key), old(
                    rec,
                )@.next_buffer);
                &&& r@ == out.tensor
                &&& final(rec)@.passes =~= old(rec)@.passes + out.passes
                &&& final(rec)@.next_buffer == out.next_buffer
            }),
        decreases key.index, 1int,
    {
        let then: Vec<ElementWiseFunction> = Vec::new();
        proof {
            assert(spec_views(then@) =~= Seq::<ElementWiseFunctionModel>::empty());
        }
        self.resolve_reduce_then(key, then, rec)
    }

    /// Resolves a reduce node, fusing `then` as the post-elementwise stage
    /// and the input's own elementwise chain as the pre-elementwise stage.
    fn resolve_reduce_then(
        &self,
        key: ReduceComputeNodeKey,
        then: Vec<ElementWiseFunction>,
        rec: &mut CommandRecorder,
    ) -> (r: TensorData)
        requires
            self@.wf(),
            self@.key_valid(AnyComputeKey::ReduceComputeNodeKey(key)),
            spec_resolve_reduce_then(self@, key.index as int, spec_views(then@), old(
                rec,
            )@.next_buffer).next_buffer <= u64::MAX,
        ensures
            ({
                let out = spec_resolve_reduce_then(self@, key.index as int, spec_views(then@), old(
                    rec,
                )@.next_buffer);
                &&& r@ == out.tensor
                &&& final(rec)@.passes =~= old(rec)@.passes + out.passes
                &&& final(rec)@.next_buffer == out.next_buffer
            }),
        decreases key.index, 0int,
    {
        proof {
            assert(self@.node_wf(key.index as int));
        }
        let (value_key, axis, function) = {
            let node = self.node(AnyComputeKey::ReduceComputeNodeKey(key));
            match &node.op {
                ComputeNode::Reduce(op) => (op.value, op.axis, op.function.clone()),
                _ => vstd::pervasive::unreached(),
            }
        };
        let mut input_key = value_key;
        let pre: Vec<ElementWiseFunction> = match value_key {
            AnyComputeKey::ElementWiseComputeNodeKey(k) => {
                proof {
                    lemma_collect_props(self@, k.index as int);
                }
                let (fs, inp) = self.collect_element_wise_ops(k);
                input_key = inp;
                fs
            },
            _ => {
                let v: Vec<ElementWiseFunction> = Vec::new();
                proof {
                    assert(spec_views(v@) =~= Seq::<ElementWiseFunctionModel>::empty());
                }
                v
            },
        };
        proof {
            let g = self@;
            let nb0 = old(rec)@.next_buffer;
            let r1 = spec_resolve(g, input_key, nb0);
            lemma_resolve_props(g, input_key, nb0);
            let out = spec_resolve_reduce_then(g, key.index as int, spec_views(then@), nb0);
            assert(out.next_buffer == r1.next_buffer + 1);
            assert(r1.next_buffer < u64::MAX);
        }
        let input = self.resolve(input_key, rec);
        let (out_layout, out_datatype) = {
            let node = self.node(AnyComputeKey::ReduceComputeNodeKey(key));
            (node.layout.clone(), node.datatype)
        };
        let buffer = rec.alloc_buffer();
        let output = TensorData::new(buffer, out_layout, out_datatype);
        rec.record(
            PlannedPass::Reduce(
                ReducePass { function, axis, pre, post: then, input, output: output.clone() },
            ),
        );
        proof {
            let out = spec_resolve_reduce_then(self@, key.index as int, spec_views(then@), old(
                rec,
            )@.next_buffer);
            assert(output@ =~= out.tensor);
            assert(final(rec)@.passes =~= old(rec)@.passes + out.passes);
        }
        output
    }

    /// Resolves a resize node: resolves the input and records one resize
    /// dispatch into a fresh output buffer.  Elementwise chains upstream
    /// of a resize are not fused into it.
    fn resolve_resize(&self, key: ResizeComputeNodeKey, rec: &mut CommandRecorder) -> (r:
        TensorData)
        requires
            self@.wf(),
            self@.key_valid(AnyComputeKey::ResizeComputeNodeKey(key)),
            spec_resolve(self@, AnyComputeKey::ResizeComputeNodeKey(key), old(
                rec,
            )@.next_buffer).next_buffer <= u64::MAX,
        ensures
            ({
                let out = spec_resolve(self@, AnyComputeKey::ResizeComputeNodeKey(key), old(
                    rec,
                )@.next_buffer);
                &&& r@ == out.tensor
                &&& final(rec)@.passes =~= old(rec)@.passes + out.passes
                &&& final(rec)@.next_buffer == out.next_buffer
            }),
        decreases key.index, 1int,
    {
        proof {
            assert(self@.node_wf(key.index as int));
        }
        let input_key = {
            let node = self.node(AnyComputeKey::ResizeComputeNodeKey(key));
            match &node.op {
                ComputeNode::Resize(op) => op.input,
                _ => vstd::pervasive::unreached(),
            }
        };
        proof {
            let g = self@;
            let nb0 = old(rec)@.next_buffer;
            let r1 = spec_resolve(g, input_key, nb0);
            lemma_resolve_props(g, input_key, nb0);
            let out = spec_resolve(g, AnyComputeKey::ResizeComputeNodeKey(key), nb0);
            assert(out.next_buffer == r1.next_buffer + 1);
            assert(r1.next_buffer < u64::MAX);
        }
        let input = self.resolve(input_key, rec);
        let (new_shape, fill_shape, out_layout, out_datatype) = {
            let node = self.node(AnyComputeKey::ResizeComputeNodeKey(key));
            match &node.op {
                ComputeNode::Resize(op) => (
                    crate::layout::clone_usizes(&op.new_shape),
                    crate::layout::clone_usizes(&op.fill_shape),
                    node.layout.clone(),
                    node.datatype,
                ),
                _ => vstd::pervasive::unreached(),
            }
        };
        let buffer = rec.alloc_buffer();
        let output = TensorData::new(buffer, out_layout, out_datatype);
        rec.record(
            PlannedPass::Resize(
                ResizePass { input, new_shape, fill_shape, output: output.clone() },
            ),
        );
        proof {
            let out = spec_resolve(self@, AnyComputeKey::ResizeComputeNodeKey(key), old(
                rec,
            )@.next_buffer);
            assert(output@ =~= out.tensor);
            assert(final(rec)@.passes =~= old(rec)@.passes + out.passes);
        }
        output
    }

    /// Resolves a slice-assignment node: resolves the target and the
    /// value, records one slice-assign dispatch, and returns the target,
    /// which is written in place.
    fn resolve_slice_assign(&self, key: SliceAssignComputeNodeKey, rec: &mut CommandRecorder) -> (r:
        TensorData)
        requires
            self@.wf(),
            self@.key_valid(AnyComputeKey::SliceAssignComputeNodeKey(key)),
            spec_resolve(self@, AnyComputeKey::SliceAssignComputeNodeKey(key), old(
                rec,
            )@.next_buffer).next_buffer <= u64::MAX,
        ensures
            ({
                let out = spec_resolve(self@, AnyComputeKey::SliceAssignComputeNodeKey(key), old(
                    rec,
                )@.next_buffer);
                &&& r@ == out.tensor
                &&& final(rec)@.passes =~= old(rec)@.passes + out.passes
                &&& final(rec)@.next_buffer == out.next_buffer
            }),
        decreases key.index, 1int,
    {
        proof {
            assert(self@.node_wf(key.index as int));
        }
        let (input_key, value_key) = {
            let node = self.node(AnyComputeKey::SliceAssignComputeNodeKey(key));
            match &node.op {
                ComputeNode::SliceAssign(op) => (op.input, op.value),
                _ => vstd::pervasive::unreached(),
            }
        };
        proof {
            let g = self@;
            let nb0 = old(rec)@.next_buffer;
            let r1 = spec_resolve(g, input_key, nb0);
            lemma_resolve_props(g, input_key, nb0);
            let r2 = spec_resolve(g, value_key, r1.next_buffer);
            lemma_resolve_props(g, value_key, r1.next_buffer);
            let out = spec_resolve(g, AnyComputeKey::SliceAssignComputeNodeKey(key), nb0);
            assert(out.next_buffer == r2.next_buffer);
            assert(r1.next_buffer <= u64::MAX && r2.next_buffer <= u64::MAX);
        }
        let input = self.resolve(input_key, rec);
        let value = self.resolve(value_key, rec);
        let slices = {
            let node = self.node(AnyComputeKey::SliceAssignComputeNodeKey(key));
            match &node.op {
                ComputeNode::SliceAssign(op) => clone_slices(&op.slices),
                _ => vstd::pervasive::unreached(),
            }
        };
        let r = input.clone();
        rec.record(PlannedPass::SliceAssign(SliceAssignPass { input, value, slices }));
        proof {
            let out = spec_resolve(self@, AnyComputeKey::SliceAssignComputeNodeKey(key), old(
                rec,
            )@.next_buffer);
            assert(r@ =~= out.tensor);
            assert(final(rec)@.passes =~= old(rec)@.passes + out.passes);
        }
        r
    }
}

/// A copy of a vector of slice ranges.
pub fn clone_slices(v: &Vec<crate::layout::SliceRange>) -> (r: Vec<crate::layout::SliceRange>)
    ensures
        r@ =~= v@,
{
    let mut r: Vec<crate::layout::SliceRange> = Vec::new();
    let mut i: usize = 0;
    while i < v.len()
        invariant
            0 <= i <= v@.len(),
            r@ =~= v@.take(i as int),
        decreases v@.len() - i,
    {
        r.push(v[i]);
        proof {
            assert(r@ =~= v@.take(i + 1));
        }
        i += 1;
    }
    proof {
        assert(v@.take(v@.len() as int) =~= v@);
    }
    r
}

} // verus!
