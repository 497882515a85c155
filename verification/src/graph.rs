//! The graph store: tagged keys and deferred operation records.
//!
//! Keys are values with structural equality; they do not own storage.  Op
//! records are immutable once inserted and reference only
//! previously-inserted keys, so the graph is acyclic by construction.
//! Static misuse (rank outside 1..=3, operand mismatches, an axis out of
//! bounds, an ill-formed slice) is detected at insertion and surfaced to
//! the caller.

use vstd::prelude::*;
use crate::{DataTypeEnum, GraphError};
use crate::element_wise::{ElementWiseFunction, ElementWiseFunctionModel};
use crate::layout::{
    apply_slices, check_dims, clone_usizes, lemma_product_remove, lemma_product_small,
    lemma_wf_dims, spec_apply_slices, spec_contiguous_layout, spec_dims_wf, spec_product,
    spec_slices_valid, Layout, LayoutModel, SliceRange, SliceRangeModel,
};
use crate::tensor::{TensorData, TensorDataModel};

verus! {

/// Key of an elementwise node.
#[derive(Clone, Copy, PartialEq, Eq, Structural, Debug, Hash)]
pub struct ElementWiseComputeNodeKey {
    pub index: usize,
}

/// Key of a pairwise node.
#[derive(Clone, Copy, PartialEq, Eq, Structural, Debug, Hash)]
pub struct PairWiseComputeNodeKey {
    pub index: usize,
}

/// Key of a matrix-multiplication node.
#[derive(Clone, Copy, PartialEq, Eq, Structural, Debug, Hash)]
pub struct MatMulComputeNodeKey {
    pub index: usize,
}

/// Key of a reduce node.
#[derive(Clone, Copy, PartialEq, Eq, Structural, Debug, Hash)]
pub struct ReduceComputeNodeKey {
    pub index: usize,
}

/// Key of a layout-mapping node.
#[derive(Clone, Copy, PartialEq, Eq, Structural, Debug, Hash)]
pub struct MapLayoutComputeNodeKey {
    pub index: usize,
}

/// Key of a resize node.
#[derive(Clone, Copy, PartialEq, Eq, Structural, Debug, Hash)]
pub struct ResizeComputeNodeKey {
    pub index: usize,
}

/// Key of a slice-assignment node.
#[derive(Clone, Copy, PartialEq, Eq, Structural, Debug, Hash)]
pub struct SliceAssignComputeNodeKey {
    pub index: usize,
}

/// Key of a materialized tensor leaf.
#[derive(Clone, Copy, PartialEq, Eq, Structural, Debug, Hash)]
pub struct TensorComputeNodeKey {
    pub index: usize,
}

/// A tagged key: the node kind together with the node's id.
#[derive(Clone, Copy, PartialEq, Eq, Structural, Debug, Hash)]
pub enum AnyComputeKey {
    ElementWiseComputeNodeKey(ElementWiseComputeNodeKey),
    PairWiseComputeNodeKey(PairWiseComputeNodeKey),
    MatMulComputeNodeKey(MatMulComputeNodeKey),
    ReduceComputeNodeKey(ReduceComputeNodeKey),
    MapLayoutComputeNodeKey(MapLayoutComputeNodeKey),
    ResizeComputeNodeKey(ResizeComputeNodeKey),
    SliceAssignComputeNodeKey(SliceAssignComputeNodeKey),
    TensorComputeNodeKey(TensorComputeNodeKey),
}

/// The node id a key selects.
pub open spec fn key_index(k: AnyComputeKey) -> int {
    match k {
        AnyComputeKey::ElementWiseComputeNodeKey(k) => k.index as int,
        AnyComputeKey::PairWiseComputeNodeKey(k) => k.index as int,
        AnyComputeKey::MatMulComputeNodeKey(k) => k.index as int,
        AnyComputeKey::ReduceComputeNodeKey(k) => k.index as int,
        AnyComputeKey::MapLayoutComputeNodeKey(k) => k.index as int,
        AnyComputeKey::ResizeComputeNodeKey(k) => k.index as int,
        AnyComputeKey::SliceAssignComputeNodeKey(k) => k.index as int,
        AnyComputeKey::TensorComputeNodeKey(k) => k.index as int,
    }
}

/// The mathematical value of a [`PairWiseFunction`].
#[verifier::ext_equal]
pub ghost struct PairWiseFunctionModel {
    pub name: Option<Seq<char>>,
    pub name_id: u64,
    pub operation: Seq<char>,
}

/// A binary combinator for pairwise nodes: a shading-language snippet over
/// two inputs, built by an external kernel.
pub struct PairWiseFunction {
    name: Option<String>,
    name_id: u64,
    operation: String,
}

impl View for PairWiseFunction {
    type V = PairWiseFunctionModel;

    closed spec fn view(&self) -> PairWiseFunctionModel {
        PairWiseFunctionModel {
            name: match self.name {
                Option::Some(n) => Option::Some(n@),
                Option::None => Option::None,
            },
            name_id: self.name_id,
            operation: self.operation@,
        }
    }
}

impl Clone for PairWiseFunction {
    /// An exact copy of the function.
    fn clone(&self) -> (r: Self)
        ensures
            r@ == self@,
    {
        let name = match &self.name {
            Option::Some(n) => Option::Some(n.clone()),
            Option::None => Option::None,
        };
        PairWiseFunction { name, name_id: self.name_id, operation: self.operation.clone() }
    }
}

impl PairWiseFunction {
    /// A new pairwise combinator.
    pub fn new(name_id: u64, operation: &str) -> (r: Self)
        ensures
            r@ == (PairWiseFunctionModel { name: Option::None, name_id, operation: operation@ }),
    {
        PairWiseFunction { name: Option::None, name_id, operation: operation.to_owned() }
    }

    /// The same combinator under a human-readable name.
    pub fn with_name(self, name: &str) -> (r: Self)
        ensures
            r@ == (PairWiseFunctionModel { name: Option::Some(name@), ..self@ }),
    {
        PairWiseFunction {
            name: Option::Some(name.to_owned()),
            name_id: self.name_id,
            operation: self.operation,
        }
    }
}

/// The mathematical value of a [`ReduceFunction`].
#[verifier::ext_equal]
pub ghost struct ReduceFunctionModel {
    pub name: Option<Seq<char>>,
    pub name_id: u64,
    pub operation: Seq<char>,
}

/// A reduction combinator for reduce nodes, built by an external kernel.
pub struct ReduceFunction {
    name: Option<String>,
    name_id: u64,
    operation: String,
}

impl View for ReduceFunction {
    type V = ReduceFunctionModel;

    closed spec fn view(&self) -> ReduceFunctionModel {
        ReduceFunctionModel {
            name: match self.name {
                Option::Some(n) => Option::Some(n@),
                Option::None => Option::None,
            },
            name_id: self.name_id,
            operation: self.operation@,
        }
    }
}

impl Clone for ReduceFunction {
    /// An exact copy of the function.
    fn clone(&self) -> (r: Self)
        ensures
            r@ == self@,
    {
        let name = match &self.name {
            Option::Some(n) => Option::Some(n.clone()),
            Option::None => Option::None,
        };
        ReduceFunction { name, name_id: self.name_id, operation: self.operation.clone() }
    }
}

impl ReduceFunction {
    /// A new reduction combinator.
    pub fn new(name_id: u64, operation: &str) -> (r: Self)
        ensures
            r@ == (ReduceFunctionModel { name: Option::None, name_id, operation: operation@ }),
    {
        ReduceFunction { name: Option::None, name_id, operation: operation.to_owned() }
    }

    /// The same combinator under a human-readable name.
    pub fn with_name(self, name: &str) -> (r: Self)
        ensures
            r@ == (ReduceFunctionModel { name: Option::Some(name@), ..self@ }),
    {
        ReduceFunction {
            name: Option::Some(name.to_owned()),
            name_id: self.name_id,
            operation: self.operation,
        }
    }
}

/// Record of an elementwise node: single input, same shape and datatype.
pub struct ElementWiseOperation {
    pub value: AnyComputeKey,
    pub function: ElementWiseFunction,
}

/// Record of a pairwise node: two inputs of equal shape and datatype.
pub struct PairWiseOperation {
    pub first: AnyComputeKey,
    pub second: AnyComputeKey,
    pub function: PairWiseFunction,
}

/// Record of a matrix multiplication over two rank-2 inputs.
pub struct MatMulOperation {
    pub first: AnyComputeKey,
    pub second: AnyComputeKey,
}

/// Record of a reduction along one axis.
pub struct ReduceOperation {
    pub value: AnyComputeKey,
    pub axis: u32,
    pub function: ReduceFunction,
}

/// Record of a pure layout change: a strided view of the input's buffer.
pub struct MapLayoutOperation {
    pub input: AnyComputeKey,
    pub slices: Vec<SliceRange>,
}

/// Record of a resize to a new shape.
pub struct ResizeOperation {
    pub input: AnyComputeKey,
    pub new_shape: Vec<usize>,
    pub fill_shape: Vec<usize>,
}

/// Record of an in-place write of `value` into a region of `input`.
pub struct SliceAssignOperation {
    pub input: AnyComputeKey,
    pub value: AnyComputeKey,
    pub slices: Vec<SliceRange>,
}

/// A stored op record, tagged by kind.
pub enum ComputeNode {
    ElementWise(ElementWiseOperation),
    PairWise(PairWiseOperation),
    MatMul(MatMulOperation),
    Reduce(ReduceOperation),
    MapLayout(MapLayoutOperation),
    Resize(ResizeOperation),
    SliceAssign(SliceAssignOperation),
    Tensor(TensorData),
}

/// The mathematical value of a [`ComputeNode`].
#[verifier::ext_equal]
#[allow(inconsistent_fields)]
pub ghost enum ComputeNodeModel {
    ElementWise { value: AnyComputeKey, function: ElementWiseFunctionModel },
    PairWise { first: AnyComputeKey, second: AnyComputeKey, function: PairWiseFunctionModel },
    MatMul { first: AnyComputeKey, second: AnyComputeKey },
    Reduce { value: AnyComputeKey, axis: u32, function: ReduceFunctionModel },
    MapLayout { input: AnyComputeKey, slices: Seq<SliceRangeModel> },
    Resize { input: AnyComputeKey, new_shape: Seq<int>, fill_shape: Seq<int> },
    SliceAssign { input: AnyComputeKey, value: AnyComputeKey, slices: Seq<SliceRangeModel> },
    Tensor { data: TensorDataModel },
}

impl View for ComputeNode {
    type V = ComputeNodeModel;

    open spec fn view(&self) -> ComputeNodeModel {
        match self {
            ComputeNode::ElementWise(op) => ComputeNodeModel::ElementWise {
                value: op.value,
                function: op.function@,
            },
            ComputeNode::PairWise(op) => ComputeNodeModel::PairWise {
                first: op.first,
                second: op.second,
                function: op.function@,
            },
            ComputeNode::MatMul(op) => ComputeNodeModel::MatMul {
                first: op.first,
                second: op.second,
            },
            ComputeNode::Reduce(op) => ComputeNodeModel::Reduce {
                value: op.value,
                axis: op.axis,
                function: op.function@,
            },
            ComputeNode::MapLayout(op) => ComputeNodeModel::MapLayout {
                input: op.input,
                slices: op.slices@.map_values(|s: SliceRange| s@),
            },
            ComputeNode::Resize(op) => ComputeNodeModel::Resize {
                input: op.input,
                new_shape: op.new_shape@.map_values(|x: usize| x as int),
                fill_shape: op.fill_shape@.map_values(|x: usize| x as int),
            },
            ComputeNode::SliceAssign(op) => ComputeNodeModel::SliceAssign {
                input: op.input,
                value: op.value,
                slices: op.slices@.map_values(|s: SliceRange| s@),
            },
            ComputeNode::Tensor(data) => ComputeNodeModel::Tensor { data: data@ },
        }
    }
}

/// A stored node: the op record together with the statically inferred
/// layout and datatype of its result.
pub struct GraphNode {
    pub op: ComputeNode,
    pub layout: Layout,
    pub datatype: DataTypeEnum,
}

/// The mathematical value of a [`GraphNode`].
#[verifier::ext_equal]
pub ghost struct GraphNodeModel {
    pub op: ComputeNodeModel,
    pub layout: LayoutModel,
    pub datatype: DataTypeEnum,
}

impl View for GraphNode {
    type V = GraphNodeModel;

    open spec fn view(&self) -> GraphNodeModel {
        GraphNodeModel { op: self.op@, layout: self.layout@, datatype: self.datatype }
    }
}

/// The mathematical value of a [`ComputeGraph`].
#[verifier::ext_equal]
pub ghost struct GraphModel {
    pub nodes: Seq<GraphNodeModel>,
    pub next_function_id: int,
}

/// The graph store: one arena of nodes, addressed by tagged keys, plus the
/// monotonic allocator for elementwise function ids.
pub struct ComputeGraph {
    nodes: Vec<GraphNode>,
    next_function_id: u64,
}

impl View for ComputeGraph {
    type V = GraphModel;

    closed spec fn view(&self) -> GraphModel {
        GraphModel {
            nodes: self.nodes@.map_values(|n: GraphNode| n@),
            next_function_id: self.next_function_id as int,
        }
    }
}

impl GraphModel {
    /// Whether `k`'s id selects a node of `k`'s kind.
    pub open spec fn key_valid(self, k: AnyComputeKey) -> bool {
        &&& 0 <= key_index(k) < self.nodes.len()
        &&& (match k {
            AnyComputeKey::ElementWiseComputeNodeKey(_) => self.nodes[key_index(
                k,
            )].op is ElementWise,
            AnyComputeKey::PairWiseComputeNodeKey(_) => self.nodes[key_index(k)].op is PairWise,
            AnyComputeKey::MatMulComputeNodeKey(_) => self.nodes[key_index(k)].op is MatMul,
            AnyComputeKey::ReduceComputeNodeKey(_) => self.nodes[key_index(k)].op is Reduce,
            AnyComputeKey::MapLayoutComputeNodeKey(_) => self.nodes[key_index(k)].op is MapLayout,
            AnyComputeKey::ResizeComputeNodeKey(_) => self.nodes[key_index(k)].op is Resize,
            AnyComputeKey::SliceAssignComputeNodeKey(_) => self.nodes[key_index(
                k,
            )].op is SliceAssign,
            AnyComputeKey::TensorComputeNodeKey(_) => self.nodes[key_index(k)].op is Tensor,
        })
    }

    /// The statically inferred layout of the node `k` selects.
    pub open spec fn node_layout(self, k: AnyComputeKey) -> LayoutModel {
        self.nodes[key_index(k)].layout
    }

    /// The statically inferred datatype of the node `k` selects.
    pub open spec fn node_datatype(self, k: AnyComputeKey) -> DataTypeEnum {
        self.nodes[key_index(k)].datatype
    }

    /// A key valid for the prefix of nodes before `i`.
    pub open spec fn key_valid_before(self, k: AnyComputeKey, i: int) -> bool {
        self.key_valid(k) && key_index(k) < i
    }

    /// Consistency of the node at `i`: references point backwards to nodes
    /// of the right kind, and the cached layout and datatype are the ones
    /// static shape inference predicts from the inputs.
    pub open spec fn node_wf(self, i: int) -> bool {
        &&& self.nodes[i].layout.wf()
        &&& (match self.nodes[i].op {
            ComputeNodeModel::ElementWise { value, function } => {
                &&& self.key_valid_before(value, i)
                &&& self.nodes[i].layout == self.node_layout(value)
                &&& self.nodes[i].datatype == self.node_datatype(value)
                &&& function.name_id < self.next_function_id
            },
            ComputeNodeModel::PairWise { first, second, function } => {
                &&& self.key_valid_before(first, i)
                &&& self.key_valid_before(second, i)
                &&& self.node_layout(first).shape =~= self.node_layout(second).shape
                &&& self.node_datatype(first) == self.node_datatype(second)
                &&& self.nodes[i].layout =~= spec_contiguous_layout(self.node_layout(first).shape)
                &&& self.nodes[i].datatype == self.node_datatype(first)
            },
            ComputeNodeModel::MatMul { first, second } => {
                &&& self.key_valid_before(first, i)
                &&& self.key_valid_before(second, i)
                &&& self.node_layout(first).rank() == 2
                &&& self.node_layout(second).rank() == 2
                &&& self.node_layout(first).shape[1] == self.node_layout(second).shape[0]
                &&& self.node_datatype(first) == self.node_datatype(second)
                &&& self.nodes[i].layout =~= spec_contiguous_layout(
                    seq![self.node_layout(first).shape[0], self.node_layout(second).shape[1]],
                )
                &&& self.nodes[i].datatype == self.node_datatype(first)
            },
            ComputeNodeModel::Reduce { value, axis, function } => {
                &&& self.key_valid_before(value, i)
                &&& (axis as int) < self.node_layout(value).rank()
                &&& self.nodes[i].layout =~= spec_contiguous_layout(
                    spec_reduced_shape(self.node_layout(value).shape, axis as int),
                )
                &&& self.nodes[i].datatype == self.node_datatype(value)
            },
            ComputeNodeModel::MapLayout { input, slices } => {
                &&& self.key_valid_before(input, i)
                &&& spec_slices_valid(self.node_layout(input), slices)
                &&& self.nodes[i].layout =~= spec_apply_slices(self.node_layout(input), slices)
                &&& self.nodes[i].datatype == self.node_datatype(input)
            },
            ComputeNodeModel::Resize { input, new_shape, fill_shape } => {
                &&& self.key_valid_before(input, i)
                &&& self.nodes[i].layout =~= spec_contiguous_layout(new_shape)
                &&& self.nodes[i].datatype == self.node_datatype(input)
            },
            ComputeNodeModel::SliceAssign { input, value, slices } => {
                &&& self.key_valid_before(input, i)
                &&& self.key_valid_before(value, i)
                &&& slices.len() == self.node_layout(input).rank()
                &&& (forall|j: int|
                    0 <= j < slices.len() ==> 0 <= #[trigger] slices[j].start < slices[j].end
                        <= self.node_layout(input).shape[j])
                &&& self.node_layout(value).shape =~= Seq::new(
                    slices.len(),
                    |j: int| slices[j].end - slices[j].start,
                )
                &&& self.node_datatype(value) == self.node_datatype(input)
                &&& self.nodes[i].layout == self.node_layout(input)
                &&& self.nodes[i].datatype == self.node_datatype(input)
            },
            ComputeNodeModel::Tensor { data } => {
                &&& self.nodes[i].layout == data.layout
                &&& self.nodes[i].datatype == data.datatype
            },
        })
    }

    /// Well-formedness of the whole store: every node consistent, and the
    /// elementwise function ids pairwise distinct under the monotonic
    /// allocator.
    pub open spec fn wf(self) -> bool {
        &&& 0 <= self.next_function_id <= u64::MAX
        &&& (forall|i: int| 0 <= i < self.nodes.len() ==> self.node_wf(i))
        &&& (forall|i: int, j: int|
            0 <= i < self.nodes.len() && 0 <= j < self.nodes.len() && i != j
                && self.nodes[i].op is ElementWise && self.nodes[j].op is ElementWise
                ==> (#[trigger] self.nodes[i].op)->ElementWise_function.name_id
                != (#[trigger] self.nodes[j].op)->ElementWise_function.name_id)
    }
}

/// The shape after reducing away `axis`: the axis is removed, except that
/// reducing a rank-1 tensor leaves a single element.
pub open spec fn spec_reduced_shape(shape: Seq<int>, axis: int) -> Seq<int> {
    if shape.len() == 1 {
        seq![1]
    } else {
        shape.remove(axis)
    }
}

/// Extending the store by one node whose references point backwards, while
/// the id allocator only grows, preserves the consistency of the nodes
/// already stored.
pub proof fn lemma_node_wf_push(g: GraphModel, h: GraphModel, i: int)
    requires
        h.nodes.len() == g.nodes.len() + 1,
        forall|j: int| 0 <= j < g.nodes.len() ==> h.nodes[j] == g.nodes[j],
        h.next_function_id >= g.next_function_id,
        0 <= i < g.nodes.len(),
        g.node_wf(i),
    ensures
        h.node_wf(i),
{
    match g.nodes[i].op {
        ComputeNodeModel::ElementWise { value, function } => {
            assert(h.key_valid_before(value, i));
        },
        ComputeNodeModel::PairWise { first, second, function } => {
            assert(h.key_valid_before(first, i));
            assert(h.key_valid_before(second, i));
        },
        ComputeNodeModel::MatMul { first, second } => {
            assert(h.key_valid_before(first, i));
            assert(h.key_valid_before(second, i));
        },
        ComputeNodeModel::Reduce { value, axis, function } => {
            assert(h.key_valid_before(value, i));
        },
        ComputeNodeModel::MapLayout { input, slices } => {
            assert(h.key_valid_before(input, i));
        },
        ComputeNodeModel::Resize { input, new_shape, fill_shape } => {
            assert(h.key_valid_before(input, i));
        },
        ComputeNodeModel::SliceAssign { input, value, slices } => {
            assert(h.key_valid_before(input, i));
            assert(h.key_valid_before(value, i));
        },
        ComputeNodeModel::Tensor { data } => {},
    }
}

/// Extending a well-formed store by one consistent node, while the id
/// allocator only grows and any new elementwise id is fresh, keeps the
/// store well-formed.
pub proof fn lemma_wf_push(g: GraphModel, h: GraphModel)
    requires
        g.wf(),
        h.nodes.len() == g.nodes.len() + 1,
        forall|j: int| 0 <= j < g.nodes.len() ==> h.nodes[j] == g.nodes[j],
        g.next_function_id <= h.next_function_id <= u64::MAX,
        h.node_wf(g.nodes.len() as int),
        h.nodes[g.nodes.len() as int].op is ElementWise ==> forall|i: int|
            0 <= i < g.nodes.len() && (#[trigger] g.nodes[i].op) is ElementWise
                ==> g.nodes[i].op->ElementWise_function.name_id
                != h.nodes[g.nodes.len() as int].op->ElementWise_function.name_id,
    ensures
        h.wf(),
{
    let n = g.nodes.len() as int;
    assert forall|i: int| 0 <= i < h.nodes.len() implies h.node_wf(i) by {
        if i < n {
            assert(g.node_wf(i));
            lemma_node_wf_push(g, h, i);
        }
    }
    assert forall|i: int, j: int|
        0 <= i < h.nodes.len() && 0 <= j < h.nodes.len() && i != j && h.nodes[i].op is ElementWise
            && h.nodes[j].op is ElementWise implies (#[trigger] h.nodes[i].op)->ElementWise_function.name_id
        != (#[trigger] h.nodes[j].op)->ElementWise_function.name_id by {
        if i < n && j < n {
            assert(h.nodes[i] == g.nodes[i] && h.nodes[j] == g.nodes[j]);
        } else if i == n {
            assert(g.nodes[j].op->ElementWise_function.name_id
                != h.nodes[n].op->ElementWise_function.name_id);
        } else {
            assert(g.nodes[i].op->ElementWise_function.name_id
                != h.nodes[n].op->ElementWise_function.name_id);
        }
    }
}

impl ComputeGraph {
    /// An empty graph.
    pub fn new() -> (r: ComputeGraph)
        ensures
            r@.nodes.len() == 0,
            r@.next_function_id == 0,
            r@.wf(),
    {
        ComputeGraph { nodes: Vec::new(), next_function_id: 0 }
    }

    /// The number of stored nodes.
    pub fn node_count(&self) -> (r: usize)
        ensures
            r == self@.nodes.len(),
    {
        self.nodes.len()
    }

    /// The next fresh elementwise function id.
    pub fn next_function_id(&self) -> (r: u64)
        ensures
            r == self@.next_function_id,
    {
        self.next_function_id
    }

    /// The id a key selects, without its kind tag.
    pub fn key_index(k: AnyComputeKey) -> (r: usize)
        ensures
            r as int == key_index(k),
    {
        match k {
            AnyComputeKey::ElementWiseComputeNodeKey(k) => k.index,
            AnyComputeKey::PairWiseComputeNodeKey(k) => k.index,
            AnyComputeKey::MatMulComputeNodeKey(k) => k.index,
            AnyComputeKey::ReduceComputeNodeKey(k) => k.index,
            AnyComputeKey::MapLayoutComputeNodeKey(k) => k.index,
            AnyComputeKey::ResizeComputeNodeKey(k) => k.index,
            AnyComputeKey::SliceAssignComputeNodeKey(k) => k.index,
            AnyComputeKey::TensorComputeNodeKey(k) => k.index,
        }
    }

    /// Whether `k` selects a stored node of its kind.
    pub fn contains_key(&self, k: AnyComputeKey) -> (r: bool)
        ensures
            r == self@.key_valid(k),
    {
        let i = Self::key_index(k);
        if i >= self.nodes.len() {
            return false;
        }
        let node = vstd::std_specs::vec::vec_index(&self.nodes, i);
        match k {
            AnyComputeKey::ElementWiseComputeNodeKey(_) => matches!(
                node.op,
                ComputeNode::ElementWise(_)
            ),
            AnyComputeKey::PairWiseComputeNodeKey(_) => matches!(node.op, ComputeNode::PairWise(_)),
            AnyComputeKey::MatMulComputeNodeKey(_) => matches!(node.op, ComputeNode::MatMul(_)),
            AnyComputeKey::ReduceComputeNodeKey(_) => matches!(node.op, ComputeNode::Reduce(_)),
            AnyComputeKey::MapLayoutComputeNodeKey(_) => matches!(
                node.op,
                ComputeNode::MapLayout(_)
            ),
            AnyComputeKey::ResizeComputeNodeKey(_) => matches!(node.op, ComputeNode::Resize(_)),
            AnyComputeKey::SliceAssignComputeNodeKey(_) => matches!(
                node.op,
                ComputeNode::SliceAssign(_)
            ),
            AnyComputeKey::TensorComputeNodeKey(_) => matches!(node.op, ComputeNode::Tensor(_)),
        }
    }

    /// The stored node `k` selects.
    pub(crate) fn node(&self, k: AnyComputeKey) -> (r: &GraphNode)
        requires
            self@.key_valid(k),
        ensures
            r@ == self@.nodes[key_index(k)],
    {
        vstd::std_specs::vec::vec_index(&self.nodes, Self::key_index(k))
    }

    /// Stores a materialized tensor leaf.  Fails with `RankUnsupported`
    /// exactly when the handle's layout is not well-formed.
    pub fn insert_tensor(&mut self, data: TensorData) -> (r: Result<
        TensorComputeNodeKey,
        GraphError,
    >)
        requires
            old(self)@.wf(),
        ensures
            final(self)@.wf(),
            match r {
                Ok(k) => {
                    &&& data@.layout.wf()
                    &&& k.index as int == old(self)@.nodes.len()
                    &&& final(self)@.nodes =~= old(self)@.nodes.push(
                        GraphNodeModel {
                            op: ComputeNodeModel::Tensor { data: data@ },
                            layout: data@.layout,
                            datatype: data@.datatype,
                        },
                    )
                    &&& final(self)@.next_function_id == old(self)@.next_function_id
                    &&& final(self)@.key_valid(AnyComputeKey::TensorComputeNodeKey(k))
                },
                Err(e) => {
                    &&& !data@.layout.wf()
                    &&& e == GraphError::RankUnsupported
                    &&& final(self)@ == old(self)@
                },
            },
    {
        if !data.layout.check_wf() {
            return Err(GraphError::RankUnsupported);
        }
        let index = self.nodes.len();
        let layout = data.layout.clone();
        let datatype = data.datatype;
        self.nodes.push(GraphNode { op: ComputeNode::Tensor(data), layout, datatype });
        proof {
            let g = old(self)@;
            let h = self@;
            assert(h.nodes =~= g.nodes.push(h.nodes[g.nodes.len() as int]));
            assert(h.node_wf(g.nodes.len() as int));
            lemma_wf_push(g, h);
        }
        Ok(TensorComputeNodeKey { index })
    }

    /// Stores an elementwise node over `value`.  The function's id must be
    /// fresh for this graph (at least [`Self::next_function_id`]); the
    /// allocator then moves past it, which keeps emitted helper ids
    /// pairwise distinct.  Insertion itself never fails.
    pub fn insert_element_wise(
        &mut self,
        value: AnyComputeKey,
        function: ElementWiseFunction,
    ) -> (r: ElementWiseComputeNodeKey)
        requires
            old(self)@.wf(),
            old(self)@.key_valid(value),
            function@.name_id >= old(self)@.next_function_id,
            function@.name_id < u64::MAX,
        ensures
            final(self)@.wf(),
            r.index as int == old(self)@.nodes.len(),
            final(self)@.nodes =~= old(self)@.nodes.push(
                GraphNodeModel {
                    op: ComputeNodeModel::ElementWise { value, function: function@ },
                    layout: old(self)@.node_layout(value),
                    datatype: old(self)@.node_datatype(value),
                },
            ),
            final(self)@.next_function_id == function@.name_id + 1,
            final(self)@.key_valid(AnyComputeKey::ElementWiseComputeNodeKey(r)),
    {
        let index = self.nodes.len();
        let next_id = function.name_id() + 1;
        let (layout, datatype) = {
            let node = self.node(value);
            (node.layout.clone(), node.datatype)
        };
        self.nodes.push(
            GraphNode {
                op: ComputeNode::ElementWise(ElementWiseOperation { value, function }),
                layout,
                datatype,
            },
        );
        self.next_function_id = next_id;
        proof {
            let g = old(self)@;
            let h = self@;
            let n = g.nodes.len() as int;
            assert(h.nodes =~= g.nodes.push(h.nodes[n]));
            assert(g.node_wf(key_index(value)));
            assert(h.nodes[key_index(value)] == g.nodes[key_index(value)]);
            assert(h.key_valid_before(value, n));
            assert(h.nodes[n].layout =~= g.node_layout(value));
            assert(h.nodes[n].layout.wf());
            assert(h.node_wf(n));
            assert forall|i: int|
                0 <= i < n && (#[trigger] g.nodes[i].op) is ElementWise implies g.nodes[i].op->ElementWise_function.name_id
                != h.nodes[n].op->ElementWise_function.name_id by {
                assert(g.node_wf(i));
            }
            lemma_wf_push(g, h);
        }
        ElementWiseComputeNodeKey { index }
    }

    /// Stores a pairwise node over `first` and `second`, which must share
    /// shape and datatype; the result gets a fresh densely packed layout.
    pub fn insert_pair_wise(
        &mut self,
        first: AnyComputeKey,
        second: AnyComputeKey,
        function: PairWiseFunction,
    ) -> (r: Result<PairWiseComputeNodeKey, GraphError>)
        requires
            old(self)@.wf(),
            old(self)@.key_valid(first),
            old(self)@.key_valid(second),
        ensures
            final(self)@.wf(),
            match r {
                Ok(k) => {
                    &&& old(self)@.node_layout(first).shape =~= old(self)@.node_layout(
                        second,
                    ).shape
                    &&& old(self)@.node_datatype(first) == old(self)@.node_datatype(second)
                    &&& k.index as int == old(self)@.nodes.len()
                    &&& final(self)@.nodes =~= old(self)@.nodes.push(
                        GraphNodeModel {
                            op: ComputeNodeModel::PairWise { first, second, function: function@ },
                            layout: spec_contiguous_layout(old(self)@.node_layout(first).shape),
                            datatype: old(self)@.node_datatype(first),
                        },
                    )
                    &&& final(self)@.next_function_id == old(self)@.next_function_id
                    &&& final(self)@.key_valid(AnyComputeKey::PairWiseComputeNodeKey(k))
                },
                Err(GraphError::ShapeMismatch) => {
                    &&& !(old(self)@.node_layout(first).shape =~= old(self)@.node_layout(
                        second,
                    ).shape)
                    &&& final(self)@ == old(self)@
                },
                Err(GraphError::DatatypeMismatch) => {
                    &&& old(self)@.node_layout(first).shape =~= old(self)@.node_layout(
                        second,
                    ).shape
                    &&& old(self)@.node_datatype(first) != old(self)@.node_datatype(second)
                    &&& final(self)@ == old(self)@
                },
                Err(_) => false,
            },
    {
        let index = self.nodes.len();
        let ghost g = self@;
        let (shape_vec, datatype) = {
            let n1 = self.node(first);
            let n2 = self.node(second);
            proof {
                lemma_mapped_shapes_eq(n1.layout.shape@, n2.layout.shape@);
            }
            if !shapes_equal(&n1.layout.shape, &n2.layout.shape) {
                return Err(GraphError::ShapeMismatch);
            }
            if n1.datatype != n2.datatype {
                return Err(GraphError::DatatypeMismatch);
            }
            (clone_usizes(&n1.layout.shape), n1.datatype)
        };
        proof {
            assert(g.node_wf(key_index(first)));
            lemma_wf_dims(g.node_layout(first), shape_vec@);
        }
        let layout = Layout::contiguous(shape_vec);
        self.nodes.push(
            GraphNode {
                op: ComputeNode::PairWise(PairWiseOperation { first, second, function }),
                layout,
                datatype,
            },
        );
        proof {
            let h = self@;
            let n = g.nodes.len() as int;
            assert(h.nodes =~= g.nodes.push(h.nodes[n]));
            assert(g.node_wf(key_index(second)));
            assert(h.nodes[key_index(first)] == g.nodes[key_index(first)]);
            assert(h.nodes[key_index(second)] == g.nodes[key_index(second)]);
            assert(h.nodes[n].layout.shape =~= g.node_layout(first).shape);
            assert(h.nodes[n].layout =~= spec_contiguous_layout(g.node_layout(first).shape));
            assert(h.node_wf(n));
            lemma_wf_push(g, h);
        }
        Ok(PairWiseComputeNodeKey { index })
    }

    /// Stores a matrix multiplication over two rank-2 inputs whose inner
    /// dimensions agree; the `[m, n]` result gets a fresh densely packed
    /// layout and must stay 32-bit addressable.
    pub fn insert_mat_mul(&mut self, first: AnyComputeKey, second: AnyComputeKey) -> (r: Result<
        MatMulComputeNodeKey,
        GraphError,
    >)
        requires
            old(self)@.wf(),
            old(self)@.key_valid(first),
            old(self)@.key_valid(second),
        ensures
            final(self)@.wf(),
            match r {
                Ok(k) => {
                    &&& old(self)@.node_layout(first).rank() == 2
                    &&& old(self)@.node_layout(second).rank() == 2
                    &&& old(self)@.node_layout(first).shape[1] == old(self)@.node_layout(
                        second,
                    ).shape[0]
                    &&& old(self)@.node_datatype(first) == old(self)@.node_datatype(second)
                    &&& old(self)@.node_layout(first).shape[0] * old(self)@.node_layout(
                        second,
                    ).shape[1] <= u32::MAX
                    &&& k.index as int == old(self)@.nodes.len()
                    &&& final(self)@.nodes =~= old(self)@.nodes.push(
                        GraphNodeModel {
                            op: ComputeNodeModel::MatMul { first, second },
                            layout: spec_contiguous_layout(
                                seq![
                                    old(self)@.node_layout(first).shape[0],
                                    old(self)@.node_layout(second).shape[1],
                                ],
                            ),
                            datatype: old(self)@.node_datatype(first),
                        },
                    )
                    &&& final(self)@.next_function_id == old(self)@.next_function_id
                    &&& final(self)@.key_valid(AnyComputeKey::MatMulComputeNodeKey(k))
                },
                Err(GraphError::RankUnsupported) => {
                    &&& (old(self)@.node_layout(first).rank() != 2 || old(self)@.node_layout(
                        second,
                    ).rank() != 2 || (old(self)@.node_layout(first).shape[1] == old(
                        self,
                    )@.node_layout(second).shape[0] && old(self)@.node_datatype(first) == old(
                        self,
                    )@.node_datatype(second) && old(self)@.node_layout(first).shape[0] * old(
                        self,
                    )@.node_layout(second).shape[1] > u32::MAX))
                    &&& final(self)@ == old(self)@
                },
                Err(GraphError::ShapeMismatch) => {
                    &&& old(self)@.node_layout(first).rank() == 2
                    &&& old(self)@.node_layout(second).rank() == 2
                    &&& old(self)@.node_layout(first).shape[1] != old(self)@.node_layout(
                        second,
                    ).shape[0]
                    &&& final(self)@ == old(self)@
                },
                Err(GraphError::DatatypeMismatch) => {
                    &&& old(self)@.node_layout(first).rank() == 2
                    &&& old(self)@.node_layout(second).rank() == 2
                    &&& old(self)@.node_layout(first).shape[1] == old(self)@.node_layout(
                        second,
                    ).shape[0]
                    &&& old(self)@.node_datatype(first) != old(self)@.node_datatype(second)
                    &&& final(self)@ == old(self)@
                },
                Err(_) => false,
            },
    {
        let index = self.nodes.len();
        let ghost g = self@;
        let (m, n_cols, datatype) = {
            let n1 = self.node(first);
            let n2 = self.node(second);
            if n1.layout.shape.len() != 2 || n2.layout.shape.len() != 2 {
                return Err(GraphError::RankUnsupported);
            }
            if n1.layout.shape[1] != n2.layout.shape[0] {
                return Err(GraphError::ShapeMismatch);
            }
            if n1.datatype != n2.datatype {
                return Err(GraphError::DatatypeMismatch);
            }
            (n1.layout.shape[0], n2.layout.shape[1], n1.datatype)
        };
        proof {
            assert(g.node_wf(key_index(first)));
            assert(g.node_wf(key_index(second)));
            assert(g.node_layout(first).shape[0] == m as int);
            assert(g.node_layout(second).shape[1] == n_cols as int);
            assert(1 <= m as int <= u32::MAX && 1 <= n_cols as int <= u32::MAX);
        }
        proof {
            assert((m as int) * (n_cols as int) <= (u32::MAX as int) * (u32::MAX as int))
                by (nonlinear_arith)
                requires
                    0 <= m as int <= u32::MAX,
                    0 <= n_cols as int <= u32::MAX,
            ;
        }
        if (m as u64) * (n_cols as u64) > u32::MAX as u64 {
            return Err(GraphError::RankUnsupported);
        }
        let out_shape = vec![m, n_cols];
        proof {
            let sh = out_shape@.map_values(|x: usize| x as int);
            lemma_product_small(sh);
            assert(spec_dims_wf(out_shape@));
        }
        let layout = Layout::contiguous(out_shape);
        self.nodes.push(
            GraphNode { op: ComputeNode::MatMul(MatMulOperation { first, second }), layout, datatype },
        );
        proof {
            let h = self@;
            let n = g.nodes.len() as int;
            assert(h.nodes =~= g.nodes.push(h.nodes[n]));
            assert(h.nodes[key_index(first)] == g.nodes[key_index(first)]);
            assert(h.nodes[key_index(second)] == g.nodes[key_index(second)]);
            assert(h.nodes[n].layout.shape =~= seq![
                g.node_layout(first).shape[0],
                g.node_layout(second).shape[1],
            ]);
            assert(h.nodes[n].layout =~= spec_contiguous_layout(
                seq![g.node_layout(first).shape[0], g.node_layout(second).shape[1]],
            ));
            assert(h.node_wf(n));
            lemma_wf_push(g, h);
        }
        Ok(MatMulComputeNodeKey { index })
    }

    /// Stores a reduction of `value` along `axis`; the axis must be
    /// smaller than the input rank.  The reduced result gets a fresh
    /// densely packed layout.
    pub fn insert_reduce(
        &mut self,
        value: AnyComputeKey,
        axis: u32,
        function: ReduceFunction,
    ) -> (r: Result<ReduceComputeNodeKey, GraphError>)
        requires
            old(self)@.wf(),
            old(self)@.key_valid(value),
        ensures
            final(self)@.wf(),
            match r {
                Ok(k) => {
                    &&& (axis as int) < old(self)@.node_layout(value).rank()
                    &&& k.index as int == old(self)@.nodes.len()
                    &&& final(self)@.nodes =~= old(self)@.nodes.push(
                        GraphNodeModel {
                            op: ComputeNodeModel::Reduce { value, axis, function: function@ },
                            layout: spec_contiguous_layout(
                                spec_reduced_shape(old(self)@.node_layout(value).shape, axis as int),
                            ),
                            datatype: old(self)@.node_datatype(value),
                        },
                    )
                    &&& final(self)@.next_function_id == old(self)@.next_function_id
                    &&& final(self)@.key_valid(AnyComputeKey::ReduceComputeNodeKey(k))
                },
                Err(e) => {
                    &&& (axis as int) >= old(self)@.node_layout(value).rank()
                    &&& e == GraphError::AxisOutOfBounds
                    &&& final(self)@ == old(self)@
                },
            },
    {
        let index = self.nodes.len();
        let ghost g = self@;
        let (reduced_shape, datatype) = {
            let node = self.node(value);
            if axis as usize >= node.layout.shape.len() {
                return Err(GraphError::AxisOutOfBounds);
            }
            proof {
                assert(g.node_wf(key_index(value)));
            }
            if node.layout.shape.len() == 1 {
                (vec![1usize], node.datatype)
            } else {
                let mut s = clone_usizes(&node.layout.shape);
                s.remove(axis as usize);
                proof {
                    lemma_map_remove(node.layout.shape@, axis as int);
                    lemma_product_remove(g.node_layout(value).shape, axis as int);
                    assert(s@.map_values(|x: usize| x as int) =~= g.node_layout(
                        value,
                    ).shape.remove(axis as int));
                    let orig = g.node_layout(value).shape;
                    let red = orig.remove(axis as int);
                    assert forall|t: int| 0 <= t < s@.len() implies 1 <= #[trigger] s@[t]
                        <= u32::MAX by {
                        assert(s@[t] as int == red[t]);
                        if t < axis as int {
                            assert(red[t] == orig[t]);
                        } else {
                            assert(red[t] == orig[t + 1]);
                        }
                    }
                    assert(spec_product(s@.map_values(|x: usize| x as int)) == spec_product(red));
                }
                (s, node.datatype)
            }
        };
        proof {
            let sh = reduced_shape@.map_values(|x: usize| x as int);
            assert(sh =~= spec_reduced_shape(g.node_layout(value).shape, axis as int));
            if g.node_layout(value).rank() == 1 {
                lemma_product_small(sh);
            }
            assert(spec_dims_wf(reduced_shape@));
        }
        let layout = Layout::contiguous(reduced_shape);
        self.nodes.push(
            GraphNode {
                op: ComputeNode::Reduce(ReduceOperation { value, axis, function }),
                layout,
                datatype,
            },
        );
        proof {
            let h = self@;
            let n = g.nodes.len() as int;
            assert(h.nodes =~= g.nodes.push(h.nodes[n]));
            assert(h.nodes[key_index(value)] == g.nodes[key_index(value)]);
            assert(h.nodes[n].layout =~= spec_contiguous_layout(
                spec_reduced_shape(g.node_layout(value).shape, axis as int),
            ));
            assert(h.node_wf(n));
            lemma_wf_push(g, h);
        }
        Ok(ReduceComputeNodeKey { index })
    }

    /// Stores a pure layout change: a strided view of `input` under
    /// `slices`.  No GPU work is ever emitted for it.
    pub fn insert_map_layout(&mut self, input: AnyComputeKey, slices: Vec<SliceRange>) -> (r:
        Result<MapLayoutComputeNodeKey, GraphError>)
        requires
            old(self)@.wf(),
            old(self)@.key_valid(input),
        ensures
            final(self)@.wf(),
            match r {
                Ok(k) => {
                    &&& spec_slices_valid(
                        old(self)@.node_layout(input),
                        slices@.map_values(|s: SliceRange| s@),
                    )
                    &&& k.index as int == old(self)@.nodes.len()
                    &&& final(self)@.nodes =~= old(self)@.nodes.push(
                        GraphNodeModel {
                            op: ComputeNodeModel::MapLayout {
                                input,
                                slices: slices@.map_values(|s: SliceRange| s@),
                            },
                            layout: spec_apply_slices(
                                old(self)@.node_layout(input),
                                slices@.map_values(|s: SliceRange| s@),
                            ),
                            datatype: old(self)@.node_datatype(input),
                        },
                    )
                    &&& final(self)@.next_function_id == old(self)@.next_function_id
                    &&& final(self)@.key_valid(AnyComputeKey::MapLayoutComputeNodeKey(k))
                },
                Err(e) => {
                    &&& !spec_slices_valid(
                        old(self)@.node_layout(input),
                        slices@.map_values(|s: SliceRange| s@),
                    )
                    &&& e == GraphError::InvalidSlice
                    &&& final(self)@ == old(self)@
                },
            },
    {
        let index = self.nodes.len();
        let ghost g = self@;
        let (layout, datatype) = {
            let node = self.node(input);
            proof {
                assert(g.node_wf(key_index(input)));
            }
            match apply_slices(&node.layout, &slices) {
                Ok(nl) => (nl, node.datatype),
                Err(e) => {
                    return Err(e);
                },
            }
        };
        self.nodes.push(
            GraphNode {
                op: ComputeNode::MapLayout(MapLayoutOperation { input, slices }),
                layout,
                datatype,
            },
        );
        proof {
            let h = self@;
            let n = g.nodes.len() as int;
            assert(h.nodes =~= g.nodes.push(h.nodes[n]));
            assert(h.nodes[key_index(input)] == g.nodes[key_index(input)]);
            assert(h.node_wf(n));
            lemma_wf_push(g, h);
        }
        Ok(MapLayoutComputeNodeKey { index })
    }

    /// Stores a resize of `input` to `new_shape`, filling from
    /// `fill_shape`; the new shape must be 32-bit addressable with rank
    /// 1..=3.
    pub fn insert_resize(
        &mut self,
        input: AnyComputeKey,
        new_shape: Vec<usize>,
        fill_shape: Vec<usize>,
    ) -> (r: Result<ResizeComputeNodeKey, GraphError>)
        requires
            old(self)@.wf(),
            old(self)@.key_valid(input),
        ensures
            final(self)@.wf(),
            match r {
                Ok(k) => {
                    &&& spec_dims_wf(new_shape@)
                    &&& k.index as int == old(self)@.nodes.len()
                    &&& final(self)@.nodes =~= old(self)@.nodes.push(
                        GraphNodeModel {
                            op: ComputeNodeModel::Resize {
                                input,
                                new_shape: new_shape@.map_values(|x: usize| x as int),
                                fill_shape: fill_shape@.map_values(|x: usize| x as int),
                            },
                            layout: spec_contiguous_layout(
                                new_shape@.map_values(|x: usize| x as int),
                            ),
                            datatype: old(self)@.node_datatype(input),
                        },
                    )
                    &&& final(self)@.next_function_id == old(self)@.next_function_id
                    &&& final(self)@.key_valid(AnyComputeKey::ResizeComputeNodeKey(k))
                },
                Err(e) => {
                    &&& !spec_dims_wf(new_shape@)
                    &&& e == GraphError::RankUnsupported
                    &&& final(self)@ == old(self)@
                },
            },
    {
        let index = self.nodes.len();
        let ghost g = self@;
        if !check_dims(&new_shape) {
            return Err(GraphError::RankUnsupported);
        }
        let datatype = {
            let node = self.node(input);
            node.datatype
        };
        let shape_copy = clone_usizes(&new_shape);
        let layout = Layout::contiguous(shape_copy);
        self.nodes.push(
            GraphNode {
                op: ComputeNode::Resize(ResizeOperation { input, new_shape, fill_shape }),
                layout,
                datatype,
            },
        );
        proof {
            let h = self@;
            let n = g.nodes.len() as int;
            assert(h.nodes =~= g.nodes.push(h.nodes[n]));
            assert(h.nodes[key_index(input)] == g.nodes[key_index(input)]);
            assert(h.nodes[n].layout =~= spec_contiguous_layout(
                h.nodes[n].op->Resize_new_shape,
            ));
            assert(h.node_wf(n));
            lemma_wf_push(g, h);
        }
        Ok(ResizeComputeNodeKey { index })
    }

    /// Stores an in-place write of `value` into the region of `input` that
    /// `slices` selects; the region must lie inside `input` and match
    /// `value`'s shape, and the datatypes must agree.
    #[verifier::rlimit(60)]
    pub fn insert_slice_assign(
        &mut self,
        input: AnyComputeKey,
        value: AnyComputeKey,
        slices: Vec<SliceRange>,
    ) -> (r: Result<SliceAssignComputeNodeKey, GraphError>)
        requires
            old(self)@.wf(),
            old(self)@.key_valid(input),
            old(self)@.key_valid(value),
        ensures
            final(self)@.wf(),
            match r {
                Ok(k) => {
                    &&& spec_slice_assign_valid(
                        old(self)@.node_layout(input),
                        slices@.map_values(|s: SliceRange| s@),
                    )
                    &&& old(self)@.node_layout(value).shape =~= Seq::new(
                        slices@.len(),
                        |j: int| slices@.map_values(|s: SliceRange| s@)[j].end
                            - slices@.map_values(|s: SliceRange| s@)[j].start,
                    )
                    &&& old(self)@.node_datatype(value) == old(self)@.node_datatype(input)
                    &&& k.index as int == old(self)@.nodes.len()
                    &&& final(self)@.nodes =~= old(self)@.nodes.push(
                        GraphNodeModel {
                            op: ComputeNodeModel::SliceAssign {
                                input,
                                value,
                                slices: slices@.map_values(|s: SliceRange| s@),
                            },
                            layout: old(self)@.node_layout(input),
                            datatype: old(self)@.node_datatype(input),
                        },
                    )
                    &&& final(self)@.next_function_id == old(self)@.next_function_id
                    &&& final(self)@.key_valid(AnyComputeKey::SliceAssignComputeNodeKey(k))
                },
                Err(GraphError::InvalidSlice) => {
                    &&& !spec_slice_assign_valid(
                        old(self)@.node_layout(input),
                        slices@.map_values(|s: SliceRange| s@),
                    )
                    &&& final(self)@ == old(self)@
                },
                Err(GraphError::ShapeMismatch) => {
                    &&& spec_slice_assign_valid(
                        old(self)@.node_layout(input),
                        slices@.map_values(|s: SliceRange| s@),
                    )
                    &&& !(old(self)@.node_layout(value).shape =~= Seq::new(
                        slices@.len(),
                        |j: int| slices@.map_values(|s: SliceRange| s@)[j].end
                            - slices@.map_values(|s: SliceRange| s@)[j].start,
                    ))
                    &&& final(self)@ == old(self)@
                },
                Err(GraphError::DatatypeMismatch) => {
                    &&& spec_slice_assign_valid(
                        old(self)@.node_layout(input),
                        slices@.map_values(|s: SliceRange| s@),
                    )
                    &&& old(self)@.node_datatype(value) != old(self)@.node_datatype(input)
                    &&& final(self)@ == old(self)@
                },
                Err(_) => false,
            },
    {
        let index = self.nodes.len();
        let ghost g = self@;
        let ghost sm = slices@.map_values(|s: SliceRange| s@);
        let (layout, datatype) = {
            let node_in = self.node(input);
            let node_val = self.node(value);
            proof {
                assert(g.node_wf(key_index(input)));
                assert(g.node_wf(key_index(value)));
            }
            if slices.len() != node_in.layout.shape.len() {
                return Err(GraphError::InvalidSlice);
            }
            let mut i: usize = 0;
            while i < slices.len()
                invariant
                    g == old(self)@,
                    self@ == g,
                    g.wf(),
                    sm == slices@.map_values(|s: SliceRange| s@),
                    g.key_valid(input),
                    node_in@ == g.nodes[key_index(input)],
                    node_in.layout@.wf(),
                    slices@.len() == g.node_layout(input).rank(),
                    0 <= i <= slices@.len(),
                    forall|j: int|
                        0 <= j < i ==> 0 <= #[trigger] sm[j].start < sm[j].end <= g.node_layout(
                            input,
                        ).shape[j],
                decreases slices@.len() - i,
            {
                let s = slices[i];
                proof {
                    assert(sm[i as int] == slices@[i as int]@);
                    assert(g.node_layout(input).shape[i as int] == node_in.layout.shape@[i as int]
                        as int);
                }
                if !(s.start < s.end && s.end <= node_in.layout.shape[i]) {
                    proof {
                        assert(spec_slice_assign_valid(g.node_layout(input), sm) ==> 0 <= sm[i
                            as int].start < sm[i as int].end <= g.node_layout(input).shape[i as int]);
                    }
                    return Err(GraphError::InvalidSlice);
                }
                proof {
                    assert forall|j: int| 0 <= j < i + 1 implies 0 <= #[trigger] sm[j].start
                        < sm[j].end <= g.node_layout(input).shape[j] by {
                        if j == i as int {
                            assert(sm[j] == slices@[j]@);
                        }
                    }
                }
                i += 1;
            }
            if node_val.layout.shape.len() != slices.len() {
                proof {
                    let expected = Seq::new(sm.len(), |t: int| sm[t].end - sm[t].start);
                    assert(g.node_layout(value).shape.len() != expected.len());
                }
                return Err(GraphError::ShapeMismatch);
            }
            let mut j: usize = 0;
            while j < slices.len()
                invariant
                    g == old(self)@,
                    self@ == g,
                    g.wf(),
                    sm == slices@.map_values(|s: SliceRange| s@),
                    g.key_valid(input),
                    g.key_valid(value),
                    node_in@ == g.nodes[key_index(input)],
                    node_val@ == g.nodes[key_index(value)],
                    node_val.layout@.wf(),
                    slices@.len() == g.node_layout(input).rank(),
                    g.node_layout(value).rank() == slices@.len(),
                    forall|t: int|
                        0 <= t < slices@.len() ==> 0 <= #[trigger] sm[t].start < sm[t].end
                            <= g.node_layout(input).shape[t],
                    0 <= j <= slices@.len(),
                    forall|t: int|
                        0 <= t < j ==> #[trigger] g.node_layout(value).shape[t] == sm[t].end
                            - sm[t].start,
                decreases slices@.len() - j,
            {
                let s = slices[j];
                proof {
                    assert(sm[j as int] == slices@[j as int]@);
                    assert(g.node_layout(value).shape[j as int] == node_val.layout.shape@[j as int]
                        as int);
                    assert(0 <= sm[j as int].start < sm[j as int].end);
                }
                if node_val.layout.shape[j] != s.end - s.start {
                    proof {
                        let expected = Seq::new(sm.len(), |t: int| sm[t].end - sm[t].start);
                        assert(expected[j as int] == sm[j as int].end - sm[j as int].start);
                        assert(g.node_layout(value).shape[j as int] != expected[j as int]);
                    }
                    return Err(GraphError::ShapeMismatch);
                }
                j += 1;
            }
            proof {
                assert(g.node_layout(value).shape =~= Seq::new(
                    sm.len(),
                    |t: int| sm[t].end - sm[t].start,
                ));
            }
            if node_val.datatype != node_in.datatype {
                return Err(GraphError::DatatypeMismatch);
            }
            (node_in.layout.clone(), node_in.datatype)
        };
        self.nodes.push(
            GraphNode {
                op: ComputeNode::SliceAssign(SliceAssignOperation { input, value, slices }),
                layout,
                datatype,
            },
        );
        proof {
            let h = self@;
            let n = g.nodes.len() as int;
            assert(h.nodes =~= g.nodes.push(h.nodes[n]));
            assert(h.nodes[key_index(input)] == g.nodes[key_index(input)]);
            assert(h.nodes[key_index(value)] == g.nodes[key_index(value)]);
            assert(h.nodes[n].layout =~= g.node_layout(input));
            assert(h.node_wf(n));
            lemma_wf_push(g, h);
        }
        Ok(SliceAssignComputeNodeKey { index })
    }
}

/// Whether `slices` selects a nonempty in-bounds region of a layout with
/// shape `l.shape` (slice assignment does not move the layout's origin, so
/// no offset bound is needed).
pub open spec fn spec_slice_assign_valid(l: LayoutModel, slices: Seq<SliceRangeModel>) -> bool {
    &&& slices.len() == l.rank()
    &&& (forall|j: int|
        0 <= j < slices.len() ==> 0 <= #[trigger] slices[j].start < slices[j].end <= l.shape[j])
}

/// Two shapes read back as machine words are equal exactly when their
/// mathematical values are.
pub proof fn lemma_mapped_shapes_eq(a: Seq<usize>, b: Seq<usize>)
    ensures
        (a.map_values(|x: usize| x as int) =~= b.map_values(|x: usize| x as int)) <==> (a == b),
{
    let ma = a.map_values(|x: usize| x as int);
    let mb = b.map_values(|x: usize| x as int);
    if ma =~= mb {
        assert forall|i: int| 0 <= i < a.len() implies a[i] == b[i] by {
            assert(ma[i] == mb[i]);
        }
        assert(a =~= b);
    }
    if a == b {
        assert(ma =~= mb);
    }
}

/// Removing an entry commutes with reading a shape back as integers.
pub proof fn lemma_map_remove(a: Seq<usize>, i: int)
    requires
        0 <= i < a.len(),
    ensures
        a.remove(i).map_values(|x: usize| x as int) =~= a.map_values(|x: usize| x as int).remove(i),
{
}

/// Whether two dimension vectors are equal.
pub fn shapes_equal(a: &Vec<usize>, b: &Vec<usize>) -> (r: bool)
    ensures
        r == (a@ == b@),
{
    if a.len() != b.len() {
        proof {
            assert(a@.len() != b@.len());
            assert(a@ != b@);
        }
        return false;
    }
    let mut i: usize = 0;
    while i < a.len()
        invariant
            a@.len() == b@.len(),
            0 <= i <= a@.len(),
            forall|j: int| 0 <= j < i ==> a@[j] == b@[j],
        decreases a@.len() - i,
    {
        if a[i] != b[i] {
            proof {
                assert(a@[i as int] != b@[i as int]);
                assert(a@ != b@);
            }
            return false;
        }
        i += 1;
    }
    proof {
        assert(a@ =~= b@);
    }
    true
}

} // verus!
