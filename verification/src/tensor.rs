//! Realized tensors and the typed tensor surface over the compute graph.

use vstd::prelude::*;
use crate::{DataTypeEnum, GraphError};
use crate::dispatch::CommandRecorder;
use crate::element_wise::{ElementWiseFunction, ElementWiseFunctionModel};
use crate::graph::{
    key_index, AnyComputeKey, ComputeGraph, ComputeNodeModel, GraphNodeModel,
    TensorComputeNodeKey,
};
use crate::layout::{Layout, LayoutModel};
use crate::resolve::spec_resolve;

verus! {

/// The mathematical value of a [`TensorData`].
#[verifier::ext_equal]
pub ghost struct TensorDataModel {
    pub buffer: u64,
    pub layout: LayoutModel,
    pub datatype: DataTypeEnum,
}

/// A handle to a realized tensor: an opaque buffer id, the layout under
/// which the buffer is read, and the element datatype.  The id names a GPU
/// buffer owned by the caller; the engine never dereferences it.
pub struct TensorData {
    pub buffer: u64,
    pub layout: Layout,
    pub datatype: DataTypeEnum,
}

impl View for TensorData {
    type V = TensorDataModel;

    open spec fn view(&self) -> TensorDataModel {
        TensorDataModel { buffer: self.buffer, layout: self.layout@, datatype: self.datatype }
    }
}

impl Clone for TensorData {
    /// An exact copy of the handle.
    fn clone(&self) -> (r: Self)
        ensures
            r@ == self@,
    {
        let r = TensorData {
            buffer: self.buffer,
            layout: self.layout.clone(),
            datatype: self.datatype,
        };
        proof {
            assert(r@ =~= self@);
        }
        r
    }
}

impl TensorData {
    /// A new handle over `buffer` with the given layout and datatype.
    pub fn new(buffer: u64, layout: Layout, datatype: DataTypeEnum) -> (r: TensorData)
        ensures
            r@ == (TensorDataModel { buffer, layout: layout@, datatype }),
    {
        TensorData { buffer, layout, datatype }
    }

    /// The element datatype.
    pub fn datatype(&self) -> (r: DataTypeEnum)
        ensures
            r == self@.datatype,
    {
        self.datatype
    }

    /// The layout under which the buffer is read.
    pub fn layout(&self) -> (r: &Layout)
        ensures
            r@ == self@.layout,
    {
        &self.layout
    }
}


/// A deferred tensor: a compute graph together with the key of the node
/// this tensor denotes.  Elementwise methods grow the graph lazily; no
/// GPU work happens until the tensor is realized.
pub struct Tensor {
    pub graph: ComputeGraph,
    pub key: AnyComputeKey,
}

/// What one deferred unary operation does to a tensor: it appends a
/// single elementwise node over the old key, carrying the given snippet
/// under a fresh function id, and the new tensor denotes that node.
pub open spec fn spec_unary_step(
    old_t: Tensor,
    new_t: Tensor,
    operation: Seq<char>,
    name: Seq<char>,
) -> bool {
    &&& new_t.graph@.nodes =~= old_t.graph@.nodes.push(
        GraphNodeModel {
            op: ComputeNodeModel::ElementWise {
                value: old_t.key,
                function: ElementWiseFunctionModel {
                    name: Option::Some(name),
                    name_id: old_t.graph@.next_function_id as u64,
                    operation,
                },
            },
            layout: old_t.graph@.node_layout(old_t.key),
            datatype: old_t.graph@.node_datatype(old_t.key),
        },
    )
    &&& new_t.graph@.next_function_id == old_t.graph@.next_function_id + 1
    &&& key_index(new_t.key) == old_t.graph@.nodes.len()
    &&& new_t.key is ElementWiseComputeNodeKey
    &&& new_t.wf()
}

impl Tensor {
    /// A tensor is usable while its graph is well-formed and its key
    /// selects a stored node.
    pub open spec fn wf(self) -> bool {
        self.graph@.wf() && self.graph@.key_valid(self.key)
    }

    /// A new leaf tensor over a realized buffer.  Fails with
    /// `RankUnsupported` exactly when the handle's layout is not
    /// well-formed.
    pub fn new(data: TensorData) -> (r: Result<Tensor, GraphError>)
        ensures
            match r {
                Ok(t) => {
                    &&& data@.layout.wf()
                    &&& t.wf()
                    &&& t.graph@.nodes.len() == 1
                    &&& t.graph@.nodes[0].op == (ComputeNodeModel::Tensor { data: data@ })
                    &&& t.key == AnyComputeKey::TensorComputeNodeKey(TensorComputeNodeKey { index: 0 })
                },
                Err(e) => {
                    &&& !data@.layout.wf()
                    &&& e == GraphError::RankUnsupported
                },
            },
    {
        let mut graph = ComputeGraph::new();
        match graph.insert_tensor(data) {
            Ok(k) => Ok(Tensor { graph, key: AnyComputeKey::TensorComputeNodeKey(k) }),
            Err(e) => Err(e),
        }
    }

    /// The key of the node this tensor denotes.
    pub fn key(&self) -> (r: AnyComputeKey)
        ensures
            r == self.key,
    {
        self.key
    }

    /// Defers one elementwise operation: the snippet is wrapped in a
    /// function under a fresh id and stored as a new node over this
    /// tensor's key.
    pub fn element_wise_named(self, operation: &str, name: &str) -> (r: Self)
        requires
            self.wf(),
            self.graph@.next_function_id < u64::MAX,
        ensures
            spec_unary_step(self, r, operation@, name@),
    {
        let mut graph = self.graph;
        let id = graph.next_function_id();
        let function = ElementWiseFunction::new(id, operation).with_name(name);
        let k = graph.insert_element_wise(self.key, function);
        Tensor { graph, key: AnyComputeKey::ElementWiseComputeNodeKey(k) }
    }

    /// Realizes this tensor: records the compute passes that produce it
    /// and returns the realized handle, as [`spec_resolve`] describes.
    pub fn realize(&self, rec: &mut CommandRecorder) -> (r: TensorData)
        requires
            self.wf(),
            spec_resolve(self.graph@, self.key, old(rec)@.next_buffer).next_buffer <= u64::MAX,
        ensures
            ({
                let out = spec_resolve(self.graph@, self.key, old(rec)@.next_buffer);
                &&& r@ == out.tensor
                &&& final(rec)@.passes =~= old(rec)@.passes + out.passes
                &&& final(rec)@.next_buffer == out.next_buffer
            }),
    {
        self.graph.resolve(self.key, rec)
    }

    /// Defers `exp(data)` over every element.
    pub fn exp(self) -> (r: Self)
        requires
            self.wf(),
            self.graph@.next_function_id < u64::MAX,
        ensures
            spec_unary_step(self, r, "data = exp(data);"@, "exp"@),
    {
        self.element_wise_named("data = exp(data);", "exp")
    }

    /// Defers `exp2(data)` over every element.
    pub fn exp2(self) -> (r: Self)
        requires
            self.wf(),
            self.graph@.next_function_id < u64::MAX,
        ensures
            spec_unary_step(self, r, "data = exp2(data);"@, "exp2"@),
    {
        self.element_wise_named("data = exp2(data);", "exp2")
    }

    /// Defers `log(data)` over every element.
    pub fn log(self) -> (r: Self)
        requires
            self.wf(),
            self.graph@.next_function_id < u64::MAX,
        ensures
            spec_unary_step(self, r, "data = log(data);"@, "log"@),
    {
        self.element_wise_named("data = log(data);", "log")
    }

    /// Defers `log2(data)` over every element.
    pub fn log2(self) -> (r: Self)
        requires
            self.wf(),
            self.graph@.next_function_id < u64::MAX,
        ensures
            spec_unary_step(self, r, "data = log2(data);"@, "log2"@),
    {
        self.element_wise_named("data = log2(data);", "log2")
    }

    /// Defers `sqrt(data)` over every element.
    pub fn sqrt(self) -> (r: Self)
        requires
            self.wf(),
            self.graph@.next_function_id < u64::MAX,
        ensures
            spec_unary_step(self, r, "data = sqrt(data);"@, "sqrt"@),
    {
        self.element_wise_named("data = sqrt(data);", "sqrt")
    }

    /// Defers `sin(data)` over every element.
    pub fn sin(self) -> (r: Self)
        requires
            self.wf(),
            self.graph@.next_function_id < u64::MAX,
        ensures
            spec_unary_step(self, r, "data = sin(data);"@, "sin"@),
    {
        self.element_wise_named("data = sin(data);", "sin")
    }

    /// Defers `cos(data)` over every element.
    pub fn cos(self) -> (r: Self)
        requires
            self.wf(),
            self.graph@.next_function_id < u64::MAX,
        ensures
            spec_unary_step(self, r, "data = cos(data);"@, "cos"@),
    {
        self.element_wise_named("data = cos(data);", "cos")
    }

    /// Defers `tan(data)` over every element.
    pub fn tan(self) -> (r: Self)
        requires
            self.wf(),
            self.graph@.next_function_id < u64::MAX,
        ensures
            spec_unary_step(self, r, "data = tan(data);"@, "tan"@),
    {
        self.element_wise_named("data = tan(data);", "tan")
    }

    /// Defers `asin(data)` over every element.
    pub fn asin(self) -> (r: Self)
        requires
            self.wf(),
            self.graph@.next_function_id < u64::MAX,
        ensures
            spec_unary_step(self, r, "data = asin(data);"@, "asin"@),
    {
        self.element_wise_named("data = asin(data);", "asin")
    }

    /// Defers `acos(data)` over every element.
    pub fn acos(self) -> (r: Self)
        requires
            self.wf(),
            self.graph@.next_function_id < u64::MAX,
        ensures
            spec_unary_step(self, r, "data = acos(data);"@, "acos"@),
    {
        self.element_wise_named("data = acos(data);", "acos")
    }

    /// Defers `atan(data)` over every element.
    pub fn atan(self) -> (r: Self)
        requires
            self.wf(),
            self.graph@.next_function_id < u64::MAX,
        ensures
            spec_unary_step(self, r, "data = atan(data);"@, "atan"@),
    {
        self.element_wise_named("data = atan(data);", "atan")
    }

    /// Defers `sinh(data)` over every element.
    pub fn sinh(self) -> (r: Self)
        requires
            self.wf(),
            self.graph@.next_function_id < u64::MAX,
        ensures
            spec_unary_step(self, r, "data = sinh(data);"@, "sinh"@),
    {
        self.element_wise_named("data = sinh(data);", "sinh")
    }

    /// Defers `cosh(data)` over every element.
    pub fn cosh(self) -> (r: Self)
        requires
            self.wf(),
            self.graph@.next_function_id < u64::MAX,
        ensures
            spec_unary_step(self, r, "data = cosh(data);"@, "cosh"@),
    {
        self.element_wise_named("data = cosh(data);", "cosh")
    }

    /// Defers `tanh(data)` over every element.
    pub fn tanh(self) -> (r: Self)
        requires
            self.wf(),
            self.graph@.next_function_id < u64::MAX,
        ensures
            spec_unary_step(self, r, "data = tanh(data);"@, "tanh"@),
    {
        self.element_wise_named("data = tanh(data);", "tanh")
    }

    /// Defers `asinh(data)` over every element.
    pub fn asinh(self) -> (r: Self)
        requires
            self.wf(),
            self.graph@.next_function_id < u64::MAX,
        ensures
            spec_unary_step(self, r, "data = asinh(data);"@, "asinh"@),
    {
        self.element_wise_named("data = asinh(data);", "asinh")
    }

    /// Defers `acosh(data)` over every element.
    pub fn acosh(self) -> (r: Self)
        requires
            self.wf(),
            self.graph@.next_function_id < u64::MAX,
        ensures
            spec_unary_step(self, r, "data = acosh(data);"@, "acosh"@),
    {
        self.element_wise_named("data = acosh(data);", "acosh")
    }

    /// Defers `atanh(data)` over every element.
    pub fn atanh(self) -> (r: Self)
        requires
            self.wf(),
            self.graph@.next_function_id < u64::MAX,
        ensures
            spec_unary_step(self, r, "data = atanh(data);"@, "atanh"@),
    {
        self.element_wise_named("data = atanh(data);", "atanh")
    }

    /// Defers `abs(data)` over every element.
    pub fn abs(self) -> (r: Self)
        requires
            self.wf(),
            self.graph@.next_function_id < u64::MAX,
        ensures
            spec_unary_step(self, r, "data = abs(data);"@, "abs"@),
    {
        self.element_wise_named("data = abs(data);", "abs")
    }
}

} // verus!
