//! Planned compute passes and the command recorder.
//!
//! Resolving a graph records a sequence of passes.  An elementwise pass
//! carries its generated shader source, workgroup grid and layout uniform;
//! the pairwise, reduce, matmul, resize and slice-assign passes carry the
//! parameters that their opaque kernel builders take, including the fused
//! pre- and post-elementwise chains.

use vstd::prelude::*;
use crate::element_wise::{ElementWiseFunction, ElementWiseFunctionModel, spec_views};
use crate::graph::{
    PairWiseFunction, PairWiseFunctionModel, ReduceFunction, ReduceFunctionModel,
};
use crate::layout::{Layout, LayoutModel, SliceRange, SliceRangeModel, TILE_SIZE};
use crate::tensor::{TensorData, TensorDataModel};

verus! {

/// Workgroup counts along the three grid axes of one dispatch.
#[derive(Clone, Copy, PartialEq, Eq, Structural, Debug)]
pub struct DispatchGrid {
    pub x: u32,
    pub y: u32,
    pub z: u32,
}

/// Ceiling division.
pub open spec fn spec_ceil_div(n: int, d: int) -> int {
    (n + d - 1) / d
}

/// The workgroup size along one axis: 256 invocations on the dense path's
/// single axis, and the largest `b` with `b^rank <= 256` on the strided
/// path.
pub open spec fn spec_blocksize(contiguous: bool, rank: int) -> int {
    if contiguous || rank == 1 {
        256
    } else if rank == 2 {
        16
    } else {
        6
    }
}

/// The dispatch grid for a layout: the dense path covers all elements on
/// the x axis; the strided path covers each axis' dimension, unused axes
/// staying at 1.
pub open spec fn spec_grid(l: LayoutModel) -> DispatchGrid {
    if l.is_contiguous() {
        DispatchGrid {
            x: spec_ceil_div(l.num_elements(), TILE_SIZE as int * 256) as u32,
            y: 1u32,
            z: 1u32,
        }
    } else {
        let step = TILE_SIZE as int * spec_blocksize(false, l.rank());
        DispatchGrid {
            x: spec_ceil_div(l.shape[0], step) as u32,
            y: if l.rank() >= 2 {
                spec_ceil_div(l.shape[1], step) as u32
            } else {
                1u32
            },
            z: if l.rank() >= 3 {
                spec_ceil_div(l.shape[2], step) as u32
            } else {
                1u32
            },
        }
    }
}

/// Ceiling division of 32-bit-bounded values.
fn ceil_div_u32(n: u64, d: u64) -> (r: u64)
    requires
        0 < d,
        n <= u32::MAX,
        d <= u32::MAX,
    ensures
        r as int == spec_ceil_div(n as int, d as int),
{
    (n + d - 1) / d
}

/// The dispatch grid for a well-formed layout, given its contiguity.
pub fn compute_grid(l: &Layout, contiguous: bool) -> (r: DispatchGrid)
    requires
        l@.wf(),
        contiguous == l@.is_contiguous(),
    ensures
        r == spec_grid(l@),
{
    if contiguous {
        let n = l.num_elements();
        let x = ceil_div_u32(n as u64, (TILE_SIZE as u64) * 256);
        DispatchGrid { x: x as u32, y: 1, z: 1 }
    } else {
        let rank = l.rank();
        let blocksize: u64 = if rank == 1 {
            256
        } else if rank == 2 {
            16
        } else {
            6
        };
        let step = (TILE_SIZE as u64) * blocksize;
        proof {
            assert(l@.shape[0] == l.shape@[0] as int);
        }
        let x = ceil_div_u32(l.shape[0] as u64, step);
        let y = if rank >= 2 {
            proof {
                assert(l@.shape[1] == l.shape@[1] as int);
            }
            ceil_div_u32(l.shape[1] as u64, step)
        } else {
            1
        };
        let z = if rank >= 3 {
            proof {
                assert(l@.shape[2] == l.shape@[2] as int);
            }
            ceil_div_u32(l.shape[2] as u64, step)
        } else {
            1
        };
        DispatchGrid { x: x as u32, y: y as u32, z: z as u32 }
    }
}

/// The mathematical value of an [`ElementWisePass`].
#[verifier::ext_equal]
pub ghost struct ElementWisePassModel {
    pub functions: Seq<ElementWiseFunctionModel>,
    pub source: Seq<char>,
    pub dense: bool,
    pub grid: DispatchGrid,
    pub uniform: Seq<int>,
    pub tensor: TensorDataModel,
}

/// A fused elementwise dispatch: the generated shader, the workgroup grid,
/// the packed layout uniform, and the tensor it rewrites in place.
pub struct ElementWisePass {
    pub functions: Vec<ElementWiseFunction>,
    pub source: String,
    pub dense: bool,
    pub grid: DispatchGrid,
    pub uniform: Vec<u32>,
    pub tensor: TensorData,
}

impl View for ElementWisePass {
    type V = ElementWisePassModel;

    open spec fn view(&self) -> ElementWisePassModel {
        ElementWisePassModel {
            functions: spec_views(self.functions@),
            source: self.source@,
            dense: self.dense,
            grid: self.grid,
            uniform: self.uniform@.map_values(|x: u32| x as int),
            tensor: self.tensor@,
        }
    }
}

/// The mathematical value of a [`PairWisePass`].
#[verifier::ext_equal]
pub ghost struct PairWisePassModel {
    pub function: PairWiseFunctionModel,
    pub pre_first: Seq<ElementWiseFunctionModel>,
    pub pre_second: Seq<ElementWiseFunctionModel>,
    pub post: Seq<ElementWiseFunctionModel>,
    pub first: TensorDataModel,
    pub second: TensorDataModel,
    pub output: TensorDataModel,
}

/// A pairwise dispatch handed to the opaque pairwise kernel builder, with
/// one fused pre-elementwise chain per operand and one post chain.  Chains
/// are stored nearest-to-root first, as collected.
pub struct PairWisePass {
    pub function: PairWiseFunction,
    pub pre_first: Vec<ElementWiseFunction>,
    pub pre_second: Vec<ElementWiseFunction>,
    pub post: Vec<ElementWiseFunction>,
    pub first: TensorData,
    pub second: TensorData,
    pub output: TensorData,
}

impl View for PairWisePass {
    type V = PairWisePassModel;

    open spec fn view(&self) -> PairWisePassModel {
        PairWisePassModel {
            function: self.function@,
            pre_first: spec_views(self.pre_first@),
            pre_second: spec_views(self.pre_second@),
            post: spec_views(self.post@),
            first: self.first@,
            second: self.second@,
            output: self.output@,
        }
    }
}

/// The mathematical value of a [`ReducePass`].
#[verifier::ext_equal]
pub ghost struct ReducePassModel {
    pub function: ReduceFunctionModel,
    pub axis: u32,
    pub pre: Seq<ElementWiseFunctionModel>,
    pub post: Seq<ElementWiseFunctionModel>,
    pub input: TensorDataModel,
    pub output: TensorDataModel,
}

/// A reduce dispatch handed to the opaque reduce kernel builder, with the
/// fused pre- and post-elementwise chains, stored nearest-to-root first.
pub struct ReducePass {
    pub function: ReduceFunction,
    pub axis: u32,
    pub pre: Vec<ElementWiseFunction>,
    pub post: Vec<ElementWiseFunction>,
    pub input: TensorData,
    pub output: TensorData,
}

impl View for ReducePass {
    type V = ReducePassModel;

    open spec fn view(&self) -> ReducePassModel {
        ReducePassModel {
            function: self.function@,
            axis: self.axis,
            pre: spec_views(self.pre@),
            post: spec_views(self.post@),
            input: self.input@,
            output: self.output@,
        }
    }
}

/// The mathematical value of a [`MatMulPass`].
#[verifier::ext_equal]
pub ghost struct MatMulPassModel {
    pub first: TensorDataModel,
    pub second: TensorDataModel,
    pub output: TensorDataModel,
}

/// A matrix-multiplication dispatch handed to the opaque matmul builder.
pub struct MatMulPass {
    pub first: TensorData,
    pub second: TensorData,
    pub output: TensorData,
}

impl View for MatMulPass {
    type V = MatMulPassModel;

    open spec fn view(&self) -> MatMulPassModel {
        MatMulPassModel { first: self.first@, second: self.second@, output: self.output@ }
    }
}

/// The mathematical value of a [`ResizePass`].
#[verifier::ext_equal]
pub ghost struct ResizePassModel {
    pub input: TensorDataModel,
    pub new_shape: Seq<int>,
    pub fill_shape: Seq<int>,
    pub output: TensorDataModel,
}

/// A resize dispatch handed to the opaque resize kernel builder.
pub struct ResizePass {
    pub input: TensorData,
    pub new_shape: Vec<usize>,
    pub fill_shape: Vec<usize>,
    pub output: TensorData,
}

impl View for ResizePass {
    type V = ResizePassModel;

    open spec fn view(&self) -> ResizePassModel {
        ResizePassModel {
            input: self.input@,
            new_shape: self.new_shape@.map_values(|x: usize| x as int),
            fill_shape: self.fill_shape@.map_values(|x: usize| x as int),
            output: self.output@,
        }
    }
}

/// The mathematical value of a [`SliceAssignPass`].
#[verifier::ext_equal]
pub ghost struct SliceAssignPassModel {
    pub input: TensorDataModel,
    pub value: TensorDataModel,
    pub slices: Seq<SliceRangeModel>,
}

/// A slice-assign dispatch handed to the opaque slice-assign builder; it
/// writes `value` into the selected region of `input` in place.
pub struct SliceAssignPass {
    pub input: TensorData,
    pub value: TensorData,
    pub slices: Vec<SliceRange>,
}

impl View for SliceAssignPass {
    type V = SliceAssignPassModel;

    open spec fn view(&self) -> SliceAssignPassModel {
        SliceAssignPassModel {
            input: self.input@,
            value: self.value@,
            slices: self.slices@.map_values(|s: SliceRange| s@),
        }
    }
}

/// The mathematical value of a [`PlannedPass`].
#[verifier::ext_equal]
pub ghost enum PassModel {
    ElementWise(ElementWisePassModel),
    PairWise(PairWisePassModel),
    Reduce(ReducePassModel),
    MatMul(MatMulPassModel),
    Resize(ResizePassModel),
    SliceAssign(SliceAssignPassModel),
}

/// One recorded compute pass, tagged by the kernel that runs it.
pub enum PlannedPass {
    ElementWise(ElementWisePass),
    PairWise(PairWisePass),
    Reduce(ReducePass),
    MatMul(MatMulPass),
    Resize(ResizePass),
    SliceAssign(SliceAssignPass),
}

impl View for PlannedPass {
    type V = PassModel;

    open spec fn view(&self) -> PassModel {
        match self {
            PlannedPass::ElementWise(p) => PassModel::ElementWise(p@),
            PlannedPass::PairWise(p) => PassModel::PairWise(p@),
            PlannedPass::Reduce(p) => PassModel::Reduce(p@),
            PlannedPass::MatMul(p) => PassModel::MatMul(p@),
            PlannedPass::Resize(p) => PassModel::Resize(p@),
            PlannedPass::SliceAssign(p) => PassModel::SliceAssign(p@),
        }
    }
}

/// The views of a sequence of planned passes.
pub open spec fn spec_pass_views(s: Seq<PlannedPass>) -> Seq<PassModel> {
    s.map_values(|p: PlannedPass| p@)
}

/// The mathematical value of a [`CommandRecorder`].
#[verifier::ext_equal]
pub ghost struct RecorderModel {
    pub passes: Seq<PassModel>,
    pub next_buffer: int,
}

/// The recording surface a resolve appends to: the ordered list of passes
/// and the allocator for fresh intermediate buffer ids.  Recording order
/// fixes GPU execution order within a submission.
pub struct CommandRecorder {
    passes: Vec<PlannedPass>,
    next_buffer_id: u64,
}

impl View for CommandRecorder {
    type V = RecorderModel;

    closed spec fn view(&self) -> RecorderModel {
        RecorderModel {
            passes: spec_pass_views(self.passes@),
            next_buffer: self.next_buffer_id as int,
        }
    }
}

impl CommandRecorder {
    /// An empty recorder whose fresh buffer ids start at `first_buffer_id`;
    /// the caller picks a value above its own buffer ids.
    pub fn new(first_buffer_id: u64) -> (r: CommandRecorder)
        ensures
            r@.passes.len() == 0,
            r@.next_buffer == first_buffer_id,
    {
        let r = CommandRecorder { passes: Vec::new(), next_buffer_id: first_buffer_id };
        proof {
            assert(r@.passes =~= Seq::<PassModel>::empty());
        }
        r
    }

    /// A fresh buffer id for an intermediate result.
    pub(crate) fn alloc_buffer(&mut self) -> (r: u64)
        requires
            old(self)@.next_buffer < u64::MAX,
        ensures
            r as int == old(self)@.next_buffer,
            final(self)@.next_buffer == old(self)@.next_buffer + 1,
            final(self)@.passes == old(self)@.passes,
    {
        let r = self.next_buffer_id;
        self.next_buffer_id = self.next_buffer_id + 1;
        r
    }

    /// Appends one pass; recorded order is execution order.
    pub(crate) fn record(&mut self, p: PlannedPass)
        ensures
            final(self)@.passes =~= old(self)@.passes.push(p@),
            final(self)@.next_buffer == old(self)@.next_buffer,
    {
        self.passes.push(p);
        proof {
            assert(spec_pass_views(self.passes@) =~= spec_pass_views(old(self).passes@).push(p@));
        }
    }

    /// The recorded passes, in execution order.
    pub fn passes(&self) -> (r: &Vec<PlannedPass>)
        ensures
            spec_pass_views(r@) == self@.passes,
    {
        &self.passes
    }

    /// How many passes have been recorded.
    pub fn pass_count(&self) -> (r: usize)
        ensures
            r as int == self@.passes.len(),
    {
        self.passes.len()
    }

    /// The next fresh buffer id.
    pub fn next_buffer_id(&self) -> (r: u64)
        ensures
            r as int == self@.next_buffer,
    {
        self.next_buffer_id
    }
}

} // verus!
