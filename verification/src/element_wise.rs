//! Elementwise functions and the elementwise shader emitter.
//!
//! An [`ElementWiseFunction`] is a snippet of shading-language source that
//! rewrites a mutable variable `data`.  The [`UntypedElementWiseKernel`]
//! holds a fused chain of such functions and emits a complete compute
//! shader specialized for a tensor's rank, datatype and contiguity.

use vstd::prelude::*;
use vstd::string::StringExecFns;
use crate::DataTypeEnum;
use crate::decimal::{push_decimal, spec_decimal};
use crate::dispatch::{
    compute_grid, spec_blocksize, spec_grid, CommandRecorder, ElementWisePass,
    ElementWisePassModel, PassModel, PlannedPass,
};
use crate::layout::{layout_uniform, spec_layout_uniform, Layout, TILE_SIZE};
use crate::tensor::TensorData;

verus! {

/// The shading-language name of an element datatype.
pub open spec fn spec_dtype_name(d: DataTypeEnum) -> Seq<char> {
    match d {
        DataTypeEnum::F16 => "f16"@,
        DataTypeEnum::F32 => "f32"@,
        DataTypeEnum::U32 => "u32"@,
        DataTypeEnum::I32 => "i32"@,
    }
}

/// The shading-language name of an element datatype.
pub fn wgsl_dtype(d: DataTypeEnum) -> (r: &'static str)
    ensures
        r@ == spec_dtype_name(d),
{
    match d {
        DataTypeEnum::F16 => "f16",
        DataTypeEnum::F32 => "f32",
        DataTypeEnum::U32 => "u32",
        DataTypeEnum::I32 => "i32",
    }
}

/// The mathematical value of an [`ElementWiseFunction`].
#[verifier::ext_equal]
pub ghost struct ElementWiseFunctionModel {
    pub name: Option<Seq<char>>,
    pub name_id: u64,
    pub operation: Seq<char>,
}

/// One elementwise operation: a shading-language snippet over a mutable
/// variable `data`, a unique id that seeds the emitted helper's name, and
/// an optional human-readable name.
pub struct ElementWiseFunction {
    name: Option<String>,
    name_id: u64,
    operation: String,
}

impl View for ElementWiseFunction {
    type V = ElementWiseFunctionModel;

    closed spec fn view(&self) -> ElementWiseFunctionModel {
        ElementWiseFunctionModel {
            name: match self.name {
                Option::Some(n) => Option::Some(n@),
                Option::None => Option::None,
            },
            name_id: self.name_id,
            operation: self.operation@,
        }
    }
}

impl Clone for ElementWiseFunction {
    /// An exact copy of the function.
    fn clone(&self) -> (r: Self)
        ensures
            r@ == self@,
    {
        let name = match &self.name {
            Option::Some(n) => Option::Some(n.clone()),
            Option::None => Option::None,
        };
        ElementWiseFunction { name, name_id: self.name_id, operation: self.operation.clone() }
    }
}

/// The helper call `unary_<id>(<inner>)`.
pub open spec fn spec_call(f: ElementWiseFunctionModel, inner: Seq<char>) -> Seq<char> {
    "unary_"@ + spec_decimal(f.name_id as int) + "("@ + inner + ")"@
}

/// The helper declaration emitted once per function.
pub open spec fn spec_function_decl(f: ElementWiseFunctionModel, d: DataTypeEnum) -> Seq<char> {
    "fn unary_"@ + spec_decimal(f.name_id as int) + "(input: "@ + spec_dtype_name(d) + ") -> "@
        + spec_dtype_name(d) + " {\n    var data = input;\n    "@ + f.operation
        + "\n    return data;\n}\n"@
}

impl ElementWiseFunction {
    /// A new elementwise function.  `name_id` must be unique among the
    /// functions of one graph; the graph's allocator provides it.
    pub fn new(name_id: u64, operation: &str) -> (r: Self)
        ensures
            r@ == (ElementWiseFunctionModel {
                name: Option::None,
                name_id,
                operation: operation@,
            }),
    {
        ElementWiseFunction { name: Option::None, name_id, operation: operation.to_owned() }
    }

    /// The same function under a human-readable name.
    pub fn with_name(self, name: &str) -> (r: Self)
        ensures
            r@ == (ElementWiseFunctionModel { name: Option::Some(name@), ..self@ }),
    {
        ElementWiseFunction {
            name: Option::Some(name.to_owned()),
            name_id: self.name_id,
            operation: self.operation,
        }
    }

    /// The id that seeds the emitted helper's identifier.
    pub fn name_id(&self) -> (r: u64)
        ensures
            r == self@.name_id,
    {
        self.name_id
    }

    /// The human-readable name, or `"element_wise"` when none was given.
    pub fn name(&self) -> (r: &str)
        ensures
            match self@.name {
                Option::Some(n) => r@ == n,
                Option::None => r@ == "element_wise"@,
            },
    {
        match &self.name {
            Option::Some(n) => n.as_str(),
            Option::None => "element_wise",
        }
    }

    /// The shading-language snippet this function applies to `data`.
    pub fn operation(&self) -> (r: &str)
        ensures
            r@ == self@.operation,
    {
        self.operation.as_str()
    }

    /// The helper call `unary_<id>(<data>)`.
    pub fn call(&self, data: &str) -> (r: String)
        ensures
            r@ == spec_call(self@, data@),
    {
        let mut s = String::new();
        s.append("unary_");
        push_decimal(&mut s, self.name_id);
        s.append("(");
        s.append(data);
        s.append(")");
        proof {
            assert(s@ =~= spec_call(self@, data@));
        }
        s
    }

    /// The helper declaration `fn unary_<id>(input: <dtype>) -> <dtype>`
    /// wrapping the snippet.
    pub fn function(&self, dtype: DataTypeEnum) -> (r: String)
        ensures
            r@ == spec_function_decl(self@, dtype),
    {
        let mut s = String::new();
        s.append("fn unary_");
        push_decimal(&mut s, self.name_id);
        s.append("(input: ");
        s.append(wgsl_dtype(dtype));
        s.append(") -> ");
        s.append(wgsl_dtype(dtype));
        s.append(" {\n    var data = input;\n    ");
        s.append(self.operation.as_str());
        s.append("\n    return data;\n}\n");
        proof {
            assert(s@ =~= spec_function_decl(self@, dtype));
        }
        s
    }
}

/// The views of a sequence of elementwise functions.
pub open spec fn spec_views(s: Seq<ElementWiseFunction>) -> Seq<ElementWiseFunctionModel> {
    s.map_values(|f: ElementWiseFunction| f@)
}

/// The helper declarations of `fns[i..]`, in order.
pub open spec fn spec_function_decls(
    fns: Seq<ElementWiseFunctionModel>,
    d: DataTypeEnum,
    i: int,
) -> Seq<char>
    decreases fns.len() - i,
{
    if 0 <= i < fns.len() {
        spec_function_decl(fns[i], d) + spec_function_decls(fns, d, i + 1)
    } else {
        Seq::empty()
    }
}

/// The snippets of `fns[..i]` emitted in reverse order, each followed by a
/// newline: the nearest-to-root function comes last.
pub open spec fn spec_rev_bodies(fns: Seq<ElementWiseFunctionModel>, i: int) -> Seq<char>
    decreases i,
{
    if 0 < i <= fns.len() {
        fns[i - 1].operation + "\n"@ + spec_rev_bodies(fns, i - 1)
    } else {
        Seq::empty()
    }
}

/// The nested helper calls `unary_<id_i>( ... unary_<id_last>(data) ... )`:
/// the first (nearest-to-root) function ends up outermost, so it is applied
/// last.
pub open spec fn spec_call_chain(fns: Seq<ElementWiseFunctionModel>, i: int) -> Seq<char>
    decreases fns.len() - i,
{
    if 0 <= i < fns.len() {
        spec_call(fns[i], spec_call_chain(fns, i + 1))
    } else {
        "data"@
    }
}

/// The in-body application of the fused chain: inline emission concatenates
/// the snippets in reverse collection order (earliest producer first);
/// call-style emission assigns the nested helper calls to `data`.
pub open spec fn spec_modify_data(fns: Seq<ElementWiseFunctionModel>, inline: bool) -> Seq<char> {
    if inline {
        spec_rev_bodies(fns, fns.len() as int)
    } else {
        "data = "@ + spec_call_chain(fns, 0) + ";\n"@
    }
}

/// The helper declarations, or nothing in inline mode.
pub open spec fn spec_add_functions(
    fns: Seq<ElementWiseFunctionModel>,
    d: DataTypeEnum,
    inline: bool,
) -> Seq<char> {
    if inline {
        Seq::empty()
    } else {
        spec_function_decls(fns, d, 0)
    }
}

/// The optional datatype-feature pragma.
pub open spec fn spec_enable(d: DataTypeEnum) -> Seq<char> {
    if d == DataTypeEnum::F16 {
        "enable f16;\n"@
    } else {
        Seq::empty()
    }
}

/// The layout-uniform struct declaration for the given rank.
pub open spec fn spec_layout_struct(rank: int) -> Seq<char> {
    if rank == 1 {
        "struct TensorLayout {\n    offset: u32,\n    shape_0: u32,\n    stride_0: u32,\n}\n"@
    } else if rank == 2 {
        "struct TensorLayout {\n    offset: u32,\n    shape_0: u32,\n    shape_1: u32,\n    stride_0: u32,\n    stride_1: u32,\n}\n"@
    } else {
        "struct TensorLayout {\n    offset: u32,\n    shape_0: u32,\n    shape_1: u32,\n    shape_2: u32,\n    stride_0: u32,\n    stride_1: u32,\n    stride_2: u32,\n}\n"@
    }
}

/// The two resource bindings at group 0: the layout uniform and the
/// read-write storage buffer.
pub open spec fn spec_bindings(d: DataTypeEnum) -> Seq<char> {
    "@group(0) @binding(0) var<uniform> tensor_layout: TensorLayout;\n@group(0) @binding(1) var<storage, read_write> tensor: array<"@
        + spec_dtype_name(d) + ">;\n"@
}

/// The compile-time constants `BLOCKSIZE` and `TILE_SIZE`.
pub open spec fn spec_consts(blocksize: int) -> Seq<char> {
    "const BLOCKSIZE: u32 = "@ + spec_decimal(blocksize) + "u;\nconst TILE_SIZE: u32 = "@
        + spec_decimal(TILE_SIZE as int) + "u;\n"@
}

/// The compute entry point header: one `BLOCKSIZE` per grid axis on the
/// strided path, a single axis on the dense path.
pub open spec fn spec_workgroup(contiguous: bool, rank: int) -> Seq<char> {
    "\n@compute @workgroup_size("@ + (if contiguous || rank == 1 {
        "BLOCKSIZE"@
    } else if rank == 2 {
        "BLOCKSIZE, BLOCKSIZE"@
    } else {
        "BLOCKSIZE, BLOCKSIZE, BLOCKSIZE"@
    }) + ")\nfn main(@builtin(global_invocation_id) global_id: vec3<u32>) {\n"@
}

/// The product of the layout-uniform dimensions, as shader source.
pub open spec fn spec_shape_product_expr(rank: int) -> Seq<char> {
    if rank == 1 {
        "tensor_layout.shape_0"@
    } else if rank == 2 {
        "tensor_layout.shape_0 * tensor_layout.shape_1"@
    } else {
        "tensor_layout.shape_0 * tensor_layout.shape_1 * tensor_layout.shape_2"@
    }
}

/// The dense path: each invocation walks `TILE_SIZE` consecutive linear
/// indices, bound-checked against the element count.
pub open spec fn spec_dense_body(
    fns: Seq<ElementWiseFunctionModel>,
    inline: bool,
    rank: int,
) -> Seq<char> {
    "    for (var k = 0u; k < TILE_SIZE; k++) {\n        let index = global_id.x * TILE_SIZE + k;\n        if index < "@
        + spec_shape_product_expr(rank)
        + " {\n            var data = tensor[index];\n"@
        + spec_modify_data(fns, inline)
        + "            tensor[index] = data;\n        }\n    }\n"@
}

/// The strided path's prologue: per-axis tile origins, the nested tile
/// loops, per-axis bound checks and the strided index computation.
pub open spec fn spec_strided_open(rank: int) -> Seq<char> {
    if rank == 1 {
        "    let tile_index_0 = global_id.x * TILE_SIZE;\n    for (var local_index_0 = 0u; local_index_0 < TILE_SIZE; local_index_0++) {\n        let merged_index_0 = tile_index_0 + local_index_0;\n        if merged_index_0 < tensor_layout.shape_0 && true {\n            let index = tensor_layout.offset + tensor_layout.stride_0 * merged_index_0 + 0u;\n"@
    } else if rank == 2 {
        "    let tile_index_0 = global_id.x * TILE_SIZE;\n    let tile_index_1 = global_id.y * TILE_SIZE;\n    for (var local_index_0 = 0u; local_index_0 < TILE_SIZE; local_index_0++) {\n    for (var local_index_1 = 0u; local_index_1 < TILE_SIZE; local_index_1++) {\n        let merged_index_0 = tile_index_0 + local_index_0;\n        let merged_index_1 = tile_index_1 + local_index_1;\n        if merged_index_0 < tensor_layout.shape_0 && merged_index_1 < tensor_layout.shape_1 && true {\n            let index = tensor_layout.offset + tensor_layout.stride_0 * merged_index_0 + tensor_layout.stride_1 * merged_index_1 + 0u;\n"@
    } else {
        "    let tile_index_0 = global_id.x * TILE_SIZE;\n    let tile_index_1 = global_id.y * TILE_SIZE;\n    let tile_index_2 = global_id.z * TILE_SIZE;\n    for (var local_index_0 = 0u; local_index_0 < TILE_SIZE; local_index_0++) {\n    for (var local_index_1 = 0u; local_index_1 < TILE_SIZE; local_index_1++) {\n    for (var local_index_2 = 0u; local_index_2 < TILE_SIZE; local_index_2++) {\n        let merged_index_0 = tile_index_0 + local_index_0;\n        let merged_index_1 = tile_index_1 + local_index_1;\n        let merged_index_2 = tile_index_2 + local_index_2;\n        if merged_index_0 < tensor_layout.shape_0 && merged_index_1 < tensor_layout.shape_1 && merged_index_2 < tensor_layout.shape_2 && true {\n            let index = tensor_layout.offset + tensor_layout.stride_0 * merged_index_0 + tensor_layout.stride_1 * merged_index_1 + tensor_layout.stride_2 * merged_index_2 + 0u;\n"@
    }
}

/// The strided path's epilogue: the bound-check close and one close per
/// tile loop.
pub open spec fn spec_strided_close(rank: int) -> Seq<char> {
    if rank == 1 {
        "        }\n    }\n"@
    } else if rank == 2 {
        "        }\n    }\n    }\n"@
    } else {
        "        }\n    }\n    }\n    }\n"@
    }
}

/// The strided path: nested tile loops with per-axis bound checks and
/// strided addressing.
pub open spec fn spec_strided_body(
    fns: Seq<ElementWiseFunctionModel>,
    inline: bool,
    rank: int,
) -> Seq<char> {
    spec_strided_open(rank) + "            var data = tensor[index];\n"@ + spec_modify_data(
        fns,
        inline,
    ) + "            tensor[index] = data;\n"@ + spec_strided_close(rank)
}

/// The full elementwise shader module for the given chain, datatype,
/// workgroup size, emission mode, contiguity and rank.
pub open spec fn spec_tiled_map(
    fns: Seq<ElementWiseFunctionModel>,
    d: DataTypeEnum,
    blocksize: int,
    inline: bool,
    contiguous: bool,
    rank: int,
) -> Seq<char> {
    spec_enable(d) + spec_layout_struct(rank) + spec_bindings(d) + spec_consts(blocksize)
        + spec_add_functions(fns, d, inline) + spec_workgroup(contiguous, rank) + (if contiguous {
        spec_dense_body(fns, inline, rank)
    } else {
        spec_strided_body(fns, inline, rank)
    }) + "}\n"@
}

/// Appends the helper declarations of `functions[i..]`.
fn emit_function_decls(
    functions: &Vec<ElementWiseFunction>,
    d: DataTypeEnum,
    i: usize,
    out: &mut String,
)
    requires
        i <= functions@.len(),
    ensures
        final(out)@ == old(out)@ + spec_function_decls(spec_views(functions@), d, i as int),
    decreases functions@.len() - i,
{
    if i < functions.len() {
        let decl = functions[i].function(d);
        out.append(decl.as_str());
        emit_function_decls(functions, d, i + 1, out);
        proof {
            assert(out@ =~= old(out)@ + spec_function_decls(spec_views(functions@), d, i as int));
        }
    } else {
        proof {
            assert(out@ =~= old(out)@ + spec_function_decls(spec_views(functions@), d, i as int));
        }
    }
}

/// Appends the snippets of `functions[..i]` in reverse order.
fn emit_rev_bodies(functions: &Vec<ElementWiseFunction>, i: usize, out: &mut String)
    requires
        i <= functions@.len(),
    ensures
        final(out)@ == old(out)@ + spec_rev_bodies(spec_views(functions@), i as int),
    decreases i,
{
    if i > 0 {
        out.append(functions[i - 1].operation());
        out.append("\n");
        emit_rev_bodies(functions, i - 1, out);
        proof {
            assert(out@ =~= old(out)@ + spec_rev_bodies(spec_views(functions@), i as int));
        }
    } else {
        proof {
            assert(out@ =~= old(out)@ + spec_rev_bodies(spec_views(functions@), i as int));
        }
    }
}

/// A copy of a chain of elementwise functions.
pub fn clone_functions(functions: &Vec<ElementWiseFunction>) -> (r: Vec<ElementWiseFunction>)
    ensures
        spec_views(r@) =~= spec_views(functions@),
{
    let mut r: Vec<ElementWiseFunction> = Vec::new();
    let mut i: usize = 0;
    while i < functions.len()
        invariant
            0 <= i <= functions@.len(),
            r@.len() == i,
            forall|j: int| 0 <= j < i ==> #[trigger] r@[j]@ == functions@[j]@,
        decreases functions@.len() - i,
    {
        r.push(functions[i].clone());
        i += 1;
    }
    proof {
        assert(spec_views(r@) =~= spec_views(functions@));
    }
    r
}

/// The nested helper calls over `functions[i..]`, innermost `data`.
fn call_chain(functions: &Vec<ElementWiseFunction>, i: usize) -> (r: String)
    requires
        i <= functions@.len(),
    ensures
        r@ == spec_call_chain(spec_views(functions@), i as int),
    decreases functions@.len() - i,
{
    if i < functions.len() {
        let inner = call_chain(functions, i + 1);
        functions[i].call(inner.as_str())
    } else {
        let mut s = String::new();
        s.append("data");
        proof {
            assert(s@ =~= "data"@);
        }
        s
    }
}

/// The mathematical value of an [`UntypedElementWiseKernel`].
#[verifier::ext_equal]
pub ghost struct KernelModel {
    pub functions: Seq<ElementWiseFunctionModel>,
    pub dense_kernel: Option<Seq<char>>,
    pub sparse_kernel: Option<Seq<char>>,
    pub datatype: DataTypeEnum,
}

/// A fused chain of elementwise functions over one datatype, with two
/// write-once slots caching the emitted shader source: one for the dense
/// path and one for the strided path.
pub struct UntypedElementWiseKernel {
    functions: Vec<ElementWiseFunction>,
    dense_kernel: Option<String>,
    sparse_kernel: Option<String>,
    datatype: DataTypeEnum,
}

impl View for UntypedElementWiseKernel {
    type V = KernelModel;

    closed spec fn view(&self) -> KernelModel {
        KernelModel {
            functions: spec_views(self.functions@),
            dense_kernel: match self.dense_kernel {
                Option::Some(s) => Option::Some(s@),
                Option::None => Option::None,
            },
            sparse_kernel: match self.sparse_kernel {
                Option::Some(s) => Option::Some(s@),
                Option::None => Option::None,
            },
            datatype: self.datatype,
        }
    }
}

impl UntypedElementWiseKernel {
    /// A kernel over `functions`, nearest-to-root first, with empty cache
    /// slots.
    pub fn new(functions: Vec<ElementWiseFunction>, datatype: DataTypeEnum) -> (r: Self)
        ensures
            r@ == (KernelModel {
                functions: spec_views(functions@),
                dense_kernel: Option::None,
                sparse_kernel: Option::None,
                datatype,
            }),
    {
        UntypedElementWiseKernel {
            functions,
            dense_kernel: Option::None,
            sparse_kernel: Option::None,
            datatype,
        }
    }

    /// A kernel with no functions: running it is a no-op.
    pub fn empty(datatype: DataTypeEnum) -> (r: Self)
        ensures
            r@ == (KernelModel {
                functions: Seq::empty(),
                dense_kernel: Option::None,
                sparse_kernel: Option::None,
                datatype,
            }),
    {
        let r = UntypedElementWiseKernel {
            functions: Vec::new(),
            dense_kernel: Option::None,
            sparse_kernel: Option::None,
            datatype,
        };
        proof {
            assert(spec_views(r.functions@) =~= Seq::<ElementWiseFunctionModel>::empty());
        }
        r
    }

    /// Whether the kernel holds no functions.
    pub fn is_empty(&self) -> (r: bool)
        ensures
            r == (self@.functions.len() == 0),
    {
        self.functions.is_empty()
    }

    /// The datatype the fused chain maps to; the functions here keep their
    /// input datatype.
    pub fn out_datatype(&self) -> (r: DataTypeEnum)
        ensures
            r == self@.datatype,
    {
        self.datatype
    }

    /// The functions of the fused chain, nearest-to-root first.
    pub fn functions(&self) -> (r: &Vec<ElementWiseFunction>)
        ensures
            spec_views(r@) == self@.functions,
    {
        &self.functions
    }

    /// The cached dense-path shader source, if one was emitted.
    pub fn dense_kernel(&self) -> (r: &Option<String>)
        ensures
            match r {
                Option::Some(s) => self@.dense_kernel == Option::Some(s@),
                Option::None => self@.dense_kernel is None,
            },
    {
        &self.dense_kernel
    }

    /// The cached strided-path shader source, if one was emitted.
    pub fn sparse_kernel(&self) -> (r: &Option<String>)
        ensures
            match r {
                Option::Some(s) => self@.sparse_kernel == Option::Some(s@),
                Option::None => self@.sparse_kernel is None,
            },
    {
        &self.sparse_kernel
    }

    /// Appends the in-body application of the fused chain to `kernel`.
    pub fn modify_data(&self, inline: bool, kernel: &mut String)
        ensures
            final(kernel)@ == old(kernel)@ + spec_modify_data(self@.functions, inline),
    {
        if inline {
            emit_rev_bodies(&self.functions, self.functions.len(), kernel);
        } else {
            kernel.append("data = ");
            let c = call_chain(&self.functions, 0);
            kernel.append(c.as_str());
            kernel.append(";\n");
            proof {
                assert(kernel@ =~= old(kernel)@ + spec_modify_data(self@.functions, false));
            }
        }
    }

    /// Appends the helper declarations, one per function, in call-style
    /// emission; inline emission needs none.
    pub fn add_functions(&self, inline: bool, kernel: &mut String)
        ensures
            final(kernel)@ == old(kernel)@ + spec_add_functions(self@.functions, self@.datatype, inline),
    {
        if !inline {
            emit_function_decls(&self.functions, self.datatype, 0, kernel);
        } else {
            proof {
                assert(kernel@ =~= old(kernel)@ + spec_add_functions(
                    self@.functions,
                    self@.datatype,
                    true,
                ));
            }
        }
    }

    /// Emits the complete shader module for this chain, specialized to the
    /// workgroup size, emission mode, contiguity and the layout's rank.
    #[verifier::rlimit(100)]
    pub fn tiled_map(&self, blocksize: u32, inline: bool, contiguous: bool, layout: &Layout) -> (r:
        String)
        requires
            1 <= layout@.rank() <= 3,
        ensures
            r@ == spec_tiled_map(
                self@.functions,
                self@.datatype,
                blocksize as int,
                inline,
                contiguous,
                layout@.rank(),
            ),
    {
        let rank = layout.rank();
        let d = self.datatype;
        let ghost fns = self@.functions;
        let mut kernel = String::new();
        if matches!(d, DataTypeEnum::F16) {
            kernel.append("enable f16;\n");
        }
        proof {
            assert(kernel@ =~= spec_enable(d));
        }
        let ghost c1 = spec_enable(d) + spec_layout_struct(rank as int);
        if rank == 1 {
            kernel.append(
                "struct TensorLayout {\n    offset: u32,\n    shape_0: u32,\n    stride_0: u32,\n}\n",
            );
        } else if rank == 2 {
            kernel.append(
                "struct TensorLayout {\n    offset: u32,\n    shape_0: u32,\n    shape_1: u32,\n    stride_0: u32,\n    stride_1: u32,\n}\n",
            );
        } else {
            kernel.append(
                "struct TensorLayout {\n    offset: u32,\n    shape_0: u32,\n    shape_1: u32,\n    shape_2: u32,\n    stride_0: u32,\n    stride_1: u32,\n    stride_2: u32,\n}\n",
            );
        }
        proof {
            assert(kernel@ =~= c1);
        }
        let ghost c2 = c1 + spec_bindings(d);
        kernel.append(
            "@group(0) @binding(0) var<uniform> tensor_layout: TensorLayout;\n@group(0) @binding(1) var<storage, read_write> tensor: array<",
        );
        kernel.append(wgsl_dtype(d));
        kernel.append(">;\n");
        proof {
            assert(kernel@ =~= c2);
        }
        let ghost c3 = c2 + spec_consts(blocksize as int);
        kernel.append("const BLOCKSIZE: u32 = ");
        push_decimal(&mut kernel, blocksize as u64);
        kernel.append("u;\nconst TILE_SIZE: u32 = ");
        push_decimal(&mut kernel, TILE_SIZE as u64);
        kernel.append("u;\n");
        proof {
            assert(kernel@ =~= c3);
        }
        let ghost c4 = c3 + spec_add_functions(fns, d, inline);
        self.add_functions(inline, &mut kernel);
        proof {
            assert(kernel@ =~= c4);
        }
        let ghost c5 = c4 + spec_workgroup(contiguous, rank as int);
        kernel.append("\n@compute @workgroup_size(");
        if contiguous || rank == 1 {
            kernel.append("BLOCKSIZE");
        } else if rank == 2 {
            kernel.append("BLOCKSIZE, BLOCKSIZE");
        } else {
            kernel.append("BLOCKSIZE, BLOCKSIZE, BLOCKSIZE");
        }
        kernel.append(")\nfn main(@builtin(global_invocation_id) global_id: vec3<u32>) {\n");
        proof {
            assert(kernel@ =~= c5);
        }
        if contiguous {
            let ghost c6 = c5 + spec_dense_body(fns, inline, rank as int);
            kernel.append(
                "    for (var k = 0u; k < TILE_SIZE; k++) {\n        let index = global_id.x * TILE_SIZE + k;\n        if index < ",
            );
            if rank == 1 {
                kernel.append("tensor_layout.shape_0");
            } else if rank == 2 {
                kernel.append("tensor_layout.shape_0 * tensor_layout.shape_1");
            } else {
                kernel.append(
                    "tensor_layout.shape_0 * tensor_layout.shape_1 * tensor_layout.shape_2",
                );
            }
            kernel.append(" {\n            var data = tensor[index];\n");
            self.modify_data(inline, &mut kernel);
            kernel.append("            tensor[index] = data;\n        }\n    }\n");
            proof {
                assert(kernel@ =~= c6);
            }
        } else {
            let ghost c6 = c5 + spec_strided_body(fns, inline, rank as int);
            if rank == 1 {
                kernel.append(
                    "    let tile_index_0 = global_id.x * TILE_SIZE;\n    for (var local_index_0 = 0u; local_index_0 < TILE_SIZE; local_index_0++) {\n        let merged_index_0 = tile_index_0 + local_index_0;\n        if merged_index_0 < tensor_layout.shape_0 && true {\n            let index = tensor_layout.offset + tensor_layout.stride_0 * merged_index_0 + 0u;\n",
                );
            } else if rank == 2 {
                kernel.append(
                    "    let tile_index_0 = global_id.x * TILE_SIZE;\n    let tile_index_1 = global_id.y * TILE_SIZE;\n    for (var local_index_0 = 0u; local_index_0 < TILE_SIZE; local_index_0++) {\n    for (var local_index_1 = 0u; local_index_1 < TILE_SIZE; local_index_1++) {\n        let merged_index_0 = tile_index_0 + local_index_0;\n        let merged_index_1 = tile_index_1 + local_index_1;\n        if merged_index_0 < tensor_layout.shape_0 && merged_index_1 < tensor_layout.shape_1 && true {\n            let index = tensor_layout.offset + tensor_layout.stride_0 * merged_index_0 + tensor_layout.stride_1 * merged_index_1 + 0u;\n",
                );
            } else {
                kernel.append(
                    "    let tile_index_0 = global_id.x * TILE_SIZE;\n    let tile_index_1 = global_id.y * TILE_SIZE;\n    let tile_index_2 = global_id.z * TILE_SIZE;\n    for (var local_index_0 = 0u; local_index_0 < TILE_SIZE; local_index_0++) {\n    for (var local_index_1 = 0u; local_index_1 < TILE_SIZE; local_index_1++) {\n    for (var local_index_2 = 0u; local_index_2 < TILE_SIZE; local_index_2++) {\n        let merged_index_0 = tile_index_0 + local_index_0;\n        let merged_index_1 = tile_index_1 + local_index_1;\n        let merged_index_2 = tile_index_2 + local_index_2;\n        if merged_index_0 < tensor_layout.shape_0 && merged_index_1 < tensor_layout.shape_1 && merged_index_2 < tensor_layout.shape_2 && true {\n            let index = tensor_layout.offset + tensor_layout.stride_0 * merged_index_0 + tensor_layout.stride_1 * merged_index_1 + tensor_layout.stride_2 * merged_index_2 + 0u;\n",
                );
            }
            kernel.append("            var data = tensor[index];\n");
            self.modify_data(inline, &mut kernel);
            kernel.append("            tensor[index] = data;\n");
            if rank == 1 {
                kernel.append("        }\n    }\n");
            } else if rank == 2 {
                kernel.append("        }\n    }\n    }\n");
            } else {
                kernel.append("        }\n    }\n    }\n    }\n");
            }
            proof {
                assert(kernel@ =~= c6);
            }
        }
        kernel.append("}\n");
        proof {
            assert(kernel@ =~= spec_tiled_map(
                fns,
                d,
                blocksize as int,
                inline,
                contiguous,
                rank as int,
            ));
        }
        kernel
    }

    /// Runs the fused chain over `tensor`, recording one in-place
    /// elementwise pass.  An empty chain is a no-op: nothing is recorded
    /// and `None` says the caller keeps its input.  The emitted source is
    /// cached per path, so the dense slot fills exactly on contiguous
    /// input and the strided slot exactly on non-contiguous input.
    pub fn run(&mut self, tensor: &TensorData, rec: &mut CommandRecorder) -> (r: Option<
        TensorData,
    >)
        requires
            tensor@.layout.wf(),
        ensures
            final(self)@.functions == old(self)@.functions,
            final(self)@.datatype == old(self)@.datatype,
            old(self)@.functions.len() == 0 ==> {
                &&& r is None
                &&& final(self)@ == old(self)@
                &&& final(rec)@ == old(rec)@
            },
            old(self)@.functions.len() > 0 ==> {
                let contiguous = tensor@.layout.is_contiguous();
                let fresh = spec_tiled_map(
                    old(self)@.functions,
                    old(self)@.datatype,
                    spec_blocksize(contiguous, tensor@.layout.rank()),
                    true,
                    contiguous,
                    tensor@.layout.rank(),
                );
                let src = if contiguous {
                    match old(self)@.dense_kernel {
                        Option::Some(s) => s,
                        Option::None => fresh,
                    }
                } else {
                    match old(self)@.sparse_kernel {
                        Option::Some(s) => s,
                        Option::None => fresh,
                    }
                };
                &&& (match r {
                    Option::Some(t) => t@ == tensor@,
                    Option::None => false,
                })
                &&& final(rec)@.passes =~= old(rec)@.passes.push(
                    PassModel::ElementWise(
                        ElementWisePassModel {
                            functions: old(self)@.functions,
                            source: src,
                            dense: contiguous,
                            grid: spec_grid(tensor@.layout),
                            uniform: spec_layout_uniform(tensor@.layout),
                            tensor: tensor@,
                        },
                    ),
                )
                &&& final(rec)@.next_buffer == old(rec)@.next_buffer
                &&& (contiguous ==> final(self)@.dense_kernel == Option::Some(src)
                    && final(self)@.sparse_kernel == old(self)@.sparse_kernel)
                &&& (!contiguous ==> final(self)@.sparse_kernel == Option::Some(src)
                    && final(self)@.dense_kernel == old(self)@.dense_kernel)
            },
    {
        if self.functions.is_empty() {
            return Option::None;
        }
        let contiguous = tensor.layout.is_contiguous();
        let rank = tensor.layout.rank();
        let blocksize: u32 = if contiguous || rank == 1 {
            256
        } else if rank == 2 {
            16
        } else {
            6
        };
        let source: String;
        if contiguous {
            match &self.dense_kernel {
                Option::Some(s) => {
                    source = s.clone();
                },
                Option::None => {
                    let s = self.tiled_map(blocksize, true, contiguous, &tensor.layout);
                    source = s.clone();
                    self.dense_kernel = Option::Some(s);
                },
            }
        } else {
            match &self.sparse_kernel {
                Option::Some(s) => {
                    source = s.clone();
                },
                Option::None => {
                    let s = self.tiled_map(blocksize, true, contiguous, &tensor.layout);
                    source = s.clone();
                    self.sparse_kernel = Option::Some(s);
                },
            }
        }
        let grid = compute_grid(&tensor.layout, contiguous);
        let uniform = layout_uniform(&tensor.layout);
        let functions = clone_functions(&self.functions);
        let pass = ElementWisePass {
            functions,
            source,
            dense: contiguous,
            grid,
            uniform,
            tensor: tensor.clone(),
        };
        rec.record(PlannedPass::ElementWise(pass));
        Option::Some(tensor.clone())
    }
}

} // verus!
