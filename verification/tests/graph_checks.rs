//! Static-misuse detection at graph construction, the empty-kernel
//! degeneracy, and the shader-source caches of `tensor_fuse`.

use tensor_fuse::dispatch::CommandRecorder;
use tensor_fuse::element_wise::{ElementWiseFunction, UntypedElementWiseKernel};
use tensor_fuse::graph::{AnyComputeKey, ComputeGraph, PairWiseFunction, ReduceFunction};
use tensor_fuse::layout::{Layout, SliceRange};
use tensor_fuse::tensor::{Tensor, TensorData};
use tensor_fuse::{DataTypeEnum, GraphError};

fn leaf_with(
    graph: &mut ComputeGraph,
    buffer: u64,
    shape: Vec<usize>,
    strides: Vec<usize>,
    datatype: DataTypeEnum,
) -> AnyComputeKey {
    let layout = Layout {
        offset: 0,
        shape,
        strides,
    };
    let data = TensorData::new(buffer, layout, datatype);
    AnyComputeKey::TensorComputeNodeKey(graph.insert_tensor(data).unwrap())
}

#[test]
fn rank_four_leaf_is_rejected() {
    let layout = Layout {
        offset: 0,
        shape: vec![2, 2, 2, 2],
        strides: vec![8, 4, 2, 1],
    };
    let r = Tensor::new(TensorData::new(0, layout, DataTypeEnum::F32));
    assert!(matches!(r, Err(GraphError::RankUnsupported)));
}

#[test]
fn zero_dimension_is_rejected() {
    let layout = Layout {
        offset: 0,
        shape: vec![3, 0],
        strides: vec![0, 1],
    };
    let r = Tensor::new(TensorData::new(0, layout, DataTypeEnum::F32));
    assert!(matches!(r, Err(GraphError::RankUnsupported)));
}

#[test]
fn pair_wise_shape_mismatch() {
    let mut graph = ComputeGraph::new();
    let a = leaf_with(&mut graph, 0, vec![3, 2], vec![2, 1], DataTypeEnum::F32);
    let b = leaf_with(&mut graph, 1, vec![2, 3], vec![3, 1], DataTypeEnum::F32);
    let r = graph.insert_pair_wise(a, b, PairWiseFunction::new(0, "data = first + second;"));
    assert!(matches!(r, Err(GraphError::ShapeMismatch)));
}

#[test]
fn pair_wise_datatype_mismatch() {
    let mut graph = ComputeGraph::new();
    let a = leaf_with(&mut graph, 0, vec![3, 2], vec![2, 1], DataTypeEnum::F32);
    let b = leaf_with(&mut graph, 1, vec![3, 2], vec![2, 1], DataTypeEnum::U32);
    let r = graph.insert_pair_wise(a, b, PairWiseFunction::new(0, "data = first + second;"));
    assert!(matches!(r, Err(GraphError::DatatypeMismatch)));
}

#[test]
fn reduce_axis_out_of_bounds() {
    let mut graph = ComputeGraph::new();
    let a = leaf_with(&mut graph, 0, vec![3, 2], vec![2, 1], DataTypeEnum::F32);
    let r = graph.insert_reduce(a, 2, ReduceFunction::new(0, "merged = merged + data;"));
    assert!(matches!(r, Err(GraphError::AxisOutOfBounds)));
}

#[test]
fn reduce_removes_the_axis() {
    let mut graph = ComputeGraph::new();
    let a = leaf_with(&mut graph, 0, vec![3, 2], vec![2, 1], DataTypeEnum::F32);
    let r = graph
        .insert_reduce(a, 1, ReduceFunction::new(0, "merged = merged + data;"))
        .unwrap();
    let mut rec = CommandRecorder::new(1);
    let out = graph.resolve(AnyComputeKey::ReduceComputeNodeKey(r), &mut rec);
    assert_eq!(out.layout.shape, vec![3]);
    let mut graph2 = ComputeGraph::new();
    let b = leaf_with(&mut graph2, 0, vec![4], vec![1], DataTypeEnum::F32);
    let r2 = graph2
        .insert_reduce(b, 0, ReduceFunction::new(0, "merged = merged + data;"))
        .unwrap();
    let mut rec2 = CommandRecorder::new(1);
    let out2 = graph2.resolve(AnyComputeKey::ReduceComputeNodeKey(r2), &mut rec2);
    // Reducing a rank-1 tensor leaves a single element.
    assert_eq!(out2.layout.shape, vec![1]);
}

#[test]
fn map_layout_invalid_slices() {
    let mut graph = ComputeGraph::new();
    let a = leaf_with(&mut graph, 0, vec![3, 2], vec![2, 1], DataTypeEnum::F32);
    // Empty range.
    let r = graph.insert_map_layout(
        a,
        vec![
            SliceRange { start: 1, end: 1 },
            SliceRange { start: 0, end: 2 },
        ],
    );
    assert!(matches!(r, Err(GraphError::InvalidSlice)));
    // Out of bounds.
    let r = graph.insert_map_layout(
        a,
        vec![
            SliceRange { start: 0, end: 4 },
            SliceRange { start: 0, end: 2 },
        ],
    );
    assert!(matches!(r, Err(GraphError::InvalidSlice)));
    // Wrong arity.
    let r = graph.insert_map_layout(a, vec![SliceRange { start: 0, end: 3 }]);
    assert!(matches!(r, Err(GraphError::InvalidSlice)));
}

#[test]
fn mat_mul_checks() {
    let mut graph = ComputeGraph::new();
    let a = leaf_with(&mut graph, 0, vec![2, 3], vec![3, 1], DataTypeEnum::F32);
    let b = leaf_with(&mut graph, 1, vec![4, 2], vec![2, 1], DataTypeEnum::F32);
    let c = leaf_with(&mut graph, 2, vec![3], vec![1], DataTypeEnum::F32);
    let d = leaf_with(&mut graph, 3, vec![3, 4], vec![4, 1], DataTypeEnum::U32);
    assert!(matches!(
        graph.insert_mat_mul(a, b),
        Err(GraphError::ShapeMismatch)
    ));
    assert!(matches!(
        graph.insert_mat_mul(a, c),
        Err(GraphError::RankUnsupported)
    ));
    assert!(matches!(
        graph.insert_mat_mul(a, d),
        Err(GraphError::DatatypeMismatch)
    ));
}

#[test]
fn slice_assign_checks() {
    let mut graph = ComputeGraph::new();
    let target = leaf_with(&mut graph, 0, vec![3, 2], vec![2, 1], DataTypeEnum::F32);
    let value = leaf_with(&mut graph, 1, vec![2, 1], vec![1, 1], DataTypeEnum::F32);
    let wrong_shape = leaf_with(&mut graph, 2, vec![3, 1], vec![1, 1], DataTypeEnum::F32);
    let wrong_type = leaf_with(&mut graph, 3, vec![2, 1], vec![1, 1], DataTypeEnum::I32);
    let slices = vec![
        SliceRange { start: 0, end: 2 },
        SliceRange { start: 1, end: 2 },
    ];
    assert!(graph
        .insert_slice_assign(target, value, slices.clone())
        .is_ok());
    assert!(matches!(
        graph.insert_slice_assign(target, wrong_shape, slices.clone()),
        Err(GraphError::ShapeMismatch)
    ));
    assert!(matches!(
        graph.insert_slice_assign(target, wrong_type, slices.clone()),
        Err(GraphError::DatatypeMismatch)
    ));
    assert!(matches!(
        graph.insert_slice_assign(target, value, vec![SliceRange { start: 0, end: 2 }]),
        Err(GraphError::InvalidSlice)
    ));
}

#[test]
fn empty_kernel_is_a_no_op() {
    let mut kernel = UntypedElementWiseKernel::empty(DataTypeEnum::F32);
    assert!(kernel.is_empty());
    let layout = Layout {
        offset: 0,
        shape: vec![3, 2],
        strides: vec![2, 1],
    };
    let tensor = TensorData::new(0, layout, DataTypeEnum::F32);
    let mut rec = CommandRecorder::new(1);
    let r = kernel.run(&tensor, &mut rec);
    assert!(r.is_none());
    assert_eq!(rec.pass_count(), 0);
    assert!(kernel.dense_kernel().is_none());
    assert!(kernel.sparse_kernel().is_none());
}

#[test]
fn shader_cache_fills_per_path() {
    // Contiguous input populates the dense slot only; non-contiguous
    // input populates the strided slot only.
    let f = ElementWiseFunction::new(0, "data = exp(data);");
    let mut kernel = UntypedElementWiseKernel::new(vec![f], DataTypeEnum::F32);
    assert!(kernel.dense_kernel().is_none());
    assert!(kernel.sparse_kernel().is_none());
    let dense_tensor = TensorData::new(
        0,
        Layout {
            offset: 0,
            shape: vec![3, 2],
            strides: vec![2, 1],
        },
        DataTypeEnum::F32,
    );
    let mut rec = CommandRecorder::new(1);
    let r = kernel.run(&dense_tensor, &mut rec);
    assert!(r.is_some());
    assert!(kernel.dense_kernel().is_some());
    assert!(kernel.sparse_kernel().is_none());

    let strided_tensor = TensorData::new(
        0,
        Layout {
            offset: 0,
            shape: vec![3, 1],
            strides: vec![2, 1],
        },
        DataTypeEnum::F32,
    );
    let r = kernel.run(&strided_tensor, &mut rec);
    assert!(r.is_some());
    assert!(kernel.sparse_kernel().is_some());
    assert_eq!(rec.pass_count(), 2);
}
