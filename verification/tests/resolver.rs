//! Plan-level tests of the resolver: fusion, pass counts, grids and
//! layouts, checked against the graph surface of `tensor_fuse`.

use tensor_fuse::dispatch::{CommandRecorder, PlannedPass};
use tensor_fuse::element_wise::ElementWiseFunction;
use tensor_fuse::graph::{AnyComputeKey, ComputeGraph, PairWiseFunction, ReduceFunction};
use tensor_fuse::layout::{Layout, SliceRange};
use tensor_fuse::tensor::{Tensor, TensorData};
use tensor_fuse::DataTypeEnum;

fn leaf(graph: &mut ComputeGraph, buffer: u64, shape: Vec<usize>) -> AnyComputeKey {
    let strides = contiguous_strides(&shape);
    let layout = Layout {
        offset: 0,
        shape,
        strides,
    };
    let data = TensorData::new(buffer, layout, DataTypeEnum::F32);
    AnyComputeKey::TensorComputeNodeKey(graph.insert_tensor(data).unwrap())
}

fn contiguous_strides(shape: &[usize]) -> Vec<usize> {
    let mut strides = vec![0usize; shape.len()];
    let mut acc = 1usize;
    for i in (0..shape.len()).rev() {
        strides[i] = acc;
        acc *= shape[i];
    }
    strides
}

fn ew(graph: &mut ComputeGraph, input: AnyComputeKey, body: &str) -> AnyComputeKey {
    let id = graph.next_function_id();
    let f = ElementWiseFunction::new(id, body);
    AnyComputeKey::ElementWiseComputeNodeKey(graph.insert_element_wise(input, f))
}

#[test]
fn leaf_resolves_to_stored_tensor() {
    let mut graph = ComputeGraph::new();
    let key = leaf(&mut graph, 7, vec![3, 2]);
    let mut rec = CommandRecorder::new(100);
    let out = graph.resolve(key, &mut rec);
    assert_eq!(out.buffer, 7);
    assert_eq!(out.layout.shape, vec![3, 2]);
    assert_eq!(out.layout.strides, vec![2, 1]);
    assert_eq!(out.layout.offset, 0);
    assert_eq!(out.datatype, DataTypeEnum::F32);
    assert_eq!(rec.pass_count(), 0);
    assert_eq!(rec.next_buffer_id(), 100);
}

#[test]
fn chain_fuses_to_single_dispatch() {
    // Two chained elementwise operations must fuse to one pass.
    let mut graph = ComputeGraph::new();
    let l = leaf(&mut graph, 0, vec![3, 2]);
    let a = ew(&mut graph, l, "data = data + 1.0;");
    let b = ew(&mut graph, a, "data = data * 2.0;");
    let mut rec = CommandRecorder::new(10);
    let out = graph.resolve(b, &mut rec);
    assert_eq!(rec.pass_count(), 1);
    // The chain rewrites the leaf's buffer in place.
    assert_eq!(out.buffer, 0);
    match &rec.passes()[0] {
        PlannedPass::ElementWise(p) => {
            assert_eq!(p.functions.len(), 2);
            // Collected nearest-to-root first: the multiply sits on top.
            assert_eq!(p.functions[0].operation(), "data = data * 2.0;");
            assert_eq!(p.functions[1].operation(), "data = data + 1.0;");
            assert!(p.dense);
            assert_eq!(p.tensor.buffer, 0);
            // 6 elements, far below one workgroup's 8 * 256 elements.
            assert_eq!((p.grid.x, p.grid.y, p.grid.z), (1, 1, 1));
        }
        _ => panic!("expected an elementwise pass"),
    }
}

#[test]
fn rank3_elementwise_uniform_words() {
    let mut graph = ComputeGraph::new();
    let l = leaf(&mut graph, 0, vec![3, 2, 2]);
    let a = ew(&mut graph, l, "data = data + 1.0;");
    let mut rec = CommandRecorder::new(1);
    graph.resolve(a, &mut rec);
    assert_eq!(rec.pass_count(), 1);
    match &rec.passes()[0] {
        PlannedPass::ElementWise(p) => {
            // offset, shape, strides, zero-padded to a 16-byte multiple.
            assert_eq!(p.uniform, vec![0, 3, 2, 2, 4, 2, 1, 0]);
            assert!(p.dense);
        }
        _ => panic!("expected an elementwise pass"),
    }
}

#[test]
fn sliced_input_takes_strided_path() {
    // A layout-mapping node never emits a pass, and the elementwise
    // kernel over the non-contiguous view takes the strided path.
    let mut graph = ComputeGraph::new();
    let l = leaf(&mut graph, 0, vec![3, 2]);
    let sliced = AnyComputeKey::MapLayoutComputeNodeKey(
        graph
            .insert_map_layout(
                l,
                vec![
                    SliceRange { start: 0, end: 3 },
                    SliceRange { start: 0, end: 1 },
                ],
            )
            .unwrap(),
    );
    let a = ew(&mut graph, sliced, "data = data + 1.0;");
    let mut rec = CommandRecorder::new(1);
    let out = graph.resolve(a, &mut rec);
    assert_eq!(rec.pass_count(), 1);
    assert_eq!(out.layout.shape, vec![3, 1]);
    assert_eq!(out.layout.strides, vec![2, 1]);
    assert_eq!(out.layout.offset, 0);
    match &rec.passes()[0] {
        PlannedPass::ElementWise(p) => {
            assert!(!p.dense);
            assert_eq!(p.uniform, vec![0, 3, 1, 2, 1, 0, 0, 0]);
            // Strided rank-2 blocksize 16: each axis covers 8 * 16 = 128.
            assert_eq!((p.grid.x, p.grid.y, p.grid.z), (1, 1, 1));
        }
        _ => panic!("expected an elementwise pass"),
    }
}

#[test]
fn sliced_offset_moves_origin() {
    let mut graph = ComputeGraph::new();
    let l = leaf(&mut graph, 0, vec![3, 2]);
    let sliced = AnyComputeKey::MapLayoutComputeNodeKey(
        graph
            .insert_map_layout(
                l,
                vec![
                    SliceRange { start: 1, end: 3 },
                    SliceRange { start: 1, end: 2 },
                ],
            )
            .unwrap(),
    );
    let mut rec = CommandRecorder::new(1);
    let out = graph.resolve(sliced, &mut rec);
    // offset = 1 * stride_0 + 1 * stride_1 = 3; no pass recorded.
    assert_eq!(out.layout.offset, 3);
    assert_eq!(out.layout.shape, vec![2, 1]);
    assert_eq!(rec.pass_count(), 0);
}

#[test]
fn large_fill_is_one_dispatch() {
    let mut graph = ComputeGraph::new();
    let l = leaf(&mut graph, 0, vec![16_777_216]);
    let a = ew(&mut graph, l, "data = data + 1.0;");
    let mut rec = CommandRecorder::new(1);
    graph.resolve(a, &mut rec);
    assert_eq!(rec.pass_count(), 1);
    match &rec.passes()[0] {
        PlannedPass::ElementWise(p) => {
            assert!(p.dense);
            // 16_777_216 / (8 * 256) workgroups on x.
            assert_eq!((p.grid.x, p.grid.y, p.grid.z), (8192, 1, 1));
        }
        _ => panic!("expected an elementwise pass"),
    }
}

#[test]
fn reduce_fuses_pre_and_post_stages() {
    // sum(exp(x) + 1.0, axis = 0), then a tail operation above the
    // reduce: exactly one reduce dispatch, no standalone elementwise
    // dispatch.
    let mut graph = ComputeGraph::new();
    let l = leaf(&mut graph, 0, vec![3, 2]);
    let e = ew(&mut graph, l, "data = exp(data);");
    let p = ew(&mut graph, e, "data = data + 1.0;");
    let sum_id = graph.next_function_id();
    let r = AnyComputeKey::ReduceComputeNodeKey(
        graph
            .insert_reduce(p, 0, ReduceFunction::new(sum_id, "merged = merged + data;"))
            .unwrap(),
    );
    let t = ew(&mut graph, r, "data = data * 2.0;");
    let mut rec = CommandRecorder::new(50);
    let out = graph.resolve(t, &mut rec);
    assert_eq!(rec.pass_count(), 1);
    assert_eq!(out.buffer, 50);
    assert_eq!(out.layout.shape, vec![2]);
    match &rec.passes()[0] {
        PlannedPass::Reduce(rp) => {
            assert_eq!(rp.axis, 0);
            assert_eq!(rp.pre.len(), 2);
            assert_eq!(rp.pre[0].operation(), "data = data + 1.0;");
            assert_eq!(rp.pre[1].operation(), "data = exp(data);");
            assert_eq!(rp.post.len(), 1);
            assert_eq!(rp.post[0].operation(), "data = data * 2.0;");
            assert_eq!(rp.input.buffer, 0);
            assert_eq!(rp.output.buffer, 50);
        }
        _ => panic!("expected a reduce pass"),
    }
}

#[test]
fn pair_wise_fuses_three_chains() {
    let mut graph = ComputeGraph::new();
    let a = leaf(&mut graph, 0, vec![3, 2]);
    let b = leaf(&mut graph, 1, vec![3, 2]);
    let ea = ew(&mut graph, a, "data = exp(data);");
    let pw_id = graph.next_function_id();
    let pw = AnyComputeKey::PairWiseComputeNodeKey(
        graph
            .insert_pair_wise(ea, b, PairWiseFunction::new(pw_id, "data = first + second;"))
            .unwrap(),
    );
    let tail = ew(&mut graph, pw, "data = data * 2.0;");
    let mut rec = CommandRecorder::new(10);
    let out = graph.resolve(tail, &mut rec);
    assert_eq!(rec.pass_count(), 1);
    assert_eq!(out.buffer, 10);
    match &rec.passes()[0] {
        PlannedPass::PairWise(p) => {
            assert_eq!(p.pre_first.len(), 1);
            assert_eq!(p.pre_first[0].operation(), "data = exp(data);");
            assert_eq!(p.pre_second.len(), 0);
            assert_eq!(p.post.len(), 1);
            assert_eq!(p.post[0].operation(), "data = data * 2.0;");
            assert_eq!(p.first.buffer, 0);
            assert_eq!(p.second.buffer, 1);
            assert_eq!(p.output.buffer, 10);
        }
        _ => panic!("expected a pairwise pass"),
    }
}

#[test]
fn mat_mul_resolves_operands_left_then_right() {
    let mut graph = ComputeGraph::new();
    let a = leaf(&mut graph, 0, vec![2, 3]);
    let b = leaf(&mut graph, 1, vec![3, 4]);
    let ea = ew(&mut graph, a, "data = data + 1.0;");
    let eb = ew(&mut graph, b, "data = data + 2.0;");
    let mm = AnyComputeKey::MatMulComputeNodeKey(graph.insert_mat_mul(ea, eb).unwrap());
    let mut rec = CommandRecorder::new(20);
    let out = graph.resolve(mm, &mut rec);
    // Chains upstream of a matmul materialize on their own, left first.
    assert_eq!(rec.pass_count(), 3);
    assert!(matches!(rec.passes()[0], PlannedPass::ElementWise(_)));
    assert!(matches!(rec.passes()[1], PlannedPass::ElementWise(_)));
    match (&rec.passes()[0], &rec.passes()[1], &rec.passes()[2]) {
        (PlannedPass::ElementWise(p0), PlannedPass::ElementWise(p1), PlannedPass::MatMul(m)) => {
            assert_eq!(p0.tensor.buffer, 0);
            assert_eq!(p1.tensor.buffer, 1);
            assert_eq!(m.first.buffer, 0);
            assert_eq!(m.second.buffer, 1);
            assert_eq!(m.output.buffer, 20);
        }
        _ => panic!("expected elementwise, elementwise, matmul"),
    }
    assert_eq!(out.layout.shape, vec![2, 4]);
    assert_eq!(out.datatype, DataTypeEnum::F32);
}

#[test]
fn resize_does_not_absorb_upstream_chain() {
    let mut graph = ComputeGraph::new();
    let l = leaf(&mut graph, 0, vec![2, 2]);
    let e = ew(&mut graph, l, "data = data + 1.0;");
    let rz = AnyComputeKey::ResizeComputeNodeKey(
        graph.insert_resize(e, vec![4, 4], vec![2, 2]).unwrap(),
    );
    let mut rec = CommandRecorder::new(5);
    let out = graph.resolve(rz, &mut rec);
    assert_eq!(rec.pass_count(), 2);
    assert!(matches!(rec.passes()[0], PlannedPass::ElementWise(_)));
    match &rec.passes()[1] {
        PlannedPass::Resize(rp) => {
            assert_eq!(rp.new_shape, vec![4, 4]);
            assert_eq!(rp.fill_shape, vec![2, 2]);
            assert_eq!(rp.output.buffer, 5);
        }
        _ => panic!("expected a resize pass"),
    }
    assert_eq!(out.layout.shape, vec![4, 4]);
}

#[test]
fn slice_assign_returns_target_in_place() {
    let mut graph = ComputeGraph::new();
    let target = leaf(&mut graph, 0, vec![3, 2]);
    let value = leaf(&mut graph, 1, vec![2, 1]);
    let sa = AnyComputeKey::SliceAssignComputeNodeKey(
        graph
            .insert_slice_assign(
                target,
                value,
                vec![
                    SliceRange { start: 0, end: 2 },
                    SliceRange { start: 1, end: 2 },
                ],
            )
            .unwrap(),
    );
    let mut rec = CommandRecorder::new(9);
    let out = graph.resolve(sa, &mut rec);
    assert_eq!(rec.pass_count(), 1);
    assert_eq!(out.buffer, 0);
    assert_eq!(rec.next_buffer_id(), 9);
    match &rec.passes()[0] {
        PlannedPass::SliceAssign(p) => {
            assert_eq!(p.input.buffer, 0);
            assert_eq!(p.value.buffer, 1);
            assert_eq!(p.slices.len(), 2);
        }
        _ => panic!("expected a slice-assign pass"),
    }
}

#[test]
fn tensor_surface_builds_and_realizes() {
    let layout = Layout {
        offset: 0,
        shape: vec![3, 2],
        strides: vec![2, 1],
    };
    let t = Tensor::new(TensorData::new(4, layout, DataTypeEnum::F32)).unwrap();
    let t = t.exp();
    let t = t.log();
    let mut rec = CommandRecorder::new(30);
    let out = t.realize(&mut rec);
    assert_eq!(out.buffer, 4);
    assert_eq!(rec.pass_count(), 1);
    match &rec.passes()[0] {
        PlannedPass::ElementWise(p) => {
            assert_eq!(p.functions.len(), 2);
            assert_eq!(p.functions[0].name(), "log");
            assert_eq!(p.functions[0].operation(), "data = log(data);");
            assert_eq!(p.functions[1].name(), "exp");
            assert_eq!(p.functions[1].operation(), "data = exp(data);");
            // Fresh ids, allocated in insertion order.
            assert_ne!(p.functions[0].name_id(), p.functions[1].name_id());
        }
        _ => panic!("expected an elementwise pass"),
    }
}

#[test]
fn tensor_methods_name_their_operations() {
    let cases: Vec<(&str, &str)> = vec![
        ("exp", "data = exp(data);"),
        ("exp2", "data = exp2(data);"),
        ("log", "data = log(data);"),
        ("log2", "data = log2(data);"),
        ("sqrt", "data = sqrt(data);"),
        ("sin", "data = sin(data);"),
        ("cos", "data = cos(data);"),
        ("tan", "data = tan(data);"),
        ("asin", "data = asin(data);"),
        ("acos", "data = acos(data);"),
        ("atan", "data = atan(data);"),
        ("sinh", "data = sinh(data);"),
        ("cosh", "data = cosh(data);"),
        ("tanh", "data = tanh(data);"),
        ("asinh", "data = asinh(data);"),
        ("acosh", "data = acosh(data);"),
        ("atanh", "data = atanh(data);"),
        ("abs", "data = abs(data);"),
    ];
    for (name, body) in cases {
        let layout = Layout {
            offset: 0,
            shape: vec![2],
            strides: vec![1],
        };
        let t = Tensor::new(TensorData::new(0, layout, DataTypeEnum::F32)).unwrap();
        let t = match name {
            "exp" => t.exp(),
            "exp2" => t.exp2(),
            "log" => t.log(),
            "log2" => t.log2(),
            "sqrt" => t.sqrt(),
            "sin" => t.sin(),
            "cos" => t.cos(),
            "tan" => t.tan(),
            "asin" => t.asin(),
            "acos" => t.acos(),
            "atan" => t.atan(),
            "sinh" => t.sinh(),
            "cosh" => t.cosh(),
            "tanh" => t.tanh(),
            "asinh" => t.asinh(),
            "acosh" => t.acosh(),
            "atanh" => t.atanh(),
            "abs" => t.abs(),
            _ => unreachable!(),
        };
        let mut rec = CommandRecorder::new(1);
        t.realize(&mut rec);
        match &rec.passes()[0] {
            PlannedPass::ElementWise(p) => {
                assert_eq!(p.functions.len(), 1);
                assert_eq!(p.functions[0].name(), name);
                assert_eq!(p.functions[0].operation(), body);
            }
            _ => panic!("expected an elementwise pass"),
        }
    }
}
