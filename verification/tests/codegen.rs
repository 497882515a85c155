//! Exact-text tests of the elementwise shader emitter of `tensor_fuse`.

use tensor_fuse::element_wise::{ElementWiseFunction, UntypedElementWiseKernel};
use tensor_fuse::layout::Layout;
use tensor_fuse::DataTypeEnum;

#[test]
fn helper_call_wraps_data() {
    let f = ElementWiseFunction::new(7, "data = exp(data);");
    assert_eq!(f.call("data"), "unary_7(data)");
    let g = ElementWiseFunction::new(12, "data = abs(data);");
    assert_eq!(g.call(&f.call("data")), "unary_12(unary_7(data))");
}

#[test]
fn helper_declaration_text() {
    let f = ElementWiseFunction::new(3, "data = sqrt(data);");
    assert_eq!(
        f.function(DataTypeEnum::F32),
        "fn unary_3(input: f32) -> f32 {\n    var data = input;\n    data = sqrt(data);\n    return data;\n}\n"
    );
}

#[test]
fn function_name_defaults() {
    let f = ElementWiseFunction::new(0, "data = exp(data);");
    assert_eq!(f.name(), "element_wise");
    let f = f.with_name("exp");
    assert_eq!(f.name(), "exp");
}

#[test]
fn dense_shader_source_exact() {
    let f = ElementWiseFunction::new(0, "data = exp(data);");
    let kernel = UntypedElementWiseKernel::new(vec![f], DataTypeEnum::F32);
    let layout = Layout {
        offset: 0,
        shape: vec![3, 2],
        strides: vec![2, 1],
    };
    let source = kernel.tiled_map(256, true, true, &layout);
    let expected = "struct TensorLayout {\n    offset: u32,\n    shape_0: u32,\n    shape_1: u32,\n    stride_0: u32,\n    stride_1: u32,\n}\n@group(0) @binding(0) var<uniform> tensor_layout: TensorLayout;\n@group(0) @binding(1) var<storage, read_write> tensor: array<f32>;\nconst BLOCKSIZE: u32 = 256u;\nconst TILE_SIZE: u32 = 8u;\n\n@compute @workgroup_size(BLOCKSIZE)\nfn main(@builtin(global_invocation_id) global_id: vec3<u32>) {\n    for (var k = 0u; k < TILE_SIZE; k++) {\n        let index = global_id.x * TILE_SIZE + k;\n        if index < tensor_layout.shape_0 * tensor_layout.shape_1 {\n            var data = tensor[index];\ndata = exp(data);\n            tensor[index] = data;\n        }\n    }\n}\n";
    assert_eq!(source, expected);
}

#[test]
fn strided_shader_source_exact() {
    let f = ElementWiseFunction::new(4, "data = data + 1.0;");
    let kernel = UntypedElementWiseKernel::new(vec![f], DataTypeEnum::F32);
    let layout = Layout {
        offset: 0,
        shape: vec![3],
        strides: vec![2],
    };
    let source = kernel.tiled_map(256, true, false, &layout);
    let expected = "struct TensorLayout {\n    offset: u32,\n    shape_0: u32,\n    stride_0: u32,\n}\n@group(0) @binding(0) var<uniform> tensor_layout: TensorLayout;\n@group(0) @binding(1) var<storage, read_write> tensor: array<f32>;\nconst BLOCKSIZE: u32 = 256u;\nconst TILE_SIZE: u32 = 8u;\n\n@compute @workgroup_size(BLOCKSIZE)\nfn main(@builtin(global_invocation_id) global_id: vec3<u32>) {\n    let tile_index_0 = global_id.x * TILE_SIZE;\n    for (var local_index_0 = 0u; local_index_0 < TILE_SIZE; local_index_0++) {\n        let merged_index_0 = tile_index_0 + local_index_0;\n        if merged_index_0 < tensor_layout.shape_0 && true {\n            let index = tensor_layout.offset + tensor_layout.stride_0 * merged_index_0 + 0u;\n            var data = tensor[index];\ndata = data + 1.0;\n            tensor[index] = data;\n        }\n    }\n}\n";
    assert_eq!(source, expected);
}

#[test]
fn f16_shader_enables_the_extension() {
    let f = ElementWiseFunction::new(0, "data = abs(data);");
    let kernel = UntypedElementWiseKernel::new(vec![f], DataTypeEnum::F16);
    let layout = Layout {
        offset: 0,
        shape: vec![4],
        strides: vec![1],
    };
    let source = kernel.tiled_map(256, true, true, &layout);
    assert!(source.starts_with("enable f16;\n"));
    assert!(source.contains("array<f16>"));
}

#[test]
fn call_style_emission_declares_each_helper_once() {
    let a = ElementWiseFunction::new(0, "data = exp(data);");
    let b = ElementWiseFunction::new(1, "data = log(data);");
    let kernel = UntypedElementWiseKernel::new(vec![a, b], DataTypeEnum::F32);
    let layout = Layout {
        offset: 0,
        shape: vec![4],
        strides: vec![1],
    };
    // Call-style emission: helper declarations plus nested calls.
    let source = kernel.tiled_map(256, false, true, &layout);
    assert_eq!(source.matches("fn unary_0(input: f32) -> f32 {").count(), 1);
    assert_eq!(source.matches("fn unary_1(input: f32) -> f32 {").count(), 1);
    // The nearest-to-root function is applied last (outermost).
    assert!(source.contains("data = unary_0(unary_1(data));"));
}

#[test]
fn inline_emission_applies_insertion_order() {
    // Collected nearest-to-root first: [mul, add].  Inline emission must
    // run the earliest producer (add) first.
    let mul = ElementWiseFunction::new(1, "data = data * 2.0;");
    let add = ElementWiseFunction::new(0, "data = data + 1.0;");
    let kernel = UntypedElementWiseKernel::new(vec![mul, add], DataTypeEnum::F32);
    let layout = Layout {
        offset: 0,
        shape: vec![4],
        strides: vec![1],
    };
    let source = kernel.tiled_map(256, true, true, &layout);
    let add_at = source.find("data = data + 1.0;").unwrap();
    let mul_at = source.find("data = data * 2.0;").unwrap();
    assert!(add_at < mul_at);
}

#[test]
fn decimal_ids_render_in_full() {
    let f = ElementWiseFunction::new(1234567890, "data = exp(data);");
    assert_eq!(f.call("data"), "unary_1234567890(data)");
    let zero = ElementWiseFunction::new(0, "data = exp(data);");
    assert_eq!(zero.call("data"), "unary_0(data)");
}
