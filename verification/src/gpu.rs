//! The dispatch wrapper over the GPU API: packaging a generated
//! elementwise shader into a pipeline, binding the tensor buffer and the
//! layout uniform, and recording the compute pass with its workgroup
//! grid.
//!
//! Every call into the GPU API goes through a trusted wrapper; the
//! wrappers return opaque resources and promise nothing of them, so the
//! verified recording function only fixes the order of the recording
//! steps and the data handed to each.

use vstd::prelude::*;
use wgpu::util::DeviceExt;
use crate::dispatch::ElementWisePass;

verus! {

#[verifier::external_type_specification]
#[verifier::external_body]
pub struct ExDevice(wgpu::Device);

#[verifier::external_type_specification]
#[verifier::external_body]
pub struct ExCommandEncoder(wgpu::CommandEncoder);

#[verifier::external_type_specification]
#[verifier::external_body]
pub struct ExBuffer(wgpu::Buffer);

#[verifier::external_type_specification]
#[verifier::external_body]
pub struct ExShaderModule(wgpu::ShaderModule);

#[verifier::external_type_specification]
#[verifier::external_body]
pub struct ExBindGroupLayout(wgpu::BindGroupLayout);

#[verifier::external_type_specification]
#[verifier::external_body]
pub struct ExPipelineLayout(wgpu::PipelineLayout);

#[verifier::external_type_specification]
#[verifier::external_body]
pub struct ExComputePipeline(wgpu::ComputePipeline);

#[verifier::external_type_specification]
#[verifier::external_body]
pub struct ExBindGroup(wgpu::BindGroup);

#[verifier::external_type_specification]
#[verifier::external_body]
pub struct ExComputePass<'encoder>(wgpu::ComputePass<'encoder>);

/// Relies on wgpu's `Device::create_shader_module`: compiles the
/// shading-language source into an opaque module.
#[verifier::external_body]
fn make_shader_module(device: &wgpu::Device, source: &str) -> wgpu::ShaderModule {
    device.create_shader_module(wgpu::ShaderModuleDescriptor {
        label: None,
        source: wgpu::ShaderSource::Wgsl(std::borrow::Cow::Borrowed(source)),
    })
}

/// Relies on wgpu's `Device::create_bind_group_layout`: the two entries
/// at group 0 are the layout uniform and the read-write storage buffer.
#[verifier::external_body]
fn make_bind_group_layout(device: &wgpu::Device) -> wgpu::BindGroupLayout {
    let uniform = wgpu::BindingType::Buffer { ty: wgpu::BufferBindingType::Uniform, has_dynamic_offset: false, min_binding_size: None };
    let storage = wgpu::BindingType::Buffer { ty: wgpu::BufferBindingType::Storage { read_only: false }, has_dynamic_offset: false, min_binding_size: None };
    device.create_bind_group_layout(&wgpu::BindGroupLayoutDescriptor {
        label: None,
        entries: &[
            wgpu::BindGroupLayoutEntry { binding: 0, visibility: wgpu::ShaderStages::COMPUTE, ty: uniform, count: None },
            wgpu::BindGroupLayoutEntry { binding: 1, visibility: wgpu::ShaderStages::COMPUTE, ty: storage, count: None },
        ],
    })
}

/// Relies on wgpu's `Device::create_pipeline_layout` over the single bind
/// group layout.
#[verifier::external_body]
fn make_pipeline_layout(
    device: &wgpu::Device,
    bind_group_layout: &wgpu::BindGroupLayout,
) -> wgpu::PipelineLayout {
    device.create_pipeline_layout(&wgpu::PipelineLayoutDescriptor {
        label: None,
        bind_group_layouts: &[Some(bind_group_layout)],
        immediate_size: 0,
    })
}

/// Relies on wgpu's `Device::create_compute_pipeline`, bound to the
/// module's `main` entry point.
#[verifier::external_body]
fn make_compute_pipeline(
    device: &wgpu::Device,
    layout: &wgpu::PipelineLayout,
    module: &wgpu::ShaderModule,
) -> wgpu::ComputePipeline {
    device.create_compute_pipeline(&wgpu::ComputePipelineDescriptor {
        label: None,
        layout: Some(layout),
        module,
        entry_point: Some("main"),
        compilation_options: wgpu::PipelineCompilationOptions::default(),
        cache: None,
    })
}

/// Relies on wgpu's `DeviceExt::create_buffer_init` and bytemuck's
/// `cast_slice`: uploads the packed layout-uniform words into a uniform
/// buffer.
#[verifier::external_body]
fn make_uniform_buffer(device: &wgpu::Device, words: &Vec<u32>) -> wgpu::Buffer {
    device.create_buffer_init(&wgpu::util::BufferInitDescriptor {
        label: None,
        contents: bytemuck::cast_slice(words.as_slice()),
        usage: wgpu::BufferUsages::UNIFORM | wgpu::BufferUsages::COPY_DST,
    })
}

/// Relies on wgpu's `Device::create_bind_group`: binds the layout uniform
/// at 0 and the tensor's storage buffer at 1.
#[verifier::external_body]
fn make_bind_group(
    device: &wgpu::Device,
    layout: &wgpu::BindGroupLayout,
    uniform: &wgpu::Buffer,
    storage: &wgpu::Buffer,
) -> wgpu::BindGroup {
    device.create_bind_group(&wgpu::BindGroupDescriptor {
        label: None,
        layout,
        entries: &[
            wgpu::BindGroupEntry { binding: 0, resource: uniform.as_entire_binding() },
            wgpu::BindGroupEntry { binding: 1, resource: storage.as_entire_binding() },
        ],
    })
}

/// Relies on wgpu's `CommandEncoder::begin_compute_pass` without
/// timestamp writes.
#[verifier::external_body]
fn begin_pass<'encoder>(encoder: &'encoder mut wgpu::CommandEncoder) -> wgpu::ComputePass<
    'encoder,
> {
    encoder.begin_compute_pass(&wgpu::ComputePassDescriptor { label: None, timestamp_writes: None })
}

/// Relies on wgpu's `ComputePass::set_pipeline`.
#[verifier::external_body]
fn pass_set_pipeline(cpass: &mut wgpu::ComputePass<'_>, pipeline: &wgpu::ComputePipeline) {
    cpass.set_pipeline(pipeline)
}

/// Relies on wgpu's `ComputePass::set_bind_group` at group index 0 with
/// no dynamic offsets.
#[verifier::external_body]
fn pass_set_bind_group(cpass: &mut wgpu::ComputePass<'_>, bind_group: &wgpu::BindGroup) {
    cpass.set_bind_group(0, bind_group, &[])
}

/// Relies on wgpu's `ComputePass::dispatch_workgroups`.
#[verifier::external_body]
fn pass_dispatch(cpass: &mut wgpu::ComputePass<'_>, x: u32, y: u32, z: u32) {
    cpass.dispatch_workgroups(x, y, z)
}

/// Records one fused elementwise dispatch on `encoder`: builds the
/// pipeline from the pass's generated source, uploads its layout
/// uniform, binds it with `storage` (the buffer the pass's tensor id
/// names), and dispatches the pass's workgroup grid.  The pass ends when
/// the recording ends; the caller submits the encoder.
pub fn record_element_wise_pass(
    device: &wgpu::Device,
    encoder: &mut wgpu::CommandEncoder,
    storage: &wgpu::Buffer,
    pass: &ElementWisePass,
) {
    let module = make_shader_module(device, pass.source.as_str());
    let bind_group_layout = make_bind_group_layout(device);
    let pipeline_layout = make_pipeline_layout(device, &bind_group_layout);
    let pipeline = make_compute_pipeline(device, &pipeline_layout, &module);
    let uniform = make_uniform_buffer(device, &pass.uniform);
    let bind_group = make_bind_group(device, &bind_group_layout, &uniform, storage);
    let mut cpass = begin_pass(encoder);
    pass_set_pipeline(&mut cpass, &pipeline);
    pass_set_bind_group(&mut cpass, &bind_group);
    pass_dispatch(&mut cpass, pass.grid.x, pass.grid.y, pass.grid.z);
}

} // verus!
