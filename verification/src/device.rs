//! The boundary to the graphics device.
//!
//! Nothing in this file is proved. Each function holds one request to `wgpu`
//! and converts its arguments and its answer. A request that can be refused
//! is made inside a validation error scope of the device, so that a refusal
//! comes back as `Err` with the device's message in place of reaching the
//! device's handler for uncaptured errors. Running out of device memory and
//! losing the device are no answers to what was asked: they are left to that
//! handler, which panics unless the owner of the device has set another. The
//! two functions that wait for the queue, `wait_for_queue` and `read_buffer`,
//! can panic in this way: `wgpu::Device::poll` treats a device that is lost
//! while it waits as fatal, and no condition on the arguments rules that out.

use crate::descriptors::{Addressing, DeviceRequirements, Filtering, TexelFormat};
use futures::FutureExt;
use vstd::prelude::*;

verus! {

#[verifier::external_type_specification]
#[verifier::external_body]
pub struct ExInstance(wgpu::Instance);

#[verifier::external_type_specification]
#[verifier::external_body]
pub struct ExAdapter(wgpu::Adapter);

#[verifier::external_type_specification]
#[verifier::external_body]
pub struct ExDevice(wgpu::Device);

#[verifier::external_type_specification]
#[verifier::external_body]
pub struct ExQueue(wgpu::Queue);

#[verifier::external_type_specification]
#[verifier::external_body]
pub struct ExTexture(wgpu::Texture);

#[verifier::external_type_specification]
#[verifier::external_body]
pub struct ExTextureView(wgpu::TextureView);

#[verifier::external_type_specification]
#[verifier::external_body]
pub struct ExBuffer(wgpu::Buffer);

#[verifier::external_type_specification]
#[verifier::external_body]
pub struct ExShaderModule(wgpu::ShaderModule);

#[verifier::external_type_specification]
#[verifier::external_body]
pub struct ExSampler(wgpu::Sampler);

#[verifier::external_type_specification]
#[verifier::external_body]
pub struct ExBindGroupLayout(wgpu::BindGroupLayout);

#[verifier::external_type_specification]
#[verifier::external_body]
pub struct ExBindGroupLayoutEntry(wgpu::BindGroupLayoutEntry);

#[verifier::external_type_specification]
#[verifier::external_body]
pub struct ExBindGroupEntry<'a>(wgpu::BindGroupEntry<'a>);

#[verifier::external_type_specification]
#[verifier::external_body]
pub struct ExBindGroup(wgpu::BindGroup);

#[verifier::external_type_specification]
#[verifier::external_body]
pub struct ExPipelineLayout(wgpu::PipelineLayout);

#[verifier::external_type_specification]
#[verifier::external_body]
pub struct ExComputePipeline(wgpu::ComputePipeline);

#[verifier::external_type_specification]
#[verifier::external_body]
pub struct ExCommandEncoder(wgpu::CommandEncoder);

#[verifier::external_type_specification]
#[verifier::external_body]
pub struct ExCommandBuffer(wgpu::CommandBuffer);

#[verifier::external_type_specification]
#[verifier::external_body]
pub struct ExComputePass<'a>(wgpu::ComputePass<'a>);

#[verifier::external_type_specification]
#[verifier::external_body]
pub struct ExTextureFormat(wgpu::TextureFormat);

#[verifier::external_type_specification]
#[verifier::external_body]
pub struct ExAddressMode(wgpu::AddressMode);

#[verifier::external_type_specification]
#[verifier::external_body]
pub struct ExFilterMode(wgpu::FilterMode);

/// `wgpu::Instance::new` with the default descriptor: an instance over every
/// backend the build enables. `wgpu` panics here where the build enables no
/// backend at all; this crate always builds `wgpu` with one.
#[verifier::external_body]
pub(crate) fn open_instance() -> (instance: wgpu::Instance) {
    wgpu::Instance::new(&wgpu::InstanceDescriptor::default())
}

/// `wgpu::Instance::request_adapter` with the default options, polled once.
/// Which adapter comes back, or whether one does, is up to the machine.
#[verifier::external_body]
pub(crate) fn request_adapter(instance: &wgpu::Instance) -> (adapter: Result<
    wgpu::Adapter,
    String,
>) {
    let answer = instance.request_adapter(&wgpu::RequestAdapterOptions::default()).now_or_never();
    match answer {
        Some(adapter) => adapter.map_err(|error| error.to_string()),
        None => Err(String::from("the adapter was not answered at once")),
    }
}

/// `wgpu::Adapter::request_device`, polled once, with the features and
/// limits that `requirements` names on top of the default limits. The
/// adapter refuses what it cannot give.
#[verifier::external_body]
pub(crate) fn request_device(
    adapter: &wgpu::Adapter,
    label: &str,
    requirements: DeviceRequirements,
) -> (opened: Result<(wgpu::Device, wgpu::Queue), String>) {
    let mut features = wgpu::Features::empty();
    features.set(wgpu::Features::TEXTURE_BINDING_ARRAY, requirements.texture_binding_array);
    let indexing = wgpu::Features::SAMPLED_TEXTURE_AND_STORAGE_BUFFER_ARRAY_NON_UNIFORM_INDEXING;
    features.set(indexing, requirements.non_uniform_indexing);
    let mut descriptor = wgpu::DeviceDescriptor::default();
    descriptor.label = Some(label);
    descriptor.required_features = features;
    descriptor.required_limits.max_binding_array_elements_per_shader_stage =
        requirements.max_binding_array_elements;
    descriptor.required_limits.max_storage_buffer_binding_size =
        requirements.max_storage_buffer_binding_size;
    descriptor.memory_hints = wgpu::MemoryHints::Performance;
    let unanswered = Err(String::from("the device was not answered at once"));
    let opened = adapter.request_device(&descriptor).now_or_never();
    opened.map_or(unanswered, |opened| opened.map_err(|error| error.to_string()))
}

/// `wgpu::Device::create_shader_module` on WGSL source, inside a scope for
/// validation errors and one for internal errors. A source that does not
/// compile is an error.
#[verifier::external_body]
pub(crate) fn create_shader_module(device: &wgpu::Device, label: &str, source: &str) -> (module:
    Result<wgpu::ShaderModule, String>) {
    device.push_error_scope(wgpu::ErrorFilter::Internal);
    device.push_error_scope(wgpu::ErrorFilter::Validation);
    let module = device.create_shader_module(
        wgpu::ShaderModuleDescriptor {
            label: Some(label),
            source: wgpu::ShaderSource::Wgsl(source.into()),
        },
    );
    let refused = device.pop_error_scope().now_or_never().flatten();
    let failed = device.pop_error_scope().now_or_never().flatten();
    refused.or(failed).map_or(Ok(module), |error| Err(error.to_string()))
}

/// The `wgpu` address mode of the same name.
#[verifier::external_body]
pub(crate) fn address_mode_of(mode: Addressing) -> (converted: wgpu::AddressMode) {
    match mode {
        Addressing::ClampToEdge => wgpu::AddressMode::ClampToEdge,
        Addressing::Repeat => wgpu::AddressMode::Repeat,
        Addressing::MirrorRepeat => wgpu::AddressMode::MirrorRepeat,
        Addressing::ClampToBorder => wgpu::AddressMode::ClampToBorder,
    }
}

/// The `wgpu` filter mode of the same name.
#[verifier::external_body]
pub(crate) fn filter_mode_of(filter: Filtering) -> (converted: wgpu::FilterMode) {
    match filter {
        Filtering::Nearest => wgpu::FilterMode::Nearest,
        Filtering::Linear => wgpu::FilterMode::Linear,
    }
}

/// The `wgpu` texture format of the same name.
#[verifier::external_body]
pub(crate) fn texture_format_of(format: TexelFormat) -> (converted: wgpu::TextureFormat) {
    match format {
        TexelFormat::Rgba32Float => wgpu::TextureFormat::Rgba32Float,
        TexelFormat::Rgba16Float => wgpu::TextureFormat::Rgba16Float,
    }
}

/// `wgpu::Device::create_sampler` with one address mode for the three
/// coordinates and one filter for magnifying, minifying and mipmaps.
#[verifier::external_body]
pub(crate) fn create_sampler(
    device: &wgpu::Device,
    address_mode: wgpu::AddressMode,
    filter: wgpu::FilterMode,
) -> (sampler: Result<wgpu::Sampler, String>) {
    let mut descriptor = wgpu::SamplerDescriptor::default();
    descriptor.address_mode_u = address_mode;
    descriptor.address_mode_v = address_mode;
    descriptor.address_mode_w = address_mode;
    descriptor.mag_filter = filter;
    descriptor.min_filter = filter;
    descriptor.mipmap_filter = filter;
    device.push_error_scope(wgpu::ErrorFilter::Validation);
    let sampler = device.create_sampler(&descriptor);
    device.pop_error_scope().now_or_never().flatten().map_or(Ok(sampler), |error| Err(error.to_string()))
}

/// `wgpu::Device::create_texture` for a 2-D texture of one layer, one mip
/// level and one sample. `usage` holds the bits of `wgpu::TextureUsages`.
#[verifier::external_body]
pub(crate) fn create_texture(
    device: &wgpu::Device,
    label: &str,
    width: u32,
    height: u32,
    format: wgpu::TextureFormat,
    usage: u32,
) -> (texture: Result<wgpu::Texture, String>) {
    let size = wgpu::Extent3d { width, height, depth_or_array_layers: 1 };
    let usage = wgpu::TextureUsages::from_bits_retain(usage);
    let dimension = wgpu::TextureDimension::D2;
    device.push_error_scope(wgpu::ErrorFilter::Validation);
    let texture = device.create_texture(
        &wgpu::TextureDescriptor {
            label: Some(label), size, mip_level_count: 1, sample_count: 1, dimension, format, usage,
            view_formats: &[],
        },
    );
    device.pop_error_scope().now_or_never().flatten().map_or(Ok(texture), |error| Err(error.to_string()))
}

/// A buffer of the device, together with the number of bytes it was made
/// with. Only `create_buffer` makes one, and only `read_buffer` maps one, for
/// as long as it reads.
pub struct GpuBuffer {
    raw: wgpu::Buffer,
    size: u64,
}

impl GpuBuffer {
    /// The number of bytes the buffer was made with.
    pub closed spec fn len(&self) -> u64 {
        self.size
    }

    /// The number of bytes the buffer was made with.
    pub fn size(&self) -> (size: u64)
        ensures
            size == self.len(),
    {
        self.size
    }
}

/// `wgpu::Device::create_buffer` for an unmapped buffer of `size` bytes.
/// `usage` holds the bits of `wgpu::BufferUsages`. The buffer that comes back
/// has `size` bytes: `wgpu::Buffer::size` is the size it was asked for.
#[verifier::external_body]
pub(crate) fn create_buffer(device: &wgpu::Device, label: &str, size: u64, usage: u32) -> (buffer:
    Result<GpuBuffer, String>)
    ensures
        buffer matches Ok(made) ==> made.len() == size,
{
    let usage = wgpu::BufferUsages::from_bits_retain(usage);
    device.push_error_scope(wgpu::ErrorFilter::Validation);
    let raw = device.create_buffer(
        &wgpu::BufferDescriptor { label: Some(label), size, usage, mapped_at_creation: false },
    );
    let refused = device.pop_error_scope().now_or_never().flatten();
    refused.map_or(Ok(GpuBuffer { raw, size }), |error| Err(error.to_string()))
}

/// `wgpu::Texture::create_view` with the default descriptor: a view of the
/// whole texture.
#[verifier::external_body]
pub(crate) fn create_view(device: &wgpu::Device, texture: &wgpu::Texture) -> (view: Result<
    wgpu::TextureView,
    String,
>) {
    device.push_error_scope(wgpu::ErrorFilter::Validation);
    let view = texture.create_view(&wgpu::TextureViewDescriptor::default());
    device.pop_error_scope().now_or_never().flatten().map_or(Ok(view), |error| Err(error.to_string()))
}

/// `wgpu::Queue::write_texture`: schedules the write of `data`, whose rows
/// start `bytes_per_row` bytes apart, into the region of `width` by `height`
/// texels at the origin of `texture`.
#[verifier::external_body]
pub(crate) fn write_texture(
    device: &wgpu::Device,
    queue: &wgpu::Queue,
    texture: &wgpu::Texture,
    data: &[u8],
    bytes_per_row: u32,
    width: u32,
    height: u32,
) -> (written: Result<(), String>) {
    device.push_error_scope(wgpu::ErrorFilter::Validation);
    queue.write_texture(
        texture.as_image_copy(),
        data,
        wgpu::TexelCopyBufferLayout { offset: 0, bytes_per_row: Some(bytes_per_row), rows_per_image: None },
        wgpu::Extent3d { width, height, depth_or_array_layers: 1 },
    );
    device.pop_error_scope().now_or_never().flatten().map_or(Ok(()), |error| Err(error.to_string()))
}

/// `wgpu::Queue::write_buffer`: schedules the write of `data` to the start of
/// `buffer`.
#[verifier::external_body]
pub(crate) fn write_buffer(
    device: &wgpu::Device,
    queue: &wgpu::Queue,
    buffer: &GpuBuffer,
    data: &[u8],
) -> (written: Result<(), String>) {
    device.push_error_scope(wgpu::ErrorFilter::Validation);
    queue.write_buffer(&buffer.raw, 0, data);
    device.pop_error_scope().now_or_never().flatten().map_or(Ok(()), |error| Err(error.to_string()))
}

/// A `wgpu` layout entry, visible to the compute stage, for a 2-D float
/// texture that is not filterable and not multisampled; with `count` above
/// 0, for an array of that many.
#[verifier::external_body]
pub(crate) fn sampled_texture_entry(binding: u32, count: u32) -> (entry:
    wgpu::BindGroupLayoutEntry) {
    let ty = wgpu::BindingType::Texture {
        sample_type: wgpu::TextureSampleType::Float { filterable: false },
        view_dimension: wgpu::TextureViewDimension::D2,
        multisampled: false,
    };
    let count = core::num::NonZeroU32::new(count);
    wgpu::BindGroupLayoutEntry { binding, visibility: wgpu::ShaderStages::COMPUTE, ty, count }
}

/// A `wgpu` layout entry, visible to the compute stage, for a write-only 2-D
/// storage texture of the given format.
#[verifier::external_body]
pub(crate) fn storage_texture_entry(binding: u32, format: wgpu::TextureFormat) -> (entry:
    wgpu::BindGroupLayoutEntry) {
    let ty = wgpu::BindingType::StorageTexture {
        access: wgpu::StorageTextureAccess::WriteOnly,
        format,
        view_dimension: wgpu::TextureViewDimension::D2,
    };
    wgpu::BindGroupLayoutEntry { binding, visibility: wgpu::ShaderStages::COMPUTE, ty, count: None }
}

/// A `wgpu` layout entry, visible to the compute stage, for a sampler that
/// filters or does not.
#[verifier::external_body]
pub(crate) fn sampler_entry(binding: u32, filtering: bool) -> (entry: wgpu::BindGroupLayoutEntry) {
    let ty = wgpu::BindingType::Sampler(
        match filtering {
            true => wgpu::SamplerBindingType::Filtering,
            false => wgpu::SamplerBindingType::NonFiltering,
        },
    );
    wgpu::BindGroupLayoutEntry { binding, visibility: wgpu::ShaderStages::COMPUTE, ty, count: None }
}

/// A `wgpu` layout entry, visible to the compute stage, for a storage buffer
/// without dynamic offset or least size.
#[verifier::external_body]
pub(crate) fn storage_buffer_entry(binding: u32, read_only: bool) -> (entry:
    wgpu::BindGroupLayoutEntry) {
    let ty = wgpu::BindingType::Buffer {
        ty: wgpu::BufferBindingType::Storage { read_only },
        has_dynamic_offset: false,
        min_binding_size: None,
    };
    wgpu::BindGroupLayoutEntry { binding, visibility: wgpu::ShaderStages::COMPUTE, ty, count: None }
}

/// `wgpu::Device::create_bind_group_layout`.
#[verifier::external_body]
pub(crate) fn create_bind_group_layout(
    device: &wgpu::Device,
    label: &str,
    entries: &Vec<wgpu::BindGroupLayoutEntry>,
) -> (layout: Result<wgpu::BindGroupLayout, String>) {
    device.push_error_scope(wgpu::ErrorFilter::Validation);
    let layout = device.create_bind_group_layout(
        &wgpu::BindGroupLayoutDescriptor { label: Some(label), entries },
    );
    device.pop_error_scope().now_or_never().flatten().map_or(Ok(layout), |error| Err(error.to_string()))
}

/// The most bind groups that a pipeline layout of `wgpu` can have.
pub const MAX_BIND_GROUPS: usize = 8;

/// `wgpu::Device::create_pipeline_layout` over the bind group layouts in
/// order, without push constants. `wgpu` takes no more than `MAX_BIND_GROUPS`
/// layouts and panics on more.
#[verifier::external_body]
pub(crate) fn create_pipeline_layout(
    device: &wgpu::Device,
    label: &str,
    groups: &Vec<&wgpu::BindGroupLayout>,
) -> (layout: Result<wgpu::PipelineLayout, String>)
    requires
        groups@.len() <= MAX_BIND_GROUPS,
{
    device.push_error_scope(wgpu::ErrorFilter::Validation);
    let layout = device.create_pipeline_layout(
        &wgpu::PipelineLayoutDescriptor {
            label: Some(label),
            bind_group_layouts: groups,
            push_constant_ranges: &[],
        },
    );
    device.pop_error_scope().now_or_never().flatten().map_or(Ok(layout), |error| Err(error.to_string()))
}

/// `wgpu::Device::create_compute_pipeline` for the entry point `entry_point`
/// of `module`, inside a scope for validation errors and one for internal
/// errors. A shader that does not fit `layout` is an error.
#[verifier::external_body]
pub(crate) fn create_compute_pipeline(
    device: &wgpu::Device,
    label: &str,
    layout: &wgpu::PipelineLayout,
    module: &wgpu::ShaderModule,
    entry_point: &str,
) -> (pipeline: Result<wgpu::ComputePipeline, String>) {
    let descriptor = wgpu::ComputePipelineDescriptor {
        label: Some(label), layout: Some(layout), module, entry_point: Some(entry_point),
        compilation_options: wgpu::PipelineCompilationOptions::default(), cache: None,
    };
    device.push_error_scope(wgpu::ErrorFilter::Internal);
    device.push_error_scope(wgpu::ErrorFilter::Validation);
    let pipeline = device.create_compute_pipeline(&descriptor);
    let refused = device.pop_error_scope().now_or_never().flatten();
    let failed = device.pop_error_scope().now_or_never().flatten();
    refused.or(failed).map_or(Ok(pipeline), |error| Err(error.to_string()))
}

/// `wgpu::ComputePipeline::get_bind_group_layout`: the layout of group
/// `index` of the pipeline.
#[verifier::external_body]
pub(crate) fn bind_group_layout_of(
    device: &wgpu::Device,
    pipeline: &wgpu::ComputePipeline,
    index: u32,
) -> (layout: Result<wgpu::BindGroupLayout, String>) {
    device.push_error_scope(wgpu::ErrorFilter::Validation);
    let layout = pipeline.get_bind_group_layout(index);
    device.pop_error_scope().now_or_never().flatten().map_or(Ok(layout), |error| Err(error.to_string()))
}

/// A bind group entry that binds an array of texture views at `binding`.
#[verifier::external_body]
pub(crate) fn bind_texture_array<'a>(binding: u32, views: &'a Vec<&'a wgpu::TextureView>) -> (entry:
    wgpu::BindGroupEntry<'a>) {
    wgpu::BindGroupEntry { binding, resource: wgpu::BindingResource::TextureViewArray(views) }
}

/// A bind group entry that binds one texture view at `binding`.
#[verifier::external_body]
pub(crate) fn bind_texture<'a>(binding: u32, view: &'a wgpu::TextureView) -> (entry:
    wgpu::BindGroupEntry<'a>) {
    wgpu::BindGroupEntry { binding, resource: wgpu::BindingResource::TextureView(view) }
}

/// A bind group entry that binds a sampler at `binding`.
#[verifier::external_body]
pub(crate) fn bind_sampler<'a>(binding: u32, sampler: &'a wgpu::Sampler) -> (entry:
    wgpu::BindGroupEntry<'a>) {
    wgpu::BindGroupEntry { binding, resource: wgpu::BindingResource::Sampler(sampler) }
}

/// A bind group entry that binds the whole of a buffer at `binding`.
#[verifier::external_body]
pub(crate) fn bind_buffer<'a>(binding: u32, buffer: &'a GpuBuffer) -> (entry:
    wgpu::BindGroupEntry<'a>) {
    wgpu::BindGroupEntry { binding, resource: buffer.raw.as_entire_binding() }
}

/// `wgpu::Device::create_bind_group`. Entries that do not fit `layout` are an
/// error.
#[verifier::external_body]
pub(crate) fn create_bind_group<'a>(
    device: &wgpu::Device,
    label: &str,
    layout: &wgpu::BindGroupLayout,
    entries: &Vec<wgpu::BindGroupEntry<'a>>,
) -> (group: Result<wgpu::BindGroup, String>) {
    device.push_error_scope(wgpu::ErrorFilter::Validation);
    let group = device.create_bind_group(
        &wgpu::BindGroupDescriptor { label: Some(label), layout, entries },
    );
    device.pop_error_scope().now_or_never().flatten().map_or(Ok(group), |error| Err(error.to_string()))
}

/// `wgpu::Device::create_command_encoder`.
#[verifier::external_body]
pub(crate) fn create_command_encoder(device: &wgpu::Device, label: &str) -> (encoder: Result<
    wgpu::CommandEncoder,
    String,
>) {
    device.push_error_scope(wgpu::ErrorFilter::Validation);
    let encoder = device.create_command_encoder(
        &wgpu::CommandEncoderDescriptor { label: Some(label) },
    );
    device.pop_error_scope().now_or_never().flatten().map_or(Ok(encoder), |error| Err(error.to_string()))
}

/// `wgpu::CommandEncoder::begin_compute_pass`, with the pass freed of the
/// borrow of its encoder by `wgpu::ComputePass::forget_lifetime`. Until the
/// pass is ended the encoder takes no other command.
#[verifier::external_body]
pub(crate) fn begin_compute_pass(
    device: &wgpu::Device,
    encoder: &mut wgpu::CommandEncoder,
    label: &str,
) -> (pass: Result<wgpu::ComputePass<'static>, String>) {
    device.push_error_scope(wgpu::ErrorFilter::Validation);
    let pass = encoder.begin_compute_pass(
        &wgpu::ComputePassDescriptor { label: Some(label), timestamp_writes: None },
    ).forget_lifetime();
    device.pop_error_scope().now_or_never().flatten().map_or(Ok(pass), |error| Err(error.to_string()))
}

/// `wgpu::ComputePass::set_pipeline`.
#[verifier::external_body]
pub(crate) fn set_pipeline(
    device: &wgpu::Device,
    pass: &mut wgpu::ComputePass<'static>,
    pipeline: &wgpu::ComputePipeline,
) -> (recorded: Result<(), String>) {
    device.push_error_scope(wgpu::ErrorFilter::Validation);
    pass.set_pipeline(pipeline);
    device.pop_error_scope().now_or_never().flatten().map_or(Ok(()), |error| Err(error.to_string()))
}

/// `wgpu::ComputePass::set_bind_group` without dynamic offsets.
#[verifier::external_body]
pub(crate) fn set_bind_group(
    device: &wgpu::Device,
    pass: &mut wgpu::ComputePass<'static>,
    index: u32,
    group: &wgpu::BindGroup,
) -> (recorded: Result<(), String>) {
    device.push_error_scope(wgpu::ErrorFilter::Validation);
    pass.set_bind_group(index, group, &[]);
    device.pop_error_scope().now_or_never().flatten().map_or(Ok(()), |error| Err(error.to_string()))
}

/// `wgpu::ComputePass::dispatch_workgroups`.
#[verifier::external_body]
pub(crate) fn dispatch_workgroups(
    device: &wgpu::Device,
    pass: &mut wgpu::ComputePass<'static>,
    x: u32,
    y: u32,
    z: u32,
) -> (recorded: Result<(), String>) {
    device.push_error_scope(wgpu::ErrorFilter::Validation);
    pass.dispatch_workgroups(x, y, z);
    device.pop_error_scope().now_or_never().flatten().map_or(Ok(()), |error| Err(error.to_string()))
}

/// Ends a compute pass by dropping it, which records the end of the pass in
/// its encoder.
#[verifier::external_body]
pub(crate) fn end_compute_pass(device: &wgpu::Device, pass: wgpu::ComputePass<'static>) -> (ended:
    Result<(), String>) {
    device.push_error_scope(wgpu::ErrorFilter::Validation);
    drop(pass);
    device.pop_error_scope().now_or_never().flatten().map_or(Ok(()), |error| Err(error.to_string()))
}

/// `wgpu::CommandEncoder::copy_texture_to_buffer`: records the copy of the
/// region of `width` by `height` texels at the origin of `texture` to the
/// start of `buffer`, rows `bytes_per_row` bytes apart.
#[verifier::external_body]
pub(crate) fn copy_texture_to_buffer(
    device: &wgpu::Device,
    encoder: &mut wgpu::CommandEncoder,
    texture: &wgpu::Texture,
    buffer: &GpuBuffer,
    bytes_per_row: u32,
    width: u32,
    height: u32,
) -> (recorded: Result<(), String>) {
    let layout = wgpu::TexelCopyBufferLayout {
        offset: 0,
        bytes_per_row: Some(bytes_per_row),
        rows_per_image: Some(height),
    };
    device.push_error_scope(wgpu::ErrorFilter::Validation);
    encoder.copy_texture_to_buffer(
        texture.as_image_copy(),
        wgpu::TexelCopyBufferInfo { buffer: &buffer.raw, layout },
        wgpu::Extent3d { width, height, depth_or_array_layers: 1 },
    );
    device.pop_error_scope().now_or_never().flatten().map_or(Ok(()), |error| Err(error.to_string()))
}

/// `wgpu::CommandEncoder::copy_buffer_to_buffer`: records the copy of the
/// first `size` bytes of `source` to the start of `destination`.
#[verifier::external_body]
pub(crate) fn copy_buffer_to_buffer(
    device: &wgpu::Device,
    encoder: &mut wgpu::CommandEncoder,
    source: &GpuBuffer,
    destination: &GpuBuffer,
    size: u64,
) -> (recorded: Result<(), String>) {
    device.push_error_scope(wgpu::ErrorFilter::Validation);
    encoder.copy_buffer_to_buffer(&source.raw, 0, &destination.raw, 0, size);
    device.pop_error_scope().now_or_never().flatten().map_or(Ok(()), |error| Err(error.to_string()))
}

/// `wgpu::CommandEncoder::finish`. An error made while recording comes out
/// here.
#[verifier::external_body]
pub(crate) fn finish_encoder(device: &wgpu::Device, encoder: wgpu::CommandEncoder) -> (finished:
    Result<wgpu::CommandBuffer, String>) {
    device.push_error_scope(wgpu::ErrorFilter::Validation);
    let finished = encoder.finish();
    device.pop_error_scope().now_or_never().flatten().map_or(Ok(finished), |error| Err(error.to_string()))
}

/// `wgpu::Queue::submit`: hands the command buffers to the queue as one batch,
/// in the order of the vector.
#[verifier::external_body]
pub(crate) fn submit_commands(
    device: &wgpu::Device,
    queue: &wgpu::Queue,
    commands: Vec<wgpu::CommandBuffer>,
) -> (submitted: Result<(), String>) {
    device.push_error_scope(wgpu::ErrorFilter::Validation);
    queue.submit(commands);
    device.pop_error_scope().now_or_never().flatten().map_or(Ok(()), |error| Err(error.to_string()))
}

/// `wgpu::Device::poll`, waiting without limit until the queue has done
/// all that was submitted to it.
#[verifier::external_body]
pub(crate) fn wait_for_queue(device: &wgpu::Device) -> (waited: Result<(), String>) {
    device.poll(wgpu::PollType::wait_indefinitely()).map(|_| ()).map_err(|error| error.to_string())
}

/// Reads the bytes of `buffer`: maps the whole of it with
/// `wgpu::Buffer::map_async`, waits with `wgpu::Device::poll` until the queue
/// is idle and the mapping is answered, copies the bytes out of
/// `wgpu::Buffer::get_mapped_range` and unmaps the buffer. A buffer without
/// bytes cannot be mapped and is left out. Nothing is promised of the bytes
/// that come back, nor of their number.
#[verifier::external_body]
pub(crate) fn read_buffer(device: &wgpu::Device, buffer: &GpuBuffer) -> (bytes: Result<
    Vec<u8>,
    String,
>)
    requires
        buffer.len() > 0,
{
    let (sender, mut receiver) = futures::channel::oneshot::channel();
    device.push_error_scope(wgpu::ErrorFilter::Validation);
    buffer.raw.map_async(wgpu::MapMode::Read, .., move |result| { let _ = sender.send(result); });
    let polled = device.poll(wgpu::PollType::wait_indefinitely()).map_err(|error| error.to_string());
    let bytes = polled.and_then(|_| match receiver.try_recv() {
        Ok(Some(Ok(()))) => Ok(buffer.raw.get_mapped_range(..).to_vec()),
        _ => Err(String::from("the buffer was not mapped")),
    });
    buffer.raw.unmap();
    device.pop_error_scope().now_or_never().flatten().map_or(bytes, |error| Err(error.to_string()))
}

/// `bytemuck::cast_slice` from 32-bit words to bytes: the same memory, four
/// bytes for each word, in the byte order of the machine.
#[verifier::external_body]
pub(crate) fn words_as_bytes(words: &[u32]) -> (bytes: &[u8])
    ensures
        bytes@.len() == 4 * words@.len(),
{
    bytemuck::cast_slice(words)
}

/// `bytemuck::pod_collect_to_vec` from bytes to 32-bit words: a new vector
/// that holds the bytes in order, in the byte order of the machine, with as
/// many words as it takes to hold them all.
#[verifier::external_body]
pub(crate) fn bytes_to_words(bytes: &[u8]) -> (words: Vec<u32>)
    ensures
        words@.len() == (bytes@.len() + 3) / 4,
{
    bytemuck::pod_collect_to_vec(bytes)
}

} // verus!
