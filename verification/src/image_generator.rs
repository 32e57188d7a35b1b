//! The engine: the device, the three caches, and the executor that walks a
//! plan.

pub mod cache_uses;
pub mod cpu_func_process;
pub mod final_process;
pub mod parallel_process;
pub mod wgsl_process;

use crate::descriptors::{engine_requirements, BindingKind, LayoutEntry, TexelFormat};
use crate::device::{
    GpuBuffer,
    begin_compute_pass, create_bind_group_layout, create_buffer, create_compute_pipeline,
    create_pipeline_layout, create_shader_module, create_texture, dispatch_workgroups,
    end_compute_pass, finish_encoder, open_instance, request_adapter, request_device,
    sampled_texture_entry, sampler_entry, set_bind_group, set_pipeline, storage_buffer_entry,
    storage_texture_entry, submit_commands, texture_format_of,
};
use crate::error::EngineError;
use crate::image_generate_builder::{ImageGenerateBuilder, PipelineStep};
use crate::image_generator::cache_uses::{
    caches_follow, lemma_caches_follow_in_a_row, lemma_caches_follow_nothing, plan_pipeline_keys,
    plan_texture_keys, step_pipeline_keys, step_texture_keys,
};
use crate::image_generator::cpu_func_process::handle_cpu_func_step;
use crate::image_generator::final_process::{buffer_keys, final_buffer_keys, handle_final_process};
use crate::image_generator::parallel_process::{handle_parallel_step, plan_pending, step_pending};
use crate::image_generator::wgsl_process::handle_wgsl_step;
use crate::layout::{pipeline_group_entries, post_process_entries};
use crate::lru_cache::{
    all_entries, distinct_keys, follows, has_key, keep_recent, lemma_follows_nothing,
    lemma_keep_recent_keeps, lemma_used_keeps, used, value_of, CacheKey, LruCache,
};
use std::sync::Arc;
use vstd::prelude::*;

verus! {

/// The number of entries each cache of a new engine holds at most.
pub const DEFAULT_CACHE_SIZE: usize = 100;

/// The shader that converts the final image on the device: each pixel of the
/// image becomes one 32-bit word of the buffer, its channels scaled by 255,
/// clamped to `0..=255`, truncated and packed with red in the lowest byte.
pub const POST_PROCESS_WGSL: &'static str = "
@group(0) @binding(0) var input_texture: texture_2d<f32>;
@group(0) @binding(1) var<storage, read_write> output_pixels: array<u32>;

@compute @workgroup_size(16, 16, 1)
fn main(@builtin(global_invocation_id) id: vec3<u32>) {
    let size = textureDimensions(input_texture);
    if (id.x >= size.x || id.y >= size.y) {
        return;
    }
    let texel = textureLoad(input_texture, vec2<u32>(id.x, id.y), 0);
    let scaled = vec4<u32>(clamp(texel * f32(255), vec4<f32>(f32(0)), vec4<f32>(f32(255))));
    output_pixels[id.y * size.x + id.x] =
        scaled.x | (scaled.y << 8u) | (scaled.z << 16u) | (scaled.w << 24u);
}
";

/// What a compute pipeline is cached under: the id of its shader, the number
/// of textures it reads, whether it takes parameters in a storage buffer, and
/// whether it has a sampler.
pub struct PipelineCacheKey {
    pub id: String,
    pub input_texture_count: u32,
    pub has_storage: bool,
    pub has_sampler: bool,
}

impl View for PipelineCacheKey {
    type V = (Seq<char>, u32, bool, bool);

    open spec fn view(&self) -> (Seq<char>, u32, bool, bool) {
        (self.id@, self.input_texture_count, self.has_storage, self.has_sampler)
    }
}

impl CacheKey for PipelineCacheKey {
    fn same_key(&self, other: &Self) -> (same: bool) {
        self.id == other.id && self.input_texture_count == other.input_texture_count
            && self.has_storage == other.has_storage && self.has_sampler == other.has_sampler
    }

    fn copy_key(&self) -> (copy: Self) {
        PipelineCacheKey {
            id: self.id.clone(),
            input_texture_count: self.input_texture_count,
            has_storage: self.has_storage,
            has_sampler: self.has_sampler,
        }
    }
}

/// The place of a texture in a run: the steps and plans that lead to the
/// plan it belongs to, the step in that plan, and which of the step's
/// textures it is.
///
/// `path` holds, for each parallel step on the way from the top plan, the
/// index of that step and the index of the plan inside it. Two textures that
/// are live in one run at different places never share a cache entry.
pub struct TexturePlace {
    pub path: Seq<usize>,
    pub step: usize,
    pub slot: usize,
}

/// What identifies a cached texture: its place, its size, its format and its
/// usage.
pub struct TextureKeyView {
    pub place: TexturePlace,
    pub width: u32,
    pub height: u32,
    pub format: TexelFormat,
    pub usage: u32,
}

/// What a texture is cached under.
pub struct TextureCacheKey {
    pub path: Vec<usize>,
    pub step: usize,
    pub slot: usize,
    pub width: u32,
    pub height: u32,
    pub format: TexelFormat,
    pub usage: u32,
}

impl View for TextureCacheKey {
    type V = TextureKeyView;

    open spec fn view(&self) -> TextureKeyView {
        TextureKeyView {
            place: TexturePlace { path: self.path@, step: self.step, slot: self.slot },
            width: self.width,
            height: self.height,
            format: self.format,
            usage: self.usage,
        }
    }
}

/// Whether two paths are the same.
pub fn same_path(left: &Vec<usize>, right: &Vec<usize>) -> (same: bool)
    ensures
        same == (left@ == right@),
{
    if left.len() != right.len() {
        return false;
    }
    let mut i: usize = 0;
    while i < left.len()
        invariant
            left@.len() == right@.len(),
            i <= left@.len(),
            forall|j: int| 0 <= j < i ==> left@[j] == right@[j],
        decreases left@.len() - i,
    {
        if left[i] != right[i] {
            return false;
        }
        i = i + 1;
    }
    assert(left@ =~= right@);
    true
}

/// A copy of a path.
pub fn copy_path(path: &Vec<usize>) -> (copy: Vec<usize>)
    ensures
        copy@ == path@,
{
    let mut copy: Vec<usize> = Vec::with_capacity(path.len());
    let mut i: usize = 0;
    while i < path.len()
        invariant
            i <= path@.len(),
            copy@ == path@.subrange(0, i as int),
        decreases path@.len() - i,
    {
        copy.push(path[i]);
        assert(copy@ =~= path@.subrange(0, i + 1));
        i = i + 1;
    }
    assert(path@.subrange(0, i as int) =~= path@);
    copy
}

impl CacheKey for TextureCacheKey {
    fn same_key(&self, other: &Self) -> (same: bool) {
        self.step == other.step && self.slot == other.slot && self.width == other.width
            && self.height == other.height && self.format == other.format && self.usage
            == other.usage && same_path(&self.path, &other.path)
    }

    fn copy_key(&self) -> (copy: Self) {
        TextureCacheKey {
            path: copy_path(&self.path),
            step: self.step,
            slot: self.slot,
            width: self.width,
            height: self.height,
            format: self.format,
            usage: self.usage,
        }
    }
}

/// What a buffer is cached under: its size in bytes and its usage.
pub struct BufferCacheKey {
    pub size: u64,
    pub usage: u32,
}

impl View for BufferCacheKey {
    type V = (u64, u32);

    open spec fn view(&self) -> (u64, u32) {
        (self.size, self.usage)
    }
}

impl CacheKey for BufferCacheKey {
    fn same_key(&self, other: &Self) -> (same: bool) {
        self.size == other.size && self.usage == other.usage
    }

    fn copy_key(&self) -> (copy: Self) {
        BufferCacheKey { size: self.size, usage: self.usage }
    }
}

/// Where an image lives and how large it is.
pub struct ImageShape {
    pub on_gpu: bool,
    pub width: u32,
    pub height: u32,
}

/// One image between two steps: a texture on the device, or channels in CPU
/// memory.
pub enum StepOutput {
    Gpu { texture: Arc<wgpu::Texture>, width: u32, height: u32 },
    Cpu { data: Arc<Vec<u32>>, width: u32, height: u32 },
}

/// The images that the next step reads, in order.
pub type ProcessingState = Vec<StepOutput>;

/// The shapes of the images that the plans of a parallel step leave, each
/// started on images of the shapes `input`, joined in the order of the plans.
pub open spec fn parallel_shapes(pipelines: Seq<ImageGenerateBuilder>, input: Seq<ImageShape>) -> Seq<
    ImageShape,
>
    decreases pipelines, 0nat,
{
    if pipelines.len() == 0 {
        Seq::empty()
    } else {
        parallel_shapes(pipelines.drop_last(), input) + plan_shapes(pipelines.last()@, input)
    }
}

/// The shapes of the images that a step leaves when it runs on images of the
/// shapes `input`.
pub open spec fn step_shapes(step: PipelineStep, input: Seq<ImageShape>) -> Seq<ImageShape>
    decreases step, 0nat,
{
    match step {
        PipelineStep::Wgsl { output_width, output_height, .. } => seq![
            ImageShape { on_gpu: true, width: output_width, height: output_height },
        ],
        PipelineStep::CpuFunc { output_width, output_height, .. } => seq![
            ImageShape { on_gpu: false, width: output_width, height: output_height },
        ],
        PipelineStep::Parallel { pipelines } => parallel_shapes(pipelines@, input),
    }
}

/// The shapes of the images that the steps leave when they run in order,
/// the first of them on images of the shapes `input`.
pub open spec fn plan_shapes(steps: Seq<PipelineStep>, input: Seq<ImageShape>) -> Seq<ImageShape>
    decreases steps, 1nat,
{
    if steps.len() == 0 {
        input
    } else {
        step_shapes(steps.last(), plan_shapes(steps.drop_last(), input))
    }
}

impl StepOutput {
    /// Where the image lives and how large it is.
    pub open spec fn shape(&self) -> ImageShape {
        match *self {
            StepOutput::Gpu { width, height, .. } => ImageShape { on_gpu: true, width, height },
            StepOutput::Cpu { width, height, .. } => ImageShape { on_gpu: false, width, height },
        }
    }

    /// The width of the image in pixels.
    pub fn width(&self) -> (width: u32)
        ensures
            width == self.shape().width,
    {
        match self {
            StepOutput::Gpu { width, .. } => *width,
            StepOutput::Cpu { width, .. } => *width,
        }
    }

    /// The height of the image in pixels.
    pub fn height(&self) -> (height: u32)
        ensures
            height == self.shape().height,
    {
        match self {
            StepOutput::Gpu { height, .. } => *height,
            StepOutput::Cpu { height, .. } => *height,
        }
    }
}

impl Clone for StepOutput {
    /// The same image: the copy shares the texture or the channels.
    fn clone(&self) -> (copy: Self)
        ensures
            copy == *self,
    {
        match self {
            StepOutput::Gpu { texture, width, height } => StepOutput::Gpu {
                texture: Arc::clone(texture),
                width: *width,
                height: *height,
            },
            StepOutput::Cpu { data, width, height } => StepOutput::Cpu {
                data: Arc::clone(data),
                width: *width,
                height: *height,
            },
        }
    }
}

/// The shapes of the images of a state, in order.
pub open spec fn shapes_of(state: Seq<StepOutput>) -> Seq<ImageShape> {
    Seq::new(state.len(), |i: int| state[i].shape())
}

/// A copy of a state that shares every image with it.
pub fn share_state(state: &Vec<StepOutput>) -> (copy: Vec<StepOutput>)
    ensures
        copy@ == state@,
{
    let mut copy: Vec<StepOutput> = Vec::with_capacity(state.len());
    let mut i: usize = 0;
    while i < state.len()
        invariant
            i <= state@.len(),
            copy@ == state@.subrange(0, i as int),
        decreases state@.len() - i,
    {
        copy.push(state[i].clone());
        assert(copy@ =~= state@.subrange(0, i + 1));
        i = i + 1;
    }
    assert(state@.subrange(0, i as int) =~= state@);
    copy
}

/// Converts the entries of a bind group layout into those of the device,
/// one for one.
pub(crate) fn device_entries(entries: &Vec<LayoutEntry>) -> (converted_entries: Vec<
    wgpu::BindGroupLayoutEntry,
>)
    ensures
        converted_entries@.len() == entries@.len(),
{
    let mut converted_entries: Vec<wgpu::BindGroupLayoutEntry> = Vec::with_capacity(entries.len());
    let mut i: usize = 0;
    while i < entries.len()
        invariant
            i <= entries@.len(),
            converted_entries@.len() == i,
        decreases entries@.len() - i,
    {
        let entry = entries[i];
        let converted = match entry.kind {
            BindingKind::SampledTexture => sampled_texture_entry(entry.binding, entry.count),
            BindingKind::OutputTexture => storage_texture_entry(
                entry.binding,
                texture_format_of(TexelFormat::Rgba32Float),
            ),
            BindingKind::Sampler { filtering } => sampler_entry(entry.binding, filtering),
            BindingKind::StorageBuffer { read_only } => storage_buffer_entry(
                entry.binding,
                read_only,
            ),
        };
        converted_entries.push(converted);
        i = i + 1;
    }
    converted_entries
}

/// Whether a cached buffer has the size it is cached under.
pub open spec fn sized() -> spec_fn(((u64, u32), Arc<GpuBuffer>)) -> bool {
    |entry: ((u64, u32), Arc<GpuBuffer>)| entry.1.len() == entry.0.0
}

/// The engine: a device with its queue, the pipeline of the final
/// conversion, and the caches of compute pipelines, textures and buffers.
pub struct ImageGenerator {
    pub(crate) device: Arc<wgpu::Device>,
    pub(crate) queue: Arc<wgpu::Queue>,
    pub(crate) post_process_pipeline: Arc<wgpu::ComputePipeline>,
    pub(crate) post_process_bind_group_layout: Arc<wgpu::BindGroupLayout>,
    pub(crate) pipeline_cache: LruCache<PipelineCacheKey, wgpu::ComputePipeline>,
    pub(crate) texture_cache: LruCache<TextureCacheKey, wgpu::Texture>,
    pub(crate) buffer_cache: LruCache<BufferCacheKey, GpuBuffer>,
}

impl ImageGenerator {
    /// The cached pipelines, least recently used first.
    pub closed spec fn pipeline_entries(&self) -> Seq<
        ((Seq<char>, u32, bool, bool), Arc<wgpu::ComputePipeline>),
    > {
        self.pipeline_cache.entries()
    }

    /// The cached textures, least recently used first.
    pub closed spec fn texture_entries(&self) -> Seq<(TextureKeyView, Arc<wgpu::Texture>)> {
        self.texture_cache.entries()
    }

    /// The cached buffers, least recently used first.
    pub closed spec fn buffer_entries(&self) -> Seq<((u64, u32), Arc<GpuBuffer>)> {
        self.buffer_cache.entries()
    }

    /// The bound of the pipeline cache.
    pub closed spec fn pipeline_bound(&self) -> nat {
        self.pipeline_cache.bound()
    }

    /// The bound of the texture cache.
    pub closed spec fn texture_bound(&self) -> nat {
        self.texture_cache.bound()
    }

    /// The bound of the buffer cache.
    pub closed spec fn buffer_bound(&self) -> nat {
        self.buffer_cache.bound()
    }

    /// Each cache holds no key twice and no more entries than its bound, and
    /// every cached buffer has the size it is cached under.
    pub closed spec fn wf(&self) -> bool {
        &&& self.pipeline_cache.wf()
        &&& self.texture_cache.wf()
        &&& self.buffer_cache.wf()
        &&& all_entries(self.buffer_cache.entries(), sized())
    }

    /// The device, the queue and the bounds of the three caches are those of
    /// `other`.
    pub open spec fn same_setup(&self, other: &Self) -> bool {
        &&& self.device_of() == other.device_of()
        &&& self.queue_of() == other.queue_of()
        &&& self.pipeline_bound() == other.pipeline_bound()
        &&& self.texture_bound() == other.texture_bound()
        &&& self.buffer_bound() == other.buffer_bound()
    }

    /// What well-formedness says of the three caches.
    pub proof fn lemma_wf_caches(&self)
        requires
            self.wf(),
        ensures
            distinct_keys(self.pipeline_entries()),
            distinct_keys(self.texture_entries()),
            distinct_keys(self.buffer_entries()),
            self.pipeline_entries().len() <= self.pipeline_bound(),
            self.texture_entries().len() <= self.texture_bound(),
            self.buffer_entries().len() <= self.buffer_bound(),
            all_entries(self.buffer_entries(), sized()),
    {
    }

    /// An engine on the default adapter of the machine, with a device that
    /// has the features and limits of `engine_requirements`, and with empty
    /// caches of `DEFAULT_CACHE_SIZE` entries each.
    ///
    /// Whether there is such a device is up to the machine: without one the
    /// error is `EngineError::Bootstrap`.
    pub fn new() -> (engine: Result<Self, EngineError>)
        ensures
            match engine {
                Ok(engine) => engine.is_fresh(),
                Err(error) => error is Bootstrap,
            },
    {
        let instance = open_instance();
        let adapter = match request_adapter(&instance) {
            Ok(adapter) => adapter,
            Err(message) => {
                return Err(EngineError::Bootstrap(message));
            },
        };
        match request_device(&adapter, "ImageGenerator Device", engine_requirements()) {
            Ok((device, queue)) => Self::with_device(device, queue),
            Err(message) => Err(EngineError::Bootstrap(message)),
        }
    }

    /// The state of a new engine: empty caches of `DEFAULT_CACHE_SIZE` entries.
    pub open spec fn is_fresh(&self) -> bool {
        &&& self.wf()
        &&& self.pipeline_entries().len() == 0
        &&& self.texture_entries().len() == 0
        &&& self.buffer_entries().len() == 0
        &&& self.pipeline_bound() == DEFAULT_CACHE_SIZE
        &&& self.texture_bound() == DEFAULT_CACHE_SIZE
        &&& self.buffer_bound() == DEFAULT_CACHE_SIZE
    }

    /// An engine on `device` and `queue`, with empty caches of
    /// `DEFAULT_CACHE_SIZE` entries each. The pipeline of the final
    /// conversion is compiled here, with its fixed layout.
    ///
    /// A device that refuses the pipeline is `EngineError::Bootstrap`.
    pub fn with_device(device: wgpu::Device, queue: wgpu::Queue) -> (engine: Result<
        Self,
        EngineError,
    >)
        ensures
            match engine {
                Ok(engine) => engine.is_fresh() && engine.device_of() == device
                    && engine.queue_of() == queue,
                Err(error) => error is Bootstrap,
            },
    {
        let module = match create_shader_module(&device, "Post Process Shader", POST_PROCESS_WGSL) {
            Ok(module) => module,
            Err(message) => {
                return Err(EngineError::Bootstrap(message));
            },
        };
        let entries = device_entries(&post_process_entries());
        let group = match create_bind_group_layout(
            &device,
            "Post Process Bind Group Layout",
            &entries,
        ) {
            Ok(group) => group,
            Err(message) => {
                return Err(EngineError::Bootstrap(message));
            },
        };
        let mut groups: Vec<&wgpu::BindGroupLayout> = Vec::new();
        groups.push(&group);
        let layout = match create_pipeline_layout(&device, "Post Process Pipeline Layout", &groups) {
            Ok(layout) => layout,
            Err(message) => {
                return Err(EngineError::Bootstrap(message));
            },
        };
        let pipeline = match create_compute_pipeline(
            &device,
            "Post Process Pipeline",
            &layout,
            &module,
            "main",
        ) {
            Ok(pipeline) => pipeline,
            Err(message) => {
                return Err(EngineError::Bootstrap(message));
            },
        };
        Ok(
            ImageGenerator {
                device: Arc::new(device),
                queue: Arc::new(queue),
                post_process_pipeline: Arc::new(pipeline),
                post_process_bind_group_layout: Arc::new(group),
                pipeline_cache: LruCache::new(DEFAULT_CACHE_SIZE),
                texture_cache: LruCache::new(DEFAULT_CACHE_SIZE),
                buffer_cache: LruCache::new(DEFAULT_CACHE_SIZE),
            },
        )
    }

    /// The device the engine runs on.
    pub closed spec fn device_of(&self) -> wgpu::Device {
        *self.device
    }

    /// The queue the engine submits to.
    pub closed spec fn queue_of(&self) -> wgpu::Queue {
        *self.queue
    }

    /// The device of the engine.
    pub fn device(&self) -> (device: &wgpu::Device)
        ensures
            *device == self.device_of(),
    {
        &self.device
    }

    /// The queue of the engine.
    pub fn queue(&self) -> (queue: &wgpu::Queue)
        ensures
            *queue == self.queue_of(),
    {
        &self.queue
    }

    /// The keys of the cached pipelines, least recently used first.
    pub fn cached_pipelines(&self) -> (keys: Vec<PipelineCacheKey>)
        ensures
            keys@.len() == self.pipeline_entries().len(),
            forall|i: int|
                0 <= i < keys@.len() ==> (#[trigger] keys@[i])@ == self.pipeline_entries()[i].0,
    {
        self.pipeline_cache.keys()
    }

    /// The keys of the cached textures, least recently used first.
    pub fn cached_textures(&self) -> (keys: Vec<TextureCacheKey>)
        ensures
            keys@.len() == self.texture_entries().len(),
            forall|i: int|
                0 <= i < keys@.len() ==> (#[trigger] keys@[i])@ == self.texture_entries()[i].0,
    {
        self.texture_cache.keys()
    }

    /// The keys of the cached buffers, least recently used first.
    pub fn cached_buffers(&self) -> (keys: Vec<BufferCacheKey>)
        ensures
            keys@.len() == self.buffer_entries().len(),
            forall|i: int|
                0 <= i < keys@.len() ==> (#[trigger] keys@[i])@ == self.buffer_entries()[i].0,
    {
        self.buffer_cache.keys()
    }

    /// The bound of the pipeline cache.
    pub fn max_cache_size(&self) -> (size: usize)
        ensures
            size == self.pipeline_bound(),
    {
        self.pipeline_cache.max_size()
    }

    /// Sets the bound of the pipeline cache and drops the least recently
    /// used pipelines down to it.
    pub fn set_max_cache_size(&mut self, size: usize)
        requires
            old(self).wf(),
        ensures
            final(self).wf(),
            final(self).device_of() == old(self).device_of(),
            final(self).queue_of() == old(self).queue_of(),
            final(self).pipeline_bound() == size,
            final(self).pipeline_entries() == keep_recent(
                old(self).pipeline_entries(),
                size as nat,
            ),
            final(self).texture_entries() == old(self).texture_entries(),
            final(self).buffer_entries() == old(self).buffer_entries(),
            final(self).texture_bound() == old(self).texture_bound(),
            final(self).buffer_bound() == old(self).buffer_bound(),
    {
        self.pipeline_cache.set_max_size(size);
    }

    /// The bound of the texture cache.
    pub fn max_texture_cache_size(&self) -> (size: usize)
        ensures
            size == self.texture_bound(),
    {
        self.texture_cache.max_size()
    }

    /// Sets the bound of the texture cache and drops the least recently used
    /// textures down to it.
    pub fn set_max_texture_cache_size(&mut self, size: usize)
        requires
            old(self).wf(),
        ensures
            final(self).wf(),
            final(self).device_of() == old(self).device_of(),
            final(self).queue_of() == old(self).queue_of(),
            final(self).texture_bound() == size,
            final(self).texture_entries() == keep_recent(
                old(self).texture_entries(),
                size as nat,
            ),
            final(self).pipeline_entries() == old(self).pipeline_entries(),
            final(self).buffer_entries() == old(self).buffer_entries(),
            final(self).pipeline_bound() == old(self).pipeline_bound(),
            final(self).buffer_bound() == old(self).buffer_bound(),
    {
        self.texture_cache.set_max_size(size);
    }

    /// The bound of the buffer cache.
    pub fn max_buffer_cache_size(&self) -> (size: usize)
        ensures
            size == self.buffer_bound(),
    {
        self.buffer_cache.max_size()
    }

    /// Sets the bound of the buffer cache and drops the least recently used
    /// buffers down to it.
    pub fn set_max_buffer_cache_size(&mut self, size: usize)
        requires
            old(self).wf(),
        ensures
            final(self).wf(),
            final(self).device_of() == old(self).device_of(),
            final(self).queue_of() == old(self).queue_of(),
            final(self).buffer_bound() == size,
            final(self).buffer_entries() == keep_recent(
                old(self).buffer_entries(),
                size as nat,
            ),
            final(self).pipeline_entries() == old(self).pipeline_entries(),
            final(self).texture_entries() == old(self).texture_entries(),
            final(self).pipeline_bound() == old(self).pipeline_bound(),
            final(self).texture_bound() == old(self).texture_bound(),
    {
        proof {
            lemma_keep_recent_keeps(self.buffer_cache.entries(), size as nat, sized());
        }
        self.buffer_cache.set_max_size(size);
    }
}

/// Builds the compute pipeline of a shader for the layout that `key`
/// derives: the bind groups of `pipeline_groups_of`, in their order, for the
/// entry point `main` of the shader. Whether the shader fits is the device's
/// decision; its refusal comes back with its message.
fn create_pipeline(
    device: &wgpu::Device,
    key: &PipelineCacheKey,
    shader_module: &wgpu::ShaderModule,
    sampler_filters: bool,
) -> (pipeline: Result<wgpu::ComputePipeline, String>) {
    let planned = pipeline_group_entries(
        key.input_texture_count,
        key.has_storage,
        key.has_sampler,
        sampler_filters,
    );
    let mut made: Vec<wgpu::BindGroupLayout> = Vec::with_capacity(planned.len());
    let mut i: usize = 0;
    while i < planned.len()
        invariant
            i <= planned@.len() <= 2,
            made@.len() == i,
        decreases planned@.len() - i,
    {
        let label = if i == 0 { "Texture Group Layout" } else { "Parameter Group Layout" };
        let entries = device_entries(&planned[i]);
        match create_bind_group_layout(device, label, &entries) {
            Ok(group) => made.push(group),
            Err(message) => {
                return Err(message);
            },
        }
        i = i + 1;
    }
    let mut groups: Vec<&wgpu::BindGroupLayout> = Vec::with_capacity(made.len());
    let mut j: usize = 0;
    while j < made.len()
        invariant
            j <= made@.len(),
            groups@.len() == j,
        decreases made@.len() - j,
    {
        groups.push(&made[j]);
        j = j + 1;
    }
    let layout = match create_pipeline_layout(device, "Step Pipeline Layout", &groups) {
        Ok(layout) => layout,
        Err(message) => {
            return Err(message);
        },
    };
    match create_compute_pipeline(
        device,
        "Step Pipeline",
        &layout,
        shader_module,
        "main",
    ) {
        Ok(pipeline) => Ok(pipeline),
        Err(message) => Err(message),
    }
}

impl ImageGenerator {
    /// The texture cached for the place `(path, step_index, slot)` with the
    /// given size, format and usage; a new texture of the device, cached as
    /// the most recently used one, where there is none.
    ///
    /// This is one use of the key, as `used` says. A hit always succeeds and
    /// returns the cached texture. On a miss the device decides: if it
    /// refuses the texture, the error is `EngineError::Device` and the cache
    /// is as it was.
    pub fn get_or_create_texture(
        &mut self,
        path: &Vec<usize>,
        step_index: usize,
        slot: usize,
        width: u32,
        height: u32,
        format: TexelFormat,
        usage: u32,
        label: &str,
    ) -> (texture: Result<Arc<wgpu::Texture>, EngineError>)
        requires
            old(self).wf(),
        ensures
            final(self).wf(),
            final(self).same_setup(old(self)),
            final(self).pipeline_entries() == old(self).pipeline_entries(),
            final(self).buffer_entries() == old(self).buffer_entries(),
            ({
                let key = TextureKeyView {
                    place: TexturePlace { path: path@, step: step_index, slot },
                    width,
                    height,
                    format,
                    usage,
                };
                let before = old(self).texture_entries();
                let after = final(self).texture_entries();
                match texture {
                    Ok(found) => {
                        &&& after == used(before, key, found, old(self).texture_bound())
                        &&& has_key(before, key) ==> found == value_of(before, key)
                    },
                    Err(error) => error is Device && !has_key(before, key) && after == before,
                }
            }),
    {
        let key = TextureCacheKey {
            path: copy_path(path),
            step: step_index,
            slot,
            width,
            height,
            format,
            usage,
        };
        let device = &self.device;
        let found = self.texture_cache.get_or_create(
            &key,
            || create_texture(device, label, width, height, texture_format_of(format), usage),
        );
        match found {
            Ok(texture) => Ok(texture),
            Err(message) => Err(EngineError::Device(message)),
        }
    }

    /// The buffer cached for the given size and usage; a new buffer of the
    /// device, cached as the most recently used one, where there is none.
    ///
    /// This is one use of the key, as `used` says. A hit always succeeds and
    /// returns the cached buffer. On a miss the device decides: if it refuses
    /// the buffer, the error is `EngineError::Device` and the cache is as it
    /// was.
    pub fn get_or_create_buffer(&mut self, size: u64, usage: u32, label: &str) -> (buffer: Result<
        Arc<GpuBuffer>,
        EngineError,
    >)
        requires
            old(self).wf(),
        ensures
            final(self).wf(),
            final(self).same_setup(old(self)),
            final(self).pipeline_entries() == old(self).pipeline_entries(),
            final(self).texture_entries() == old(self).texture_entries(),
            ({
                let key = (size, usage);
                let before = old(self).buffer_entries();
                let after = final(self).buffer_entries();
                match buffer {
                    Ok(found) => {
                        &&& after == used(before, key, found, old(self).buffer_bound())
                        &&& has_key(before, key) ==> found == value_of(before, key)
                        &&& found.len() == size
                    },
                    Err(error) => error is Device && !has_key(before, key) && after == before,
                }
            }),
    {
        let key = BufferCacheKey { size, usage };
        let ghost before = self.buffer_cache.entries();
        proof {
            if has_key(before, key@) {
                let p = crate::lru_cache::position_of(before, key@);
                assert(0 <= p < before.len() && before[p].0 == key@);
                assert(sized()(before[p]));
            }
        }
        match self.buffer_cache.lookup(&key) {
            Some(cached) => {
                proof {
                    lemma_used_keeps(before, key@, cached, self.buffer_cache.bound(), sized());
                }
                Ok(cached)
            },
            None => match create_buffer(&self.device, label, size, usage) {
                Ok(made) => {
                    let made = Arc::new(made);
                    proof {
                        lemma_used_keeps(before, key@, made, self.buffer_cache.bound(), sized());
                    }
                    self.buffer_cache.insert(key, Arc::clone(&made));
                    Ok(made)
                },
                Err(message) => Err(EngineError::Device(message)),
            },
        }
    }

    /// The pipeline cached under `key`; a new pipeline of `shader_module` for
    /// the layout that `key` derives, cached as the most recently used one,
    /// where there is none. `sampler_filters` says whether the sampler of the
    /// shader, if it has one, filters.
    ///
    /// This is one use of the key, as `used` says. A hit always succeeds and
    /// returns the cached pipeline. On a miss the device decides: if the
    /// shader does not fit the layout, the error is `EngineError::Device` and
    /// the cache is as it was.
    pub fn get_or_create_pipeline(
        &mut self,
        key: &PipelineCacheKey,
        shader_module: &wgpu::ShaderModule,
        sampler_filters: bool,
    ) -> (pipeline: Result<Arc<wgpu::ComputePipeline>, EngineError>)
        requires
            old(self).wf(),
        ensures
            final(self).wf(),
            final(self).same_setup(old(self)),
            final(self).texture_entries() == old(self).texture_entries(),
            final(self).buffer_entries() == old(self).buffer_entries(),
            ({
                let before = old(self).pipeline_entries();
                let after = final(self).pipeline_entries();
                match pipeline {
                    Ok(found) => {
                        &&& after == used(before, key@, found, old(self).pipeline_bound())
                        &&& has_key(before, key@) ==> found == value_of(before, key@)
                    },
                    Err(error) => error is Device && !has_key(before, key@) && after == before,
                }
            }),
    {
        let device = &self.device;
        let found = self.pipeline_cache.get_or_create(
            key,
            || create_pipeline(device, key, shader_module, sampler_filters),
        );
        match found {
            Ok(pipeline) => Ok(pipeline),
            Err(message) => Err(EngineError::Device(message)),
        }
    }

    /// Records one compute pass into `encoder`: the pipeline, the bind
    /// groups as groups 0, 1, ... in their order, and one dispatch of `x` by
    /// `y` workgroups. The pass is ended whatever the device says; the first
    /// thing it refuses is the error.
    pub(crate) fn encode_compute_pass(
        &self,
        encoder: &mut wgpu::CommandEncoder,
        label: &str,
        pipeline: &wgpu::ComputePipeline,
        groups: &Vec<wgpu::BindGroup>,
        x: u32,
        y: u32,
    ) -> (recorded: Result<(), EngineError>)
        ensures
            recorded is Err ==> recorded->Err_0 is Device,
    {
        let mut pass = match begin_compute_pass(&self.device, encoder, label) {
            Ok(pass) => pass,
            Err(message) => {
                return Err(EngineError::Device(message));
            },
        };
        let mut refused: Option<String> = match set_pipeline(&self.device, &mut pass, pipeline) {
            Ok(()) => None,
            Err(message) => Some(message),
        };
        let mut index: usize = 0;
        while index < groups.len() && index <= 0xffff_ffff
            invariant
                index <= groups@.len(),
            decreases groups@.len() - index,
        {
            if refused.is_none() {
                match set_bind_group(&self.device, &mut pass, index as u32, &groups[index]) {
                    Ok(()) => {},
                    Err(message) => {
                        refused = Some(message);
                    },
                }
            }
            index = index + 1;
        }
        if refused.is_none() {
            match dispatch_workgroups(&self.device, &mut pass, x, y, 1) {
                Ok(()) => {},
                Err(message) => {
                    refused = Some(message);
                },
            }
        }
        let ended = end_compute_pass(&self.device, pass);
        settle_pass(refused, ended)
    }

    /// Finishes the recorded batches and hands them to the queue as one
    /// submission, in the order they were recorded in. Afterwards no batch
    /// is pending, whether the device took them or not.
    pub fn submit_all(&self, encoders: &mut Vec<wgpu::CommandEncoder>) -> (submitted: Result<
        (),
        EngineError,
    >)
        ensures
            final(encoders)@.len() == 0,
            old(encoders)@.len() == 0 ==> submitted is Ok,
            submitted is Err ==> submitted->Err_0 is Device,
    {
        let mut commands: Vec<wgpu::CommandBuffer> = Vec::with_capacity(encoders.len());
        let mut failure: Option<EngineError> = None;
        while encoders.len() > 0
            invariant
                encoders@.len() <= old(encoders)@.len(),
                failure.is_some() ==> failure.unwrap() is Device,
                old(encoders)@.len() == 0 ==> failure.is_none() && commands@.len() == 0,
            decreases encoders@.len(),
        {
            let encoder = encoders.remove(0);
            match finish_encoder(&self.device, encoder) {
                Ok(finished) => commands.push(finished),
                Err(message) => {
                    if failure.is_none() {
                        failure = Some(EngineError::Device(message));
                    }
                },
            }
        }
        match failure {
            Some(error) => Err(error),
            None => {
                if commands.len() == 0 {
                    Ok(())
                } else {
                    match submit_commands(&self.device, &self.queue, commands) {
                        Ok(()) => Ok(()),
                        Err(message) => Err(EngineError::Device(message)),
                    }
                }
            },
        }
    }
}

/// What a compute pass that was begun comes to: the first thing the device
/// refused while the pass was recorded, if there is one; else what the device
/// said to the end of the pass.
pub open spec fn pass_outcome(refused: Option<String>, ended: Result<(), String>) -> Result<
    (),
    EngineError,
> {
    match refused {
        Some(message) => Err(EngineError::Device(message)),
        None => match ended {
            Ok(()) => Ok(()),
            Err(message) => Err(EngineError::Device(message)),
        },
    }
}

/// Settles what a compute pass that was begun comes to.
pub fn settle_pass(refused: Option<String>, ended: Result<(), String>) -> (outcome: Result<
    (),
    EngineError,
>)
    ensures
        outcome == pass_outcome(refused, ended),
{
    match refused {
        Some(message) => Err(EngineError::Device(message)),
        None => match ended {
            Ok(()) => Ok(()),
            Err(message) => Err(EngineError::Device(message)),
        },
    }
}

impl ImageGenerator {
    /// Runs the steps in order, the first on the images of `initial_state`,
    /// each next on what the one before left, and returns the images the last
    /// one leaves together with the batches that were recorded and not yet
    /// submitted, in the order they were recorded in: as many as
    /// `plan_pending` counts.
    ///
    /// `path` says where the steps are in the run: it is empty for the steps
    /// of the top plan, and holds the indices of the parallel steps and plans
    /// that lead to a nested one.
    ///
    /// The first step that fails ends the run with its error. A plan
    /// without steps cannot fail: it returns the images it was started on, as
    /// they are, records nothing and leaves the caches alone.
    pub fn execute_pipeline(
        &mut self,
        steps: &Vec<PipelineStep>,
        initial_state: ProcessingState,
        path: &Vec<usize>,
    ) -> (result: Result<(ProcessingState, Vec<wgpu::CommandEncoder>), EngineError>)
        requires
            old(self).wf(),
        ensures
            final(self).wf(),
            final(self).same_setup(old(self)),
            match result {
                Ok((state, encoders)) => {
                    &&& shapes_of(state@) == plan_shapes(steps@, shapes_of(initial_state@))
                    &&& encoders@.len() == plan_pending(steps@, 0)
                    &&& caches_follow(
                        *old(self),
                        *final(self),
                        plan_texture_keys(steps@, shapes_of(initial_state@), path@),
                        plan_pipeline_keys(steps@, shapes_of(initial_state@)),
                    )
                },
                Err(error) => steps@.len() > 0 && error.is_step_error(),
            },
            steps@.len() == 0 ==> {
                &&& (result matches Ok((state, encoders)) && state@ == initial_state@
                    && encoders@.len() == 0)
                &&& final(self).pipeline_entries() == old(self).pipeline_entries()
                &&& final(self).texture_entries() == old(self).texture_entries()
                &&& final(self).buffer_entries() == old(self).buffer_entries()
            },
        decreases steps, 1nat,
    {
        let mut state = initial_state;
        let mut all_encoders: Vec<wgpu::CommandEncoder> = Vec::new();
        let mut i: usize = 0;
        assert(steps@.subrange(0, 0) =~= Seq::<PipelineStep>::empty());
        proof {
            lemma_caches_follow_nothing(*old(self), *self);
        }
        while i < steps.len()
            invariant
                i <= steps@.len(),
                self.wf(),
                self.same_setup(old(self)),
                shapes_of(state@) == plan_shapes(
                    steps@.subrange(0, i as int),
                    shapes_of(initial_state@),
                ),
                all_encoders@.len() == plan_pending(steps@.subrange(0, i as int), 0),
                i == 0 ==> {
                    &&& state@ == initial_state@
                    &&& self.pipeline_entries() == old(self).pipeline_entries()
                    &&& self.texture_entries() == old(self).texture_entries()
                    &&& self.buffer_entries() == old(self).buffer_entries()
                },
                caches_follow(
                    *old(self),
                    *self,
                    plan_texture_keys(
                        steps@.subrange(0, i as int),
                        shapes_of(initial_state@),
                        path@,
                    ),
                    plan_pipeline_keys(steps@.subrange(0, i as int), shapes_of(initial_state@)),
                ),
            decreases steps@.len() - i,
        {
            proof {
                let taken = steps@.subrange(0, i + 1);
                assert(taken.drop_last() =~= steps@.subrange(0, i as int));
                assert(taken.last() == steps@[i as int]);
                assert(plan_pending(taken, 0)
                    == step_pending(
                    taken.last(),
                    plan_pending(taken.drop_last(), 0),
                ));
            }
            let ghost pending = all_encoders@.len();
            let ghost before = *self;
            let ghost shapes = shapes_of(state@);
            let handled = match &steps[i] {
                PipelineStep::Wgsl { wgsl, params, output_width, output_height } => {
                    handle_wgsl_step(
                        self,
                        &state,
                        wgsl,
                        params,
                        path,
                        i,
                        *output_width,
                        *output_height,
                    )
                },
                PipelineStep::Parallel { pipelines } => {
                    proof {
                        assert(decreases_to!(steps => steps[i as int]));
                        assert(decreases_to!(steps[i as int] => pipelines));
                    }
                    handle_parallel_step(
                        self,
                        &mut state,
                        pipelines,
                        path,
                        i,
                        &mut all_encoders,
                    )
                },
                PipelineStep::CpuFunc { func, params, output_width, output_height } => {
                    handle_cpu_func_step(
                        self,
                        &mut state,
                        func,
                        params,
                        *output_width,
                        *output_height,
                        &mut all_encoders,
                    )
                },
            };
            match handled {
                Ok((new_state, mut recorded)) => {
                    proof {
                        let done = steps@.subrange(0, i as int);
                        let start = shapes_of(initial_state@);
                        if steps@[i as int] is CpuFunc {
                            lemma_caches_follow_nothing(before, *self);
                        }
                        assert(caches_follow(
                            before,
                            *self,
                            step_texture_keys(steps@[i as int], shapes, path@, i),
                            step_pipeline_keys(steps@[i as int], shapes),
                        ));
                        lemma_caches_follow_in_a_row(
                            *old(self),
                            before,
                            *self,
                            plan_texture_keys(done, start, path@),
                            plan_pipeline_keys(done, start),
                            step_texture_keys(steps@[i as int], shapes, path@, i),
                            step_pipeline_keys(steps@[i as int], shapes),
                        );
                    }
                    assert(all_encoders@.len() + recorded@.len()
                        == step_pending(
                        steps@[i as int],
                        pending,
                    ));
                    assert(shapes_of(new_state@) =~= step_shapes(
                        steps@[i as int],
                        plan_shapes(steps@.subrange(0, i as int), shapes_of(initial_state@)),
                    ));
                    state = new_state;
                    all_encoders.append(&mut recorded);
                },
                Err(error) => {
                    return Err(error);
                },
            }
            i = i + 1;
        }
        assert(steps@.subrange(0, i as int) =~= steps@);
        Ok((state, all_encoders))
    }
}

impl ImageGenerator {
    /// Runs the plan from an empty state and returns the final image:
    /// `4 * width * height` bytes, where `width` and `height` are those of the
    /// one image the plan leaves.
    ///
    /// The batches that are still recorded when the last step is done are
    /// submitted as one, in the order they were recorded in. Then the state
    /// must hold exactly one image, which the final conversion turns into
    /// bytes.
    ///
    /// A plan that leaves any number of images but one fails with
    /// `EngineError::FinalStateArity`, if nothing failed before. A plan
    /// without steps leaves none, whatever the device: it fails with
    /// `FinalStateArity { count: 0 }`.
    ///
    /// A run that succeeds has used the caches as the plan determines: the
    /// texture keys of `plan_texture_keys` and the pipeline keys of
    /// `plan_pipeline_keys`, each in order, and the buffer keys of the final
    /// conversion.
    pub fn generate(&mut self, builder: ImageGenerateBuilder) -> (image: Result<
        Vec<u8>,
        EngineError,
    >)
        requires
            old(self).wf(),
        ensures
            final(self).wf(),
            final(self).same_setup(old(self)),
            match image {
                Ok(bytes) => {
                    let left = plan_shapes(builder@, Seq::<ImageShape>::empty());
                    &&& left.len() == 1
                    &&& bytes@.len() == 4 * left[0].width * left[0].height
                    &&& follows(
                        old(self).texture_entries(),
                        final(self).texture_entries(),
                        plan_texture_keys(
                            builder@,
                            Seq::<ImageShape>::empty(),
                            Seq::<usize>::empty(),
                        ),
                        old(self).texture_bound(),
                    )
                    &&& follows(
                        old(self).pipeline_entries(),
                        final(self).pipeline_entries(),
                        plan_pipeline_keys(builder@, Seq::<ImageShape>::empty()),
                        old(self).pipeline_bound(),
                    )
                    &&& follows(
                        old(self).buffer_entries(),
                        final(self).buffer_entries(),
                        final_buffer_keys(left[0]),
                        old(self).buffer_bound(),
                    )
                },
                Err(error) => {
                    &&& error is FinalStateArity || error.is_step_error()
                    &&& error is FinalStateArity ==> error->FinalStateArity_count == plan_shapes(
                        builder@,
                        Seq::<ImageShape>::empty(),
                    ).len() && plan_shapes(builder@, Seq::<ImageShape>::empty()).len() != 1
                },
            },
            builder@.len() == 0 ==> image == Err::<Vec<u8>, EngineError>(
                EngineError::FinalStateArity { count: 0 },
            ),
    {
        let path: Vec<usize> = Vec::new();
        let initial: Vec<StepOutput> = Vec::new();
        assert(shapes_of(initial@) =~= Seq::<ImageShape>::empty());
        let (state, mut encoders) = match self.execute_pipeline(builder.steps(), initial, &path) {
            Ok(done) => done,
            Err(error) => {
                return Err(error);
            },
        };
        match self.submit_all(&mut encoders) {
            Ok(()) => {},
            Err(error) => {
                return Err(error);
            },
        }
        assert(shapes_of(state@).len() == state@.len());
        assert(state@.len() == 1 ==> shapes_of(state@)[0] == state@[0].shape());
        let count: usize = state.len();
        assert(count == shapes_of(state@).len());
        let ghost between = *self;
        let image = handle_final_process(self, state);
        proof {
            if image is Ok {
                if state@[0].shape().on_gpu {
                    assert(final_buffer_keys(state@[0].shape()) == buffer_keys(
                        state@[0].shape().width,
                        state@[0].shape().height,
                    ));
                } else {
                    lemma_follows_nothing(between.buffer_entries(), between.buffer_bound());
                }
            }
        }
        image
    }
}

} // verus!
