use std::sync::{Arc, Mutex};

use gpu_util::compiled_func::{CompiledFunc, CpuFunction, CpuInputImage, CpuOutput};
use gpu_util::compiled_wgsl::{CompiledWgsl, SamplerOptions};
use gpu_util::descriptors::{
    Addressing, Filtering, TexelFormat, OUTPUT_TEXTURE_USAGE, PACKED_BUFFER_USAGE,
    READBACK_BUFFER_USAGE, UPLOAD_TEXTURE_USAGE,
};
use gpu_util::error::EngineError;
use gpu_util::image_generate_builder::{ImageGenerateBuilder, PipelineStep};
use gpu_util::image_generator::{ImageGenerator, StepOutput, DEFAULT_CACHE_SIZE};

const FILL: &str = "
@group(0) @binding(0) var output_texture: texture_storage_2d<rgba32float, write>;

@compute @workgroup_size(16, 16, 1)
fn main(@builtin(global_invocation_id) id: vec3<u32>) {
    let size = textureDimensions(output_texture);
    if (id.x >= size.x || id.y >= size.y) {
        return;
    }
    textureStore(output_texture, vec2<u32>(id.x, id.y), vec4<f32>(1.0, 0.0, 0.0, 1.0));
}
";

const FILL_AT_BINDING_ONE: &str = "
@group(0) @binding(1) var output_texture: texture_storage_2d<rgba32float, write>;

@compute @workgroup_size(16, 16, 1)
fn main(@builtin(global_invocation_id) id: vec3<u32>) {
    textureStore(output_texture, vec2<u32>(id.x, id.y), vec4<f32>(1.0, 0.0, 0.0, 1.0));
}
";

const IDENTITY: &str = "
@group(0) @binding(0) var input_textures: binding_array<texture_2d<f32>>;
@group(0) @binding(1) var output_texture: texture_storage_2d<rgba32float, write>;

@compute @workgroup_size(16, 16, 1)
fn main(@builtin(global_invocation_id) id: vec3<u32>) {
    let size = textureDimensions(output_texture);
    if (id.x >= size.x || id.y >= size.y) {
        return;
    }
    let texel = textureLoad(input_textures[0], vec2<u32>(id.x, id.y), 0);
    textureStore(output_texture, vec2<u32>(id.x, id.y), texel);
}
";

const SCALED: &str = "
@group(0) @binding(0) var input_textures: binding_array<texture_2d<f32>>;
@group(0) @binding(1) var output_texture: texture_storage_2d<rgba32float, write>;
@group(1) @binding(0) var<storage, read> factors: array<f32>;

@compute @workgroup_size(16, 16, 1)
fn main(@builtin(global_invocation_id) id: vec3<u32>) {
    let texel = textureLoad(input_textures[0], vec2<u32>(id.x, id.y), 0);
    textureStore(output_texture, vec2<u32>(id.x, id.y), texel * factors[0]);
}
";

const SAMPLED: &str = "
@group(0) @binding(0) var input_textures: binding_array<texture_2d<f32>>;
@group(0) @binding(1) var output_texture: texture_storage_2d<rgba32float, write>;
@group(0) @binding(2) var nearest: sampler;

@compute @workgroup_size(16, 16, 1)
fn main(@builtin(global_invocation_id) id: vec3<u32>) {
    let texel = textureSampleLevel(input_textures[0], nearest, vec2<f32>(0.5, 0.5), 0.0);
    textureStore(output_texture, vec2<u32>(id.x, id.y), texel);
}
";

fn engine() -> ImageGenerator {
    let mut descriptor = wgpu::DeviceDescriptor::default();
    descriptor.required_features = wgpu::Features::TEXTURE_BINDING_ARRAY
        | wgpu::Features::SAMPLED_TEXTURE_AND_STORAGE_BUFFER_ARRAY_NON_UNIFORM_INDEXING;
    descriptor.required_limits.max_binding_array_elements_per_shader_stage = 1000;
    let (device, queue) = wgpu::Device::noop(&descriptor);
    ImageGenerator::with_device(device, queue).expect("the engine starts on the stub device")
}

fn shader(engine: &ImageGenerator, id: &str, source: &str) -> CompiledWgsl {
    CompiledWgsl::new(id, source, engine.device(), None).expect("the shader compiles")
}

fn bits(values: &[f32]) -> Vec<u32> {
    values.iter().map(|value| value.to_bits()).collect()
}

struct Constant {
    data: Vec<f32>,
    width: u32,
    height: u32,
}

impl CpuFunction for Constant {
    fn call(&self, _inputs: &[CpuInputImage], _params: Option<&[u8]>) -> Result<CpuOutput, String> {
        Ok(CpuOutput { data: bits(&self.data), width: self.width, height: self.height })
    }
}

struct First;

impl CpuFunction for First {
    fn call(&self, inputs: &[CpuInputImage], _params: Option<&[u8]>) -> Result<CpuOutput, String> {
        let first = inputs.first().ok_or_else(|| String::from("no input"))?;
        Ok(CpuOutput { data: first.data.to_vec(), width: first.width, height: first.height })
    }
}

struct Average;

impl CpuFunction for Average {
    fn call(&self, inputs: &[CpuInputImage], _params: Option<&[u8]>) -> Result<CpuOutput, String> {
        let first = inputs.first().ok_or_else(|| String::from("no input"))?;
        let mut sums = vec![0.0f32; first.data.len()];
        for input in inputs {
            for (sum, channel) in sums.iter_mut().zip(input.data.iter()) {
                *sum += f32::from_bits(*channel);
            }
        }
        let data = sums.iter().map(|sum| (sum / inputs.len() as f32).to_bits()).collect();
        Ok(CpuOutput { data, width: first.width, height: first.height })
    }
}

struct Failing;

impl CpuFunction for Failing {
    fn call(&self, _inputs: &[CpuInputImage], _params: Option<&[u8]>) -> Result<CpuOutput, String> {
        Err(String::from("the function gave up"))
    }
}

struct Recorder {
    seen: Arc<Mutex<Vec<Vec<(u32, u32, usize)>>>>,
    params: Arc<Mutex<Vec<Option<Vec<u8>>>>>,
    width: u32,
    height: u32,
}

impl CpuFunction for Recorder {
    fn call(&self, inputs: &[CpuInputImage], params: Option<&[u8]>) -> Result<CpuOutput, String> {
        let shapes = inputs.iter().map(|input| (input.width, input.height, input.data.len())).collect();
        self.seen.lock().unwrap().push(shapes);
        self.params.lock().unwrap().push(params.map(|bytes| bytes.to_vec()));
        let count = 4 * self.width as usize * self.height as usize;
        Ok(CpuOutput { data: vec![0; count], width: self.width, height: self.height })
    }
}

fn function(implementation: impl CpuFunction + 'static) -> CompiledFunc {
    CompiledFunc::new(Box::new(implementation))
}

fn red(width: u32, height: u32) -> Constant {
    let pixels = (width * height) as usize;
    Constant { data: [1.0, 0.0, 0.0, 1.0].repeat(pixels), width, height }
}

#[test]
fn new_engine_has_default_cache_sizes() {
    let engine = engine();
    assert_eq!(DEFAULT_CACHE_SIZE, 100);
    assert_eq!(engine.max_cache_size(), 100);
    assert_eq!(engine.max_texture_cache_size(), 100);
    assert_eq!(engine.max_buffer_cache_size(), 100);
    assert!(engine.cached_pipelines().is_empty());
    assert!(engine.cached_textures().is_empty());
    assert!(engine.cached_buffers().is_empty());
}

#[test]
fn constant_fill_gives_four_bytes_per_pixel() {
    let mut engine = engine();
    let fill = shader(&engine, "fill", FILL);
    let plan = ImageGenerateBuilder::new().add_wgsl(fill, None, 2, 2);
    let bytes = engine.generate(plan).expect("the plan runs");
    assert_eq!(bytes.len(), 16);
}

#[test]
fn one_by_one_image_gives_four_bytes() {
    let mut engine = engine();
    let fill = shader(&engine, "fill", FILL);
    let plan = ImageGenerateBuilder::new().add_wgsl(fill, None, 1, 1);
    assert_eq!(engine.generate(plan).expect("the plan runs").len(), 4);
    let plan = ImageGenerateBuilder::new().add_func(function(red(1, 1)), None, 1, 1);
    assert_eq!(engine.generate(plan).expect("the plan runs"), vec![0xFF, 0x00, 0x00, 0xFF]);
}

#[test]
fn sizes_that_are_no_multiple_of_sixteen() {
    let mut engine = engine();
    for (width, height) in [(17u32, 33u32), (15, 1), (31, 16), (100, 3)] {
        let fill = shader(&engine, "fill", FILL);
        let plan = ImageGenerateBuilder::new().add_wgsl(fill, None, width, height);
        let bytes = engine.generate(plan).expect("the plan runs");
        assert_eq!(bytes.len(), (4 * width * height) as usize);
    }
}

#[test]
fn generator_without_inputs_has_its_output_at_binding_zero() {
    let mut engine = engine();
    let fill = shader(&engine, "fill", FILL);
    let plan = ImageGenerateBuilder::new().add_wgsl(fill, None, 4, 4);
    assert!(engine.generate(plan).is_ok());
    let keys = engine.cached_pipelines();
    assert_eq!(keys.len(), 1);
    assert_eq!(keys[0].id, "fill");
    assert_eq!(keys[0].input_texture_count, 0);
    assert!(!keys[0].has_storage);
    assert!(!keys[0].has_sampler);

    let misplaced = shader(&engine, "misplaced", FILL_AT_BINDING_ONE);
    let plan = ImageGenerateBuilder::new().add_wgsl(misplaced, None, 4, 4);
    assert!(matches!(engine.generate(plan), Err(EngineError::Device(_))));
    assert_eq!(engine.cached_pipelines().len(), 1);
}

#[test]
fn step_with_inputs_has_its_output_at_binding_one() {
    let mut engine = engine();
    let fill = shader(&engine, "fill", FILL);
    let identity = shader(&engine, "identity", IDENTITY);
    let plan = ImageGenerateBuilder::new().add_wgsl(fill, None, 4, 4).add_wgsl(identity, None, 4, 4);
    assert_eq!(engine.generate(plan).expect("the plan runs").len(), 64);
    let keys = engine.cached_pipelines();
    assert_eq!(keys.len(), 2);
    assert_eq!(keys[1].id, "identity");
    assert_eq!(keys[1].input_texture_count, 1);

    let fill = shader(&engine, "fill", FILL);
    let misplaced = shader(&engine, "misplaced", FILL);
    let plan = ImageGenerateBuilder::new().add_wgsl(fill, None, 4, 4).add_wgsl(misplaced, None, 4, 4);
    assert!(matches!(engine.generate(plan), Err(EngineError::Device(_))));
}

#[test]
fn parameters_are_bound_in_their_own_group() {
    let mut engine = engine();
    let fill = shader(&engine, "fill", FILL);
    let scaled = shader(&engine, "scaled", SCALED);
    let params = 0.5f32.to_ne_bytes().to_vec();
    let plan = ImageGenerateBuilder::new()
        .add_wgsl(fill, None, 4, 4)
        .add_wgsl(scaled, Some(params), 4, 4);
    assert_eq!(engine.generate(plan).expect("the plan runs").len(), 64);
    let keys = engine.cached_pipelines();
    assert!(keys[1].has_storage);

    let fill = shader(&engine, "fill", FILL);
    let scaled = shader(&engine, "scaled", SCALED);
    let plan = ImageGenerateBuilder::new()
        .add_wgsl(fill, None, 4, 4)
        .add_wgsl(scaled, Some(vec![1, 2, 3, 4, 5]), 4, 4);
    assert_eq!(engine.generate(plan).expect("odd parameter lengths are padded").len(), 64);
}

#[test]
fn sampler_follows_the_output_texture() {
    let mut engine = engine();
    let options = SamplerOptions { address_mode: Addressing::ClampToEdge, filter: Filtering::Nearest };
    let fill = shader(&engine, "fill", FILL);
    let sampled = CompiledWgsl::new("sampled", SAMPLED, engine.device(), Some(&options))
        .expect("the shader compiles");
    let plan = ImageGenerateBuilder::new().add_wgsl(fill, None, 4, 4).add_wgsl(sampled, None, 4, 4);
    assert_eq!(engine.generate(plan).expect("the plan runs").len(), 64);
    let keys = engine.cached_pipelines();
    assert!(keys[1].has_sampler);
}

#[test]
fn shader_that_does_not_compile_is_refused() {
    let engine = engine();
    let refused = CompiledWgsl::new("broken", "fn main( {", engine.device(), None);
    assert!(matches!(refused, Err(EngineError::Compilation(_))));
}

#[test]
fn saturation() {
    let mut engine = engine();
    let func = function(Constant { data: vec![2.0, -1.0, 0.5, 0.5], width: 1, height: 1 });
    let plan = ImageGenerateBuilder::new().add_func(func, None, 1, 1);
    assert_eq!(engine.generate(plan).expect("the plan runs"), vec![0xFF, 0x00, 0x7F, 0x7F]);
}

#[test]
fn cpu_function_dimension_error() {
    let mut engine = engine();
    let func = function(Constant { data: vec![0.0; 4], width: 4, height: 4 });
    let plan = ImageGenerateBuilder::new().add_func(func, None, 4, 4);
    assert_eq!(
        engine.generate(plan),
        Err(EngineError::CpuOutputSize { expected: 64, actual: 4 })
    );
    let func = function(Constant { data: vec![0.0; 64], width: 2, height: 2 });
    let plan = ImageGenerateBuilder::new().add_func(func, None, 4, 4);
    assert_eq!(
        engine.generate(plan),
        Err(EngineError::CpuOutputSize { expected: 64, actual: 64 })
    );
}

#[test]
fn cpu_function_error_ends_the_run() {
    let mut engine = engine();
    let plan = ImageGenerateBuilder::new().add_func(function(Failing), None, 1, 1);
    assert_eq!(
        engine.generate(plan),
        Err(EngineError::CpuFunction(String::from("the function gave up")))
    );
}

#[test]
fn final_state_must_hold_one_image() {
    let mut engine = engine();
    assert_eq!(
        engine.generate(ImageGenerateBuilder::new()),
        Err(EngineError::FinalStateArity { count: 0 })
    );
    let left = ImageGenerateBuilder::new().add_func(function(red(1, 1)), None, 1, 1);
    let right = ImageGenerateBuilder::new().add_func(function(red(1, 1)), None, 1, 1);
    let plan = ImageGenerateBuilder::new().add_parallel_wgsl(vec![left, right]);
    assert_eq!(engine.generate(plan), Err(EngineError::FinalStateArity { count: 2 }));
}

#[test]
fn parallel_identity_on_cpu_images() {
    let mut engine = engine();
    let source = function(red(2, 2));
    let left = ImageGenerateBuilder::new().add_func(function(First), None, 2, 2);
    let right = ImageGenerateBuilder::new().add_func(function(First), None, 2, 2);
    let plan = ImageGenerateBuilder::new()
        .add_func(source, None, 2, 2)
        .add_parallel_wgsl(vec![left, right])
        .add_func(function(Average), None, 2, 2);
    let bytes = engine.generate(plan).expect("the plan runs");
    assert_eq!(bytes, [0xFF, 0x00, 0x00, 0xFF].repeat(4));
}

#[test]
fn parallel_with_one_identity_plan_is_the_plan() {
    let mut engine = engine();
    let inner = ImageGenerateBuilder::new().add_func(function(First), None, 2, 2);
    let wrapped = ImageGenerateBuilder::new()
        .add_func(function(red(2, 2)), None, 2, 2)
        .add_parallel_wgsl(vec![inner.clone()]);
    let plain = ImageGenerateBuilder::new()
        .add_func(function(red(2, 2)), None, 2, 2)
        .add_func(function(First), None, 2, 2);
    let wrapped = engine.generate(wrapped).expect("the plan runs");
    let plain = engine.generate(plain).expect("the plan runs");
    assert_eq!(wrapped, plain);
}

#[test]
fn parallel_gpu_plans_reach_the_cpu_step_in_order() {
    let mut engine = engine();
    let seen = Arc::new(Mutex::new(Vec::new()));
    let params = Arc::new(Mutex::new(Vec::new()));
    let merge = function(Recorder { seen: seen.clone(), params: params.clone(), width: 4, height: 4 });
    let a = shader(&engine, "a", FILL);
    let b = shader(&engine, "b", IDENTITY);
    let c = shader(&engine, "c", IDENTITY);
    let d = shader(&engine, "d", IDENTITY);
    let first = ImageGenerateBuilder::new().add_wgsl(b, None, 4, 4);
    let second = ImageGenerateBuilder::new().add_wgsl(c, None, 8, 2);
    let plan = ImageGenerateBuilder::new()
        .add_wgsl(a, None, 4, 4)
        .add_parallel_wgsl(vec![first, second])
        .add_func(merge, Some(vec![7, 8, 9]), 4, 4)
        .add_wgsl(d, None, 4, 4);
    let bytes = engine.generate(plan).expect("the plan runs");
    assert_eq!(bytes.len(), 64);
    assert_eq!(*seen.lock().unwrap(), vec![vec![(4, 4, 64), (8, 2, 64)]]);
    assert_eq!(*params.lock().unwrap(), vec![Some(vec![7, 8, 9])]);
}

#[test]
fn sibling_plans_do_not_share_textures() {
    let mut engine = engine();
    let a = shader(&engine, "a", FILL);
    let b = shader(&engine, "b", IDENTITY);
    let c = shader(&engine, "c", IDENTITY);
    let first = ImageGenerateBuilder::new().add_wgsl(b, None, 4, 4);
    let second = ImageGenerateBuilder::new().add_wgsl(c, None, 4, 4);
    let plan = ImageGenerateBuilder::new()
        .add_wgsl(a, None, 4, 4)
        .add_parallel_wgsl(vec![first, second])
        .add_func(function(First), None, 4, 4);
    assert!(engine.generate(plan).is_ok());
    let keys = engine.cached_textures();
    assert_eq!(keys.len(), 3);
    let places: Vec<(Vec<usize>, usize, usize)> =
        keys.iter().map(|key| (key.path.clone(), key.step, key.slot)).collect();
    assert_eq!(places, vec![(vec![], 0, 0), (vec![1, 0], 0, 1), (vec![1, 1], 0, 1)]);
}

#[test]
fn cpu_images_of_one_step_do_not_share_textures() {
    let mut engine = engine();
    let left = ImageGenerateBuilder::new().add_func(function(red(2, 2)), None, 2, 2);
    let right = ImageGenerateBuilder::new().add_func(function(red(2, 2)), None, 2, 2);
    let identity = shader(&engine, "identity", IDENTITY);
    let plan = ImageGenerateBuilder::new()
        .add_parallel_wgsl(vec![left, right])
        .add_wgsl(identity, None, 2, 2);
    assert_eq!(engine.generate(plan).expect("the plan runs").len(), 16);
    let keys = engine.cached_textures();
    let slots: Vec<(usize, usize, u32)> = keys.iter().map(|key| (key.step, key.slot, key.usage)).collect();
    assert_eq!(slots, vec![(1, 0, 6), (1, 1, 6), (1, 2, 13)]);
    assert_eq!(engine.cached_pipelines()[0].input_texture_count, 2);
}

#[test]
fn cache_size_enforcement() {
    let mut engine = engine();
    engine.set_max_cache_size(2);
    assert_eq!(engine.max_cache_size(), 2);
    for _ in 0..3 {
        let a = shader(&engine, "a", FILL);
        let b = shader(&engine, "b", IDENTITY);
        let c = shader(&engine, "c", IDENTITY);
        let plan = ImageGenerateBuilder::new()
            .add_wgsl(a, None, 2, 2)
            .add_wgsl(b, None, 2, 2)
            .add_wgsl(c, None, 2, 2);
        assert_eq!(engine.generate(plan).expect("the plan runs").len(), 16);
        let ids: Vec<String> = engine.cached_pipelines().iter().map(|key| key.id.clone()).collect();
        assert_eq!(ids, vec![String::from("b"), String::from("c")]);
    }
}

#[test]
fn shrinking_a_cache_evicts_at_once() {
    let mut engine = engine();
    let a = shader(&engine, "a", FILL);
    let b = shader(&engine, "b", IDENTITY);
    let plan = ImageGenerateBuilder::new().add_wgsl(a, None, 2, 2).add_wgsl(b, None, 3, 3);
    assert!(engine.generate(plan).is_ok());
    assert_eq!(engine.cached_pipelines().len(), 2);
    assert_eq!(engine.cached_textures().len(), 2);
    assert_eq!(engine.cached_buffers().len(), 2);
    engine.set_max_cache_size(1);
    assert_eq!(engine.cached_pipelines().len(), 1);
    assert_eq!(engine.cached_pipelines()[0].id, "b");
    engine.set_max_texture_cache_size(0);
    assert!(engine.cached_textures().is_empty());
    engine.set_max_buffer_cache_size(1);
    assert_eq!(engine.cached_buffers().len(), 1);
    assert_eq!(engine.cached_buffers()[0].usage, 9);
    assert_eq!(engine.cached_buffers()[0].size, 36);
    engine.set_max_cache_size(0);
    let a = shader(&engine, "a", FILL);
    let plan = ImageGenerateBuilder::new().add_wgsl(a, None, 2, 2);
    assert_eq!(engine.generate(plan).expect("a cache of no entries still serves").len(), 16);
    assert!(engine.cached_pipelines().is_empty());
    assert!(engine.cached_textures().is_empty());
}

#[test]
fn repeated_runs_reuse_the_caches() {
    let mut engine = engine();
    for _ in 0..4 {
        let a = shader(&engine, "a", FILL);
        let b = shader(&engine, "b", IDENTITY);
        let plan = ImageGenerateBuilder::new().add_wgsl(a, None, 5, 7).add_wgsl(b, None, 5, 7);
        assert_eq!(engine.generate(plan).expect("the plan runs").len(), 140);
        assert_eq!(engine.cached_pipelines().len(), 2);
        assert_eq!(engine.cached_textures().len(), 2);
        assert_eq!(engine.cached_buffers().len(), 2);
    }
}

#[test]
fn download_hands_the_function_a_tight_image() {
    let mut engine = engine();
    let seen = Arc::new(Mutex::new(Vec::new()));
    let params = Arc::new(Mutex::new(Vec::new()));
    let merge = function(Recorder { seen: seen.clone(), params: params.clone(), width: 1, height: 1 });
    let fill = shader(&engine, "fill", FILL);
    let plan = ImageGenerateBuilder::new().add_wgsl(fill, None, 5, 3).add_func(merge, None, 1, 1);
    assert_eq!(engine.generate(plan).expect("the plan runs"), vec![0, 0, 0, 0]);
    assert_eq!(*seen.lock().unwrap(), vec![vec![(5, 3, 60)]]);
    assert_eq!(*params.lock().unwrap(), vec![None]);
}

#[test]
fn execute_pipeline_starts_from_the_given_images() {
    let mut engine = engine();
    let data = Arc::new(bits(&[1.0, 0.0, 0.0, 1.0].repeat(4)));
    let initial = vec![StepOutput::Cpu { data, width: 2, height: 2 }];
    let identity = shader(&engine, "identity", IDENTITY);
    let plan = ImageGenerateBuilder::new().add_wgsl(identity, None, 2, 2);
    let (state, encoders) =
        engine.execute_pipeline(plan.steps(), initial, &Vec::new()).expect("the plan runs");
    assert_eq!(encoders.len(), 1);
    assert_eq!(state.len(), 1);
    assert!(matches!(state[0], StepOutput::Gpu { width: 2, height: 2, .. }));

    let short = vec![StepOutput::Cpu { data: Arc::new(vec![0; 3]), width: 2, height: 2 }];
    let refused = engine.execute_pipeline(plan.steps(), short, &Vec::new());
    assert!(matches!(refused, Err(EngineError::ImageSize { expected: 16, actual: 3 })));

    let empty = ImageGenerateBuilder::new();
    let kept = vec![StepOutput::Cpu { data: Arc::new(vec![0; 4]), width: 1, height: 1 }];
    let (state, encoders) =
        engine.execute_pipeline(empty.steps(), kept, &Vec::new()).expect("nothing to fail");
    assert_eq!(state.len(), 1);
    assert!(encoders.is_empty());
}

#[test]
fn builder_leaves_the_original_plan_as_it_was() {
    let engine = engine();
    let base = ImageGenerateBuilder::new().add_func(function(red(1, 1)), None, 1, 1);
    assert_eq!(base.len(), 1);
    let longer = base.clone().add_wgsl(shader(&engine, "identity", IDENTITY), Some(vec![1, 2]), 3, 4);
    let other = base.clone().add_parallel_wgsl(vec![base.clone(), longer.clone()]);
    assert_eq!(base.len(), 1);
    assert_eq!(longer.len(), 2);
    assert_eq!(other.len(), 2);
    assert!(matches!(base.steps()[0], PipelineStep::CpuFunc { output_width: 1, output_height: 1, .. }));
    assert!(matches!(longer.steps()[0], PipelineStep::CpuFunc { .. }));
    match &longer.steps()[1] {
        PipelineStep::Wgsl { wgsl, params, output_width, output_height } => {
            assert_eq!(wgsl.id(), "identity");
            assert_eq!(params.as_deref(), Some(&vec![1, 2]));
            assert_eq!((*output_width, *output_height), (3, 4));
        }
        _ => panic!("the second step is the compute step"),
    }
    match &other.steps()[1] {
        PipelineStep::Parallel { pipelines } => {
            assert_eq!(pipelines.len(), 2);
            assert_eq!(pipelines[0].len(), 1);
            assert_eq!(pipelines[1].len(), 2);
        }
        _ => panic!("the second step is the parallel step"),
    }
}

#[test]
fn nested_parallel_plans_hand_finished_images_to_the_function() {
    let mut engine = engine();
    let seen = Arc::new(Mutex::new(Vec::new()));
    let params = Arc::new(Mutex::new(Vec::new()));
    let merge = function(Recorder { seen: seen.clone(), params: params.clone(), width: 2, height: 2 });
    let a = shader(&engine, "a", FILL);
    let innermost = ImageGenerateBuilder::new().add_func(merge, None, 2, 2);
    let inner = ImageGenerateBuilder::new().add_parallel_wgsl(vec![innermost]);
    let plan = ImageGenerateBuilder::new().add_wgsl(a, None, 3, 3).add_parallel_wgsl(vec![inner]);
    assert_eq!(engine.generate(plan).expect("the plan runs").len(), 16);
    assert_eq!(*seen.lock().unwrap(), vec![vec![(3, 3, 36)]]);
}

#[test]
fn engine_on_the_machine_starts_or_reports_the_missing_device() {
    match ImageGenerator::new() {
        Ok(engine) => {
            assert_eq!(engine.max_cache_size(), 100);
            assert!(engine.cached_pipelines().is_empty());
        }
        Err(error) => assert!(matches!(error, EngineError::Bootstrap(_))),
    }
}

#[test]
fn textures_are_cached_by_place_size_format_and_usage() {
    let mut engine = engine();
    let path = vec![2usize, 1];
    let mut get = |engine: &mut ImageGenerator, path: &Vec<usize>, step, slot, width, format, usage| {
        engine
            .get_or_create_texture(path, step, slot, width, 4, format, usage, "a texture")
            .expect("the device makes the texture")
    };
    let float32 = TexelFormat::Rgba32Float;
    let first = get(&mut engine, &path, 0, 0, 4, float32, OUTPUT_TEXTURE_USAGE);
    let again = get(&mut engine, &path, 0, 0, 4, float32, OUTPUT_TEXTURE_USAGE);
    assert!(Arc::ptr_eq(&first, &again));
    assert_eq!((first.width(), first.height()), (4, 4));
    assert_eq!(first.format(), wgpu::TextureFormat::Rgba32Float);
    assert_eq!(first.usage().bits(), OUTPUT_TEXTURE_USAGE);
    let others = [
        get(&mut engine, &vec![2, 0], 0, 0, 4, float32, OUTPUT_TEXTURE_USAGE),
        get(&mut engine, &vec![], 0, 0, 4, float32, OUTPUT_TEXTURE_USAGE),
        get(&mut engine, &path, 1, 0, 4, float32, OUTPUT_TEXTURE_USAGE),
        get(&mut engine, &path, 0, 1, 4, float32, OUTPUT_TEXTURE_USAGE),
        get(&mut engine, &path, 0, 0, 5, float32, OUTPUT_TEXTURE_USAGE),
        get(&mut engine, &path, 0, 0, 4, TexelFormat::Rgba16Float, OUTPUT_TEXTURE_USAGE),
        get(&mut engine, &path, 0, 0, 4, float32, UPLOAD_TEXTURE_USAGE),
    ];
    for other in &others {
        assert!(!Arc::ptr_eq(&first, other));
    }
    assert_eq!(others[5].format(), wgpu::TextureFormat::Rgba16Float);
    assert_eq!(others[6].usage().bits(), UPLOAD_TEXTURE_USAGE);
    assert_eq!(engine.cached_textures().len(), 8);
    let refused = engine.get_or_create_texture(&path, 9, 9, 0, 0, float32, OUTPUT_TEXTURE_USAGE, "empty");
    assert!(matches!(refused, Err(EngineError::Device(_))));
    assert_eq!(engine.cached_textures().len(), 8);
    assert_eq!(engine.cached_textures()[7].usage, UPLOAD_TEXTURE_USAGE);
}

#[test]
fn buffers_are_cached_by_size_and_usage() {
    let mut engine = engine();
    engine.set_max_buffer_cache_size(2);
    let packed = engine.get_or_create_buffer(64, PACKED_BUFFER_USAGE, "packed").expect("a buffer");
    let readback = engine.get_or_create_buffer(64, READBACK_BUFFER_USAGE, "readback").expect("a buffer");
    assert!(!Arc::ptr_eq(&packed, &readback));
    assert_eq!(packed.size(), 64);
    assert_eq!(readback.size(), 64);
    let again = engine.get_or_create_buffer(64, PACKED_BUFFER_USAGE, "packed").expect("a hit");
    assert!(Arc::ptr_eq(&packed, &again));
    let sizes: Vec<(u64, u32)> = engine.cached_buffers().iter().map(|key| (key.size, key.usage)).collect();
    assert_eq!(sizes, vec![(64, READBACK_BUFFER_USAGE), (64, PACKED_BUFFER_USAGE)]);
    engine.get_or_create_buffer(128, PACKED_BUFFER_USAGE, "larger").expect("a buffer");
    let sizes: Vec<(u64, u32)> = engine.cached_buffers().iter().map(|key| (key.size, key.usage)).collect();
    assert_eq!(sizes, vec![(64, PACKED_BUFFER_USAGE), (128, PACKED_BUFFER_USAGE)]);
    let fresh = engine.get_or_create_buffer(64, READBACK_BUFFER_USAGE, "readback").expect("a buffer");
    assert!(!Arc::ptr_eq(&readback, &fresh));
}

#[test]
fn samplers_of_every_kind() {
    let engine = engine();
    for (address_mode, filter) in [
        (Addressing::ClampToEdge, Filtering::Nearest),
        (Addressing::Repeat, Filtering::Linear),
        (Addressing::MirrorRepeat, Filtering::Nearest),
    ] {
        let options = SamplerOptions { address_mode, filter };
        let compiled = CompiledWgsl::new("sampled", SAMPLED, engine.device(), Some(&options))
            .expect("the sampler is made");
        assert!(compiled.uses_sampler());
        assert_eq!(compiled.sampler_filters(), filter == Filtering::Linear);
        assert_eq!(compiled.id(), "sampled");
    }
    let border = SamplerOptions { address_mode: Addressing::ClampToBorder, filter: Filtering::Nearest };
    let refused = CompiledWgsl::new("sampled", SAMPLED, engine.device(), Some(&border));
    assert!(matches!(refused, Err(EngineError::Compilation(_))));
    let plain = CompiledWgsl::new("plain", FILL, engine.device(), None).expect("the shader compiles");
    assert!(!plain.uses_sampler());
}

#[test]
fn filtering_sampler_on_float_textures_is_refused_at_first_use() {
    let mut engine = engine();
    let options = SamplerOptions { address_mode: Addressing::Repeat, filter: Filtering::Linear };
    let fill = shader(&engine, "fill", FILL);
    let sampled = CompiledWgsl::new("sampled", SAMPLED, engine.device(), Some(&options))
        .expect("the shader compiles");
    let plan = ImageGenerateBuilder::new().add_wgsl(fill, None, 4, 4).add_wgsl(sampled, None, 4, 4);
    match engine.generate(plan) {
        Err(EngineError::Device(message)) => assert!(message.contains("filter")),
        other => panic!("the device takes no filtering sampler here: {other:?}"),
    }
    let ids: Vec<String> = engine.cached_pipelines().iter().map(|key| key.id.clone()).collect();
    assert_eq!(ids, vec![String::from("fill")]);
}

#[test]
fn batches_stay_recorded_until_a_cpu_step_submits_them() {
    let mut engine = engine();
    let fill = |engine: &ImageGenerator| shader(engine, "fill", FILL);
    let identity = |engine: &ImageGenerator| shader(engine, "identity", IDENTITY);
    let pending = |engine: &mut ImageGenerator, plan: ImageGenerateBuilder| {
        let (_, encoders) =
            engine.execute_pipeline(plan.steps(), Vec::new(), &Vec::new()).expect("the plan runs");
        encoders.len()
    };
    let two = ImageGenerateBuilder::new()
        .add_wgsl(fill(&engine), None, 2, 2)
        .add_wgsl(identity(&engine), None, 2, 2);
    assert_eq!(pending(&mut engine, two.clone()), 2);
    assert_eq!(pending(&mut engine, ImageGenerateBuilder::new()), 0);
    let then_cpu = two.clone().add_func(function(First), None, 2, 2);
    assert_eq!(pending(&mut engine, then_cpu.clone()), 0);
    let then_gpu = then_cpu.clone().add_wgsl(identity(&engine), None, 2, 2);
    assert_eq!(pending(&mut engine, then_gpu), 1);
    let gpu_plans = vec![
        ImageGenerateBuilder::new().add_wgsl(identity(&engine), None, 2, 2),
        ImageGenerateBuilder::new()
            .add_wgsl(identity(&engine), None, 2, 2)
            .add_wgsl(identity(&engine), None, 2, 2),
    ];
    let fanned = two.clone().add_parallel_wgsl(gpu_plans);
    assert_eq!(pending(&mut engine, fanned), 5);
    let cpu_plans = vec![
        ImageGenerateBuilder::new().add_wgsl(identity(&engine), None, 2, 2),
        ImageGenerateBuilder::new().add_func(function(First), None, 2, 2),
    ];
    let flushed = two.clone().add_parallel_wgsl(cpu_plans);
    assert_eq!(pending(&mut engine, flushed), 1);
}

#[test]
fn plans_without_steps_hand_the_images_on_as_they_are() {
    let mut engine = engine();
    let data = Arc::new(bits(&[0.5, 0.5, 0.5, 1.0]));
    let image = || vec![StepOutput::Cpu { data: data.clone(), width: 1, height: 1 }];
    let same = |output: &StepOutput| match output {
        StepOutput::Cpu { data: held, width: 1, height: 1 } => Arc::ptr_eq(held, &data),
        _ => false,
    };
    let empty = ImageGenerateBuilder::new();

    let (state, encoders) =
        engine.execute_pipeline(empty.steps(), image(), &Vec::new()).expect("nothing to fail");
    assert!(encoders.is_empty());
    assert_eq!(state.len(), 1);
    assert!(same(&state[0]));

    let once = ImageGenerateBuilder::new().add_parallel_wgsl(vec![empty.clone()]);
    let (state, encoders) =
        engine.execute_pipeline(once.steps(), image(), &Vec::new()).expect("nothing to fail");
    assert!(encoders.is_empty());
    assert_eq!(state.len(), 1);
    assert!(same(&state[0]));

    let thrice = ImageGenerateBuilder::new()
        .add_parallel_wgsl(vec![empty.clone(), empty.clone(), empty.clone()]);
    let (state, encoders) =
        engine.execute_pipeline(thrice.steps(), image(), &Vec::new()).expect("nothing to fail");
    assert!(encoders.is_empty());
    assert_eq!(state.len(), 3);
    assert!(state.iter().all(same));

    let none = ImageGenerateBuilder::new().add_parallel_wgsl(Vec::new());
    let (state, encoders) =
        engine.execute_pipeline(none.steps(), image(), &Vec::new()).expect("nothing to fail");
    assert!(encoders.is_empty());
    assert!(state.is_empty());
    assert!(engine.cached_textures().is_empty());
    assert!(engine.cached_pipelines().is_empty());
    assert!(engine.cached_buffers().is_empty());
    assert_eq!(engine.generate(none), Err(EngineError::FinalStateArity { count: 0 }));
    assert_eq!(engine.generate(once), Err(EngineError::FinalStateArity { count: 0 }));
}

#[test]
fn cached_buffers_have_the_size_they_are_cached_under() {
    let mut engine = engine();
    for size in [4u64, 64, 4096] {
        let made = engine.get_or_create_buffer(size, READBACK_BUFFER_USAGE, "sized").expect("a buffer");
        assert_eq!(made.size(), size);
        let again = engine.get_or_create_buffer(size, READBACK_BUFFER_USAGE, "sized").expect("a hit");
        assert_eq!(again.size(), size);
    }
    let empty = engine.get_or_create_buffer(0, READBACK_BUFFER_USAGE, "empty").expect("a buffer");
    assert_eq!(empty.size(), 0);
}
