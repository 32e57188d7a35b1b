//! The compute step.

use crate::compiled_wgsl::CompiledWgsl;
use crate::descriptors::{
    TexelFormat, BUFFER_COPY_DST, BUFFER_STORAGE, OUTPUT_TEXTURE_USAGE, UPLOAD_TEXTURE_USAGE,
};
use crate::device::{
    bind_buffer, bind_group_layout_of, bind_sampler, bind_texture, bind_texture_array,
    create_bind_group, create_buffer, create_command_encoder, create_view,
    words_as_bytes, write_buffer, write_texture,
};
use crate::error::EngineError;
use crate::image_generator::{
    ImageGenerator, ImageShape, PipelineCacheKey, ProcessingState, StepOutput, TextureKeyView,
    TexturePlace,
};
use crate::image_generator::shapes_of;
use crate::lru_cache::{
    follows, has_key, lemma_follows_in_a_row, lemma_follows_nothing, lemma_follows_one, value_of,
};
use crate::lru_laws::lemma_use_then_hit;
use crate::layout::{output_binding, row_bytes, sampler_binding, workgroup_count};
use std::sync::Arc;
use vstd::prelude::*;

verus! {

/// What keeps an image of a state from being read by a compute step, if
/// anything does: channels in CPU memory that are not four for each pixel, or
/// rows too long to count in 32 bits.
pub open spec fn image_fault(image: StepOutput) -> Option<EngineError> {
    match image {
        StepOutput::Gpu { .. } => None,
        StepOutput::Cpu { data, width, height } => {
            if data@.len() != 4 * width * height {
                Some(
                    EngineError::ImageSize {
                        expected: (4 * width * height) as u128,
                        actual: data@.len() as u128,
                    },
                )
            } else if 16 * width > u32::MAX {
                Some(EngineError::ImageTooLarge { width, height })
            } else {
                None
            }
        },
    }
}

/// The fault of the first image of a state that has one.
pub open spec fn first_fault(state: Seq<StepOutput>) -> Option<EngineError>
    decreases state.len(),
{
    if state.len() == 0 {
        None
    } else if image_fault(state.first()).is_some() {
        image_fault(state.first())
    } else {
        first_fault(state.drop_first())
    }
}

/// What keeps a state from being read by a compute step, if anything does:
/// the fault of its first faulty image, or more images than 32 bits count.
pub open spec fn state_fault(state: Seq<StepOutput>) -> Option<EngineError> {
    if first_fault(state).is_some() {
        first_fault(state)
    } else if state.len() > u32::MAX {
        Some(EngineError::TooManyInputs { count: state.len() as usize })
    } else {
        None
    }
}

/// Finds what keeps one image from being read by a compute step.
pub fn check_image(image: &StepOutput) -> (fault: Option<EngineError>)
    ensures
        fault == image_fault(*image),
{
    match image {
        StepOutput::Gpu { .. } => None,
        StepOutput::Cpu { data, width, height } => {
            let expected: u128 = crate::compiled_func::channel_count(*width, *height);
            let actual: u128 = data.len() as u128;
            if actual != expected {
                Some(EngineError::ImageSize { expected, actual })
            } else if row_bytes(*width) > 0xffff_ffffu64 {
                Some(EngineError::ImageTooLarge { width: *width, height: *height })
            } else {
                None
            }
        },
    }
}

/// Finds what keeps a state from being read by a compute step.
pub fn check_state(state: &Vec<StepOutput>) -> (fault: Option<EngineError>)
    ensures
        fault == state_fault(state@),
        fault.is_some() ==> fault.unwrap().is_step_error(),
{
    let mut i: usize = 0;
    assert(state@.subrange(0, state@.len() as int) =~= state@);
    while i < state.len()
        invariant
            i <= state@.len(),
            first_fault(state@) == first_fault(state@.subrange(i as int, state@.len() as int)),
        decreases state@.len() - i,
    {
        let ghost rest = state@.subrange(i as int, state@.len() as int);
        assert(rest.first() == state@[i as int]);
        assert(rest.drop_first() =~= state@.subrange(i + 1, state@.len() as int));
        let fault = check_image(&state[i]);
        if fault.is_some() {
            return fault;
        }
        i = i + 1;
    }
    assert(state@.subrange(i as int, state@.len() as int).len() == 0);
    if state.len() > 0xffff_ffffusize {
        Some(EngineError::TooManyInputs { count: state.len() })
    } else {
        None
    }
}

/// The number of zero bytes that follow parameters of `length` bytes in
/// their storage buffer.
pub open spec fn padding_of(length: nat) -> nat {
    ((4 - length % 4) % 4) as nat
}

/// Parameter bytes as they go into a storage buffer: the bytes, followed by
/// zeros up to the next multiple of four.
pub open spec fn padded_params(params: Seq<u8>) -> Seq<u8> {
    params + Seq::new(padding_of(params.len()), |i: int| 0u8)
}

/// Pads parameter bytes with zeros to a multiple of four bytes, the unit in
/// which the device copies. The step asks the device for the buffer and for
/// the write of the padded bytes one after the other, so that a buffer the
/// device refuses is an error of the step.
pub fn pad_params(params: &Vec<u8>) -> (padded: Vec<u8>)
    ensures
        padded@ == padded_params(params@),
        padded@.len() % 4 == 0,
        params@.len() <= padded@.len() < params@.len() + 4,
{
    let length: usize = params.len();
    let missing: usize = (4 - length % 4) % 4;
    let mut padded: Vec<u8> = Vec::with_capacity(length);
    let mut i: usize = 0;
    while i < length
        invariant
            length == params@.len(),
            i <= length,
            padded@.len() == i,
            forall|j: int| 0 <= j < i ==> padded@[j] == params@[j],
        decreases length - i,
    {
        padded.push(params[i]);
        i = i + 1;
    }
    let mut added: usize = 0;
    while added < missing
        invariant
            length == params@.len(),
            added <= missing < 4,
            padded@.len() == length + added,
            forall|j: int| 0 <= j < length ==> padded@[j] == params@[j],
            forall|j: int| length <= j < length + added ==> padded@[j] == 0u8,
        decreases missing - added,
    {
        padded.push(0u8);
        added = added + 1;
    }
    assert(padded@ =~= padded_params(params@));
    padded
}

/// What the texture is cached under that receives the image at `index` of
/// the state of a compute step, an image of the shape `shape`.
pub open spec fn upload_key(path: Seq<usize>, step: usize, index: int, shape: ImageShape) -> TextureKeyView {
    TextureKeyView {
        place: TexturePlace { path, step, slot: index as usize },
        width: shape.width,
        height: shape.height,
        format: TexelFormat::Rgba32Float,
        usage: UPLOAD_TEXTURE_USAGE,
    }
}

/// What the output texture of a compute step with `inputs` inputs is cached
/// under.
pub open spec fn output_key(path: Seq<usize>, step: usize, inputs: nat, width: u32, height: u32) -> TextureKeyView {
    TextureKeyView {
        place: TexturePlace { path, step, slot: inputs as usize },
        width,
        height,
        format: TexelFormat::Rgba32Float,
        usage: OUTPUT_TEXTURE_USAGE,
    }
}

/// The keys of the textures that images of the shapes `shapes` are uploaded
/// to, in their order. Images on the device need no upload.
pub open spec fn upload_keys(shapes: Seq<ImageShape>, path: Seq<usize>, step: usize) -> Seq<
    TextureKeyView,
>
    decreases shapes.len(),
{
    if shapes.len() == 0 {
        Seq::empty()
    } else if shapes.last().on_gpu {
        upload_keys(shapes.drop_last(), path, step)
    } else {
        upload_keys(shapes.drop_last(), path, step).push(
            upload_key(path, step, shapes.len() - 1, shapes.last()),
        )
    }
}

/// The keys of the textures that a compute step uses on images of the shapes
/// `shapes`, in the order it uses them: one for each image in CPU memory,
/// then the one of the output.
pub open spec fn texture_keys(
    shapes: Seq<ImageShape>,
    path: Seq<usize>,
    step: usize,
    width: u32,
    height: u32,
) -> Seq<TextureKeyView> {
    upload_keys(shapes, path, step).push(output_key(path, step, shapes.len(), width, height))
}

/// What the pipeline of a compute step is cached under.
pub open spec fn pipeline_key(wgsl: CompiledWgsl, inputs: nat, has_params: bool) -> (
    Seq<char>,
    u32,
    bool,
    bool,
) {
    (wgsl.id_view(), inputs as u32, has_params, wgsl.has_sampler())
}

/// What a compute step does to the caches when it succeeds: it uses the
/// texture keys of `texture_keys` in order and then the pipeline key of
/// `pipeline_key`, and leaves the buffer cache alone. The texture of the image
/// it leaves is the one that the texture cache then holds under the key of
/// the output, if the cache holds anything at all.
pub open spec fn caches_after_step(
    before: ImageGenerator,
    after: ImageGenerator,
    shapes: Seq<ImageShape>,
    wgsl: CompiledWgsl,
    has_params: bool,
    path: Seq<usize>,
    step: usize,
    width: u32,
    height: u32,
    left: StepOutput,
) -> bool {
    &&& after.buffer_entries() == before.buffer_entries()
    &&& follows(
        before.texture_entries(),
        after.texture_entries(),
        texture_keys(shapes, path, step, width, height),
        before.texture_bound(),
    )
    &&& follows(
        before.pipeline_entries(),
        after.pipeline_entries(),
        seq![pipeline_key(wgsl, shapes.len(), has_params)],
        before.pipeline_bound(),
    )
    &&& before.texture_bound() >= 1 ==> {
        let key = output_key(path, step, shapes.len(), width, height);
        &&& has_key(after.texture_entries(), key)
        &&& left matches StepOutput::Gpu { texture, .. } && texture == value_of(
            after.texture_entries(),
            key,
        )
    }
}

/// What a compute step leaves: one image on the device, of the size the step
/// declares.
pub open spec fn wgsl_output(state: Seq<StepOutput>, width: u32, height: u32) -> bool {
    &&& state.len() == 1
    &&& state[0].shape() == (ImageShape { on_gpu: true, width, height })
}

/// Runs one compute shader over the images of `state`.
///
/// Every image in CPU memory is written to a cached texture of its size,
/// whose slot is the index of the image; every image then is bound through a
/// view, in order, as the array of input textures. The output is a cached
/// texture of `output_width` by `output_height` texels, whose slot is the
/// number of images. The pipeline is the cached one for the shader's
/// id, the number of inputs, and whether there are parameters and a sampler.
/// One pass is recorded that dispatches as many workgroups as cover the
/// output, and comes back as one batch that is not yet submitted.
///
/// A state that cannot be read is refused before the device is asked for
/// anything, with the fault that `state_fault` names. Otherwise the device
/// decides: what it refuses is `EngineError::Device`.
pub fn handle_wgsl_step(
    generator: &mut ImageGenerator,
    state: &ProcessingState,
    wgsl: &CompiledWgsl,
    params: &Option<Arc<Vec<u8>>>,
    path: &Vec<usize>,
    step_index: usize,
    output_width: u32,
    output_height: u32,
) -> (result: Result<(ProcessingState, Vec<wgpu::CommandEncoder>), EngineError>)
    requires
        old(generator).wf(),
    ensures
        final(generator).wf(),
        final(generator).same_setup(old(generator)),
        state_fault(state@).is_some() ==> result == Err::<
            (ProcessingState, Vec<wgpu::CommandEncoder>),
            EngineError,
        >(state_fault(state@).unwrap()),
        match result {
            Ok((new_state, encoders)) => {
                &&& state_fault(state@).is_none()
                &&& wgsl_output(new_state@, output_width, output_height)
                &&& encoders@.len() == 1
                &&& caches_after_step(
                    *old(generator),
                    *final(generator),
                    shapes_of(state@),
                    *wgsl,
                    params.is_some(),
                    path@,
                    step_index,
                    output_width,
                    output_height,
                    new_state@[0],
                )
            },
            Err(error) => error.is_step_error() && (state_fault(state@).is_none() ==> error
                 is Device),
        },
{
    match check_state(state) {
        Some(fault) => {
            return Err(fault);
        },
        None => {},
    }
    let mut encoder = match create_command_encoder(&generator.device, "Step Encoder") {
        Ok(encoder) => encoder,
        Err(message) => {
            return Err(EngineError::Device(message));
        },
    };
    let mut views: Vec<wgpu::TextureView> = Vec::with_capacity(state.len());
    let mut i: usize = 0;
    let ghost shapes = shapes_of(state@);
    proof {
        lemma_follows_nothing(generator.texture_entries(), generator.texture_bound());
        assert(shapes.subrange(0, 0) =~= Seq::<ImageShape>::empty());
    }
    while i < state.len()
        invariant
            i <= state@.len(),
            views@.len() == i,
            generator.wf(),
            generator.same_setup(old(generator)),
            generator.pipeline_entries() == old(generator).pipeline_entries(),
            generator.buffer_entries() == old(generator).buffer_entries(),
            state_fault(state@).is_none(),
            shapes == shapes_of(state@),
            follows(
                old(generator).texture_entries(),
                generator.texture_entries(),
                upload_keys(shapes.subrange(0, i as int), path@, step_index),
                old(generator).texture_bound(),
            ),
        decreases state@.len() - i,
    {
        proof {
            let taken = shapes.subrange(0, i + 1);
            assert(taken.drop_last() =~= shapes.subrange(0, i as int));
            assert(taken.last() == state@[i as int].shape());
        }
        let made = match &state[i] {
            StepOutput::Gpu { texture, .. } => create_view(&generator.device, texture),
            StepOutput::Cpu { data, width, height } => {
                proof {
                    lemma_no_fault(state@, i as int);
                }
                let ghost before = generator.texture_entries();
                let texture = match generator.get_or_create_texture(
                    path,
                    step_index,
                    i,
                    *width,
                    *height,
                    TexelFormat::Rgba32Float,
                    UPLOAD_TEXTURE_USAGE,
                    "Step Input Upload",
                ) {
                    Ok(texture) => texture,
                    Err(error) => {
                        return Err(error);
                    },
                };
                proof {
                    let key = upload_key(path@, step_index, i as int, state@[i as int].shape());
                    let earlier = upload_keys(shapes.subrange(0, i as int), path@, step_index);
                    lemma_follows_one(before, key, texture, old(generator).texture_bound());
                    lemma_follows_in_a_row(
                        old(generator).texture_entries(),
                        before,
                        generator.texture_entries(),
                        earlier,
                        seq![key],
                        old(generator).texture_bound(),
                    );
                    assert(earlier + seq![key] =~= earlier.push(key));
                }
                let tight: u64 = row_bytes(*width);
                match write_texture(
                    &generator.device,
                    &generator.queue,
                    &texture,
                    words_as_bytes(data.as_slice()),
                    tight as u32,
                    *width,
                    *height,
                ) {
                    Ok(()) => create_view(&generator.device, &texture),
                    Err(message) => Err(message),
                }
            },
        };
        match made {
            Ok(view) => views.push(view),
            Err(message) => {
                return Err(EngineError::Device(message));
            },
        }
        i = i + 1;
    }
    let ghost before_output = generator.texture_entries();
    proof {
        generator.lemma_wf_caches();
    }
    let output_texture = match generator.get_or_create_texture(
        path,
        step_index,
        state.len(),
        output_width,
        output_height,
        TexelFormat::Rgba32Float,
        OUTPUT_TEXTURE_USAGE,
        "Step Output Texture",
    ) {
        Ok(texture) => texture,
        Err(error) => {
            return Err(error);
        },
    };
    proof {
        assert(shapes.subrange(0, i as int) =~= shapes);
        let key = output_key(path@, step_index, state@.len(), output_width, output_height);
        let uploads = upload_keys(shapes, path@, step_index);
        let bound = old(generator).texture_bound();
        lemma_follows_one(before_output, key, output_texture, bound);
        lemma_follows_in_a_row(
            old(generator).texture_entries(),
            before_output,
            generator.texture_entries(),
            uploads,
            seq![key],
            bound,
        );
        assert(uploads + seq![key] =~= uploads.push(key));
        if bound >= 1 {
            lemma_use_then_hit(before_output, key, output_texture, bound);
        }
    }
    let output_view = match create_view(&generator.device, &output_texture) {
        Ok(view) => view,
        Err(message) => {
            return Err(EngineError::Device(message));
        },
    };
    let key = PipelineCacheKey {
        id: wgsl.id().clone(),
        input_texture_count: views.len() as u32,
        has_storage: params.is_some(),
        has_sampler: wgsl.uses_sampler(),
    };
    let pipeline = match generator.get_or_create_pipeline(
        &key,
        &wgsl.module,
        wgsl.sampler_filters(),
    ) {
        Ok(pipeline) => pipeline,
        Err(error) => {
            return Err(error);
        },
    };
    let mut groups: Vec<wgpu::BindGroup> = Vec::new();
    let mut references: Vec<&wgpu::TextureView> = Vec::with_capacity(views.len());
    let mut j: usize = 0;
    while j < views.len()
        invariant
            j <= views@.len(),
        decreases views@.len() - j,
    {
        references.push(&views[j]);
        j = j + 1;
    }
    let mut entries: Vec<wgpu::BindGroupEntry> = Vec::new();
    if views.len() > 0 {
        entries.push(bind_texture_array(0, &references));
    }
    entries.push(bind_texture(output_binding(views.len()), &output_view));
    match &wgsl.sampler {
        Some(sampler) => entries.push(bind_sampler(sampler_binding(views.len()), sampler)),
        None => {},
    }
    let made = match bind_group_layout_of(&generator.device, &pipeline, 0) {
        Ok(layout) => create_bind_group(&generator.device, "Step Texture Group", &layout, &entries),
        Err(message) => Err(message),
    };
    match made {
        Ok(group) => groups.push(group),
        Err(message) => {
            return Err(EngineError::Device(message));
        },
    }
    match params {
        Some(bytes) => {
            let padded = pad_params(bytes);
            let made = match create_buffer(
                &generator.device,
                "Step Storage Buffer",
                padded.len() as u64,
                BUFFER_STORAGE | BUFFER_COPY_DST,
            ) {
                Ok(buffer) => {
                    match write_buffer(
                        &generator.device,
                        &generator.queue,
                        &buffer,
                        padded.as_slice(),
                    ) {
                        Ok(()) => {
                            let mut entries: Vec<wgpu::BindGroupEntry> = Vec::new();
                            entries.push(bind_buffer(0, &buffer));
                            match bind_group_layout_of(&generator.device, &pipeline, 1) {
                                Ok(layout) => create_bind_group(
                                    &generator.device,
                                    "Step Parameter Group",
                                    &layout,
                                    &entries,
                                ),
                                Err(message) => Err(message),
                            }
                        },
                        Err(message) => Err(message),
                    }
                },
                Err(message) => Err(message),
            };
            match made {
                Ok(group) => groups.push(group),
                Err(message) => {
                    return Err(EngineError::Device(message));
                },
            }
        },
        None => {},
    }
    match generator.encode_compute_pass(
        &mut encoder,
        "Step Compute Pass",
        &pipeline,
        &groups,
        workgroup_count(output_width),
        workgroup_count(output_height),
    ) {
        Ok(()) => {},
        Err(error) => {
            return Err(error);
        },
    }
    let mut new_state: Vec<StepOutput> = Vec::new();
    new_state.push(
        StepOutput::Gpu { texture: output_texture, width: output_width, height: output_height },
    );
    let mut encoders: Vec<wgpu::CommandEncoder> = Vec::new();
    encoders.push(encoder);
    proof {
        lemma_no_fault_count(state@);
        lemma_follows_one(
            old(generator).pipeline_entries(),
            pipeline_key(*wgsl, state@.len(), params.is_some()),
            pipeline,
            old(generator).pipeline_bound(),
        );
    }
    Ok((new_state, encoders))
}

/// A state without fault has no more images than 32 bits count.
pub proof fn lemma_no_fault_count(state: Seq<StepOutput>)
    requires
        state_fault(state).is_none(),
    ensures
        state.len() <= u32::MAX,
{
}

/// In a state without fault no image has one.
pub proof fn lemma_no_fault(state: Seq<StepOutput>, index: int)
    requires
        0 <= index < state.len(),
        state_fault(state).is_none(),
    ensures
        image_fault(state[index]).is_none(),
        state.len() <= u32::MAX,
    decreases state.len(),
{
    if index > 0 {
        lemma_no_fault(state.drop_first(), index - 1);
    }
}

} // verus!
