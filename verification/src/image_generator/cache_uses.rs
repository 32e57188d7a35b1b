//! Which cache keys a plan uses, and in which order.
//!
//! A run that succeeds uses the caches of textures and pipelines exactly as
//! its plan and the shapes of the images it starts on determine: the keys are
//! functions of the plan, and the caches afterwards are what `follows` says.

use crate::image_generate_builder::{ImageGenerateBuilder, PipelineStep};
use crate::image_generator::wgsl_process::{pipeline_key, texture_keys};
use crate::image_generator::{plan_shapes, ImageGenerator, ImageShape, TextureKeyView};
use crate::lru_cache::{follows, lemma_follows_in_a_row, lemma_follows_nothing};
use vstd::prelude::*;

verus! {

/// The texture keys that the plans of a parallel step use, in order: those of
/// the first plan, then those of the second, and so on. `path` is the path of
/// the step itself: the path of the plan around it, followed by the index of
/// the step; the plan at index `k` runs under `path` followed by `k`.
pub open spec fn parallel_texture_keys(
    pipelines: Seq<ImageGenerateBuilder>,
    input: Seq<ImageShape>,
    path: Seq<usize>,
) -> Seq<TextureKeyView>
    decreases pipelines, 0nat,
{
    if pipelines.len() == 0 {
        Seq::empty()
    } else {
        parallel_texture_keys(pipelines.drop_last(), input, path) + plan_texture_keys(
            pipelines.last()@,
            input,
            path.push((pipelines.len() - 1) as usize),
        )
    }
}

/// The texture keys that the step at `index` of a plan under `path` uses on
/// images of the shapes `input`, in order. A CPU step uses none.
pub open spec fn step_texture_keys(
    step: PipelineStep,
    input: Seq<ImageShape>,
    path: Seq<usize>,
    index: usize,
) -> Seq<TextureKeyView>
    decreases step, 0nat,
{
    match step {
        PipelineStep::Wgsl { output_width, output_height, .. } => texture_keys(
            input,
            path,
            index,
            output_width,
            output_height,
        ),
        PipelineStep::CpuFunc { .. } => Seq::empty(),
        PipelineStep::Parallel { pipelines } => parallel_texture_keys(
            pipelines@,
            input,
            path.push(index),
        ),
    }
}

/// The texture keys that the steps of a plan under `path` use, in order, when
/// the first step runs on images of the shapes `input`.
pub open spec fn plan_texture_keys(steps: Seq<PipelineStep>, input: Seq<ImageShape>, path: Seq<usize>) -> Seq<
    TextureKeyView,
>
    decreases steps, 1nat,
{
    if steps.len() == 0 {
        Seq::empty()
    } else {
        plan_texture_keys(steps.drop_last(), input, path) + step_texture_keys(
            steps.last(),
            plan_shapes(steps.drop_last(), input),
            path,
            (steps.len() - 1) as usize,
        )
    }
}

/// The pipeline keys that the plans of a parallel step use, in order.
pub open spec fn parallel_pipeline_keys(pipelines: Seq<ImageGenerateBuilder>, input: Seq<ImageShape>) -> Seq<
    (Seq<char>, u32, bool, bool),
>
    decreases pipelines, 0nat,
{
    if pipelines.len() == 0 {
        Seq::empty()
    } else {
        parallel_pipeline_keys(pipelines.drop_last(), input) + plan_pipeline_keys(
            pipelines.last()@,
            input,
        )
    }
}

/// The pipeline keys that a step uses on images of the shapes `input`, in
/// order. A compute step uses one; a CPU step uses none.
pub open spec fn step_pipeline_keys(step: PipelineStep, input: Seq<ImageShape>) -> Seq<
    (Seq<char>, u32, bool, bool),
>
    decreases step, 0nat,
{
    match step {
        PipelineStep::Wgsl { wgsl, params, .. } => seq![
            pipeline_key(*wgsl, input.len(), params.is_some()),
        ],
        PipelineStep::CpuFunc { .. } => Seq::empty(),
        PipelineStep::Parallel { pipelines } => parallel_pipeline_keys(pipelines@, input),
    }
}

/// The pipeline keys that the steps of a plan use, in order, when the first
/// step runs on images of the shapes `input`.
pub open spec fn plan_pipeline_keys(steps: Seq<PipelineStep>, input: Seq<ImageShape>) -> Seq<
    (Seq<char>, u32, bool, bool),
>
    decreases steps, 1nat,
{
    if steps.len() == 0 {
        Seq::empty()
    } else {
        plan_pipeline_keys(steps.drop_last(), input) + step_pipeline_keys(
            steps.last(),
            plan_shapes(steps.drop_last(), input),
        )
    }
}

/// Whether the engine `after` is the engine `before` after its texture keys
/// `textures` and its pipeline keys `pipelines` were used, each in order, with
/// its buffer cache left alone.
pub open spec fn caches_follow(
    before: ImageGenerator,
    after: ImageGenerator,
    textures: Seq<TextureKeyView>,
    pipelines: Seq<(Seq<char>, u32, bool, bool)>,
) -> bool {
    &&& after.buffer_entries() == before.buffer_entries()
    &&& follows(
        before.texture_entries(),
        after.texture_entries(),
        textures,
        before.texture_bound(),
    )
    &&& follows(
        before.pipeline_entries(),
        after.pipeline_entries(),
        pipelines,
        before.pipeline_bound(),
    )
}

/// An engine whose caches are as they were has used no key.
pub proof fn lemma_caches_follow_nothing(before: ImageGenerator, after: ImageGenerator)
    requires
        after.texture_entries() == before.texture_entries(),
        after.pipeline_entries() == before.pipeline_entries(),
        after.buffer_entries() == before.buffer_entries(),
    ensures
        caches_follow(
            before,
            after,
            Seq::<TextureKeyView>::empty(),
            Seq::<(Seq<char>, u32, bool, bool)>::empty(),
        ),
{
    lemma_follows_nothing(before.texture_entries(), before.texture_bound());
    lemma_follows_nothing(before.pipeline_entries(), before.pipeline_bound());
}

/// Uses after uses are the uses in a row, in both caches.
pub proof fn lemma_caches_follow_in_a_row(
    before: ImageGenerator,
    between: ImageGenerator,
    after: ImageGenerator,
    first_textures: Seq<TextureKeyView>,
    first_pipelines: Seq<(Seq<char>, u32, bool, bool)>,
    second_textures: Seq<TextureKeyView>,
    second_pipelines: Seq<(Seq<char>, u32, bool, bool)>,
)
    requires
        caches_follow(before, between, first_textures, first_pipelines),
        caches_follow(between, after, second_textures, second_pipelines),
        between.same_setup(&before),
    ensures
        caches_follow(
            before,
            after,
            first_textures + second_textures,
            first_pipelines + second_pipelines,
        ),
{
    lemma_follows_in_a_row(
        before.texture_entries(),
        between.texture_entries(),
        after.texture_entries(),
        first_textures,
        second_textures,
        before.texture_bound(),
    );
    lemma_follows_in_a_row(
        before.pipeline_entries(),
        between.pipeline_entries(),
        after.pipeline_entries(),
        first_pipelines,
        second_pipelines,
        before.pipeline_bound(),
    );
}

} // verus!
