//! The parallel step.

use crate::error::EngineError;
use crate::image_generate_builder::{ImageGenerateBuilder, PipelineStep};
use crate::image_generator::cache_uses::{
    caches_follow, lemma_caches_follow_in_a_row, lemma_caches_follow_nothing,
    parallel_pipeline_keys, parallel_texture_keys, plan_pipeline_keys, plan_texture_keys,
};
use crate::image_generator::{
    copy_path, parallel_shapes, shapes_of, share_state, ImageGenerator, ProcessingState,
    StepOutput,
};
use vstd::prelude::*;

verus! {

/// Whether a step runs a CPU function: a CPU step does, and so does a
/// parallel step one of whose plans does, at any depth.
pub open spec fn step_has_cpu(step: PipelineStep) -> bool
    decreases step, 0nat,
{
    match step {
        PipelineStep::Wgsl { .. } => false,
        PipelineStep::CpuFunc { .. } => true,
        PipelineStep::Parallel { pipelines } => any_cpu_step(pipelines@),
    }
}

/// Whether one of the steps runs a CPU function.
pub open spec fn has_cpu_step(steps: Seq<PipelineStep>) -> bool
    decreases steps, 1nat,
{
    if steps.len() == 0 {
        false
    } else {
        has_cpu_step(steps.drop_last()) || step_has_cpu(steps.last())
    }
}

/// Whether one of the plans runs a CPU function, at any depth.
pub open spec fn any_cpu_step(pipelines: Seq<ImageGenerateBuilder>) -> bool
    decreases pipelines, 0nat,
{
    if pipelines.len() == 0 {
        false
    } else {
        any_cpu_step(pipelines.drop_last()) || has_cpu_step(pipelines.last()@)
    }
}

/// The number of batches that the plans of a parallel step leave recorded
/// and not submitted: those that each plan leaves, started with none.
pub open spec fn parallel_pending(pipelines: Seq<ImageGenerateBuilder>) -> nat
    decreases pipelines, 0nat,
{
    if pipelines.len() == 0 {
        0
    } else {
        parallel_pending(pipelines.drop_last()) + plan_pending(pipelines.last()@, 0)
    }
}

/// The number of batches that are recorded and not submitted after a step,
/// where `before` were so before it. A compute step records one. A CPU step
/// submits all and records none. A parallel step submits all if one of its
/// plans runs a CPU function, and adds what its plans leave.
pub open spec fn step_pending(step: PipelineStep, before: nat) -> nat
    decreases step, 0nat,
{
    match step {
        PipelineStep::Wgsl { .. } => before + 1,
        PipelineStep::CpuFunc { .. } => 0,
        PipelineStep::Parallel { pipelines } => (if any_cpu_step(pipelines@) {
            0
        } else {
            before
        }) + parallel_pending(pipelines@),
    }
}

/// The number of batches that are recorded and not submitted after the steps
/// of a plan, where `before` were so before them.
pub open spec fn plan_pending(steps: Seq<PipelineStep>, before: nat) -> nat
    decreases steps, 1nat,
{
    if steps.len() == 0 {
        before
    } else {
        step_pending(steps.last(), plan_pending(steps.drop_last(), before))
    }
}

/// Finds out whether one of the steps runs a CPU function.
pub fn plan_has_cpu_step(steps: &Vec<PipelineStep>) -> (found: bool)
    ensures
        found == has_cpu_step(steps@),
    decreases steps, 1nat,
{
    let mut j: usize = 0;
    assert(steps@.subrange(0, 0) =~= Seq::<PipelineStep>::empty());
    while j < steps.len()
        invariant
            j <= steps@.len(),
            !has_cpu_step(steps@.subrange(0, j as int)),
        decreases steps@.len() - j,
    {
        let found = match &steps[j] {
            PipelineStep::Wgsl { .. } => false,
            PipelineStep::CpuFunc { .. } => true,
            PipelineStep::Parallel { pipelines } => {
                proof {
                    assert(decreases_to!(steps => steps[j as int]));
                    assert(decreases_to!(steps[j as int] => pipelines));
                }
                contains_cpu_step(pipelines)
            },
        };
        proof {
            let taken = steps@.subrange(0, j + 1);
            assert(taken.drop_last() =~= steps@.subrange(0, j as int));
            assert(taken.last() == steps@[j as int]);
            assert(found == step_has_cpu(steps@[j as int]));
            assert(has_cpu_step(taken) == (has_cpu_step(taken.drop_last()) || step_has_cpu(
                taken.last(),
            )));
            if found {
                lemma_cpu_step_in_prefix(steps@, j + 1);
            }
        }
        if found {
            return true;
        }
        j = j + 1;
    }
    assert(steps@.subrange(0, j as int) =~= steps@);
    false
}

/// Finds out whether one of the plans runs a CPU function, at any depth.
pub fn contains_cpu_step(pipelines: &Vec<ImageGenerateBuilder>) -> (found: bool)
    ensures
        found == any_cpu_step(pipelines@),
    decreases pipelines, 0nat,
{
    let mut i: usize = 0;
    assert(pipelines@.subrange(0, 0) =~= Seq::<ImageGenerateBuilder>::empty());
    while i < pipelines.len()
        invariant
            i <= pipelines@.len(),
            !any_cpu_step(pipelines@.subrange(0, i as int)),
        decreases pipelines@.len() - i,
    {
        proof {
            assert(decreases_to!(pipelines => pipelines[i as int]));
            assert(decreases_to!(pipelines[i as int] => pipelines[i as int].steps));
        }
        let found = plan_has_cpu_step(&pipelines[i].steps);
        proof {
            let taken = pipelines@.subrange(0, i + 1);
            assert(taken.drop_last() =~= pipelines@.subrange(0, i as int));
            assert(taken.last() == pipelines@[i as int]);
            assert(any_cpu_step(taken) == (any_cpu_step(taken.drop_last()) || has_cpu_step(
                taken.last()@,
            )));
            if found {
                lemma_cpu_plan_in_prefix(pipelines@, i + 1);
            }
        }
        if found {
            return true;
        }
        i = i + 1;
    }
    assert(pipelines@.subrange(0, i as int) =~= pipelines@);
    false
}

/// A CPU function among the first steps of a plan is one of the plan.
pub proof fn lemma_cpu_step_in_prefix(steps: Seq<PipelineStep>, count: int)
    requires
        0 <= count <= steps.len(),
        has_cpu_step(steps.subrange(0, count)),
    ensures
        has_cpu_step(steps),
    decreases steps.len() - count,
{
    if count < steps.len() {
        let longer = steps.subrange(0, count + 1);
        assert(longer.drop_last() =~= steps.subrange(0, count));
        lemma_cpu_step_in_prefix(steps, count + 1);
    } else {
        assert(steps.subrange(0, count) =~= steps);
    }
}

/// A CPU function in one of the first plans is one in the plans.
pub proof fn lemma_cpu_plan_in_prefix(pipelines: Seq<ImageGenerateBuilder>, count: int)
    requires
        0 <= count <= pipelines.len(),
        any_cpu_step(pipelines.subrange(0, count)),
    ensures
        any_cpu_step(pipelines),
    decreases pipelines.len() - count,
{
    if count < pipelines.len() {
        let longer = pipelines.subrange(0, count + 1);
        assert(longer.drop_last() =~= pipelines.subrange(0, count));
        lemma_cpu_plan_in_prefix(pipelines, count + 1);
    } else {
        assert(pipelines.subrange(0, count) =~= pipelines);
    }
}

/// Whether none of the plans has a step.
pub open spec fn all_without_steps(pipelines: Seq<ImageGenerateBuilder>) -> bool {
    forall|k: int| 0 <= k < pipelines.len() ==> (#[trigger] pipelines[k])@.len() == 0
}

/// The images `images`, `times` times one after the other.
pub open spec fn repeated(images: Seq<StepOutput>, times: nat) -> Seq<StepOutput>
    decreases times,
{
    if times == 0 {
        Seq::empty()
    } else {
        repeated(images, (times - 1) as nat) + images
    }
}

/// Plans without steps run no CPU function.
pub proof fn lemma_no_steps_no_cpu(pipelines: Seq<ImageGenerateBuilder>)
    requires
        all_without_steps(pipelines),
    ensures
        !any_cpu_step(pipelines),
    decreases pipelines.len(),
{
    if pipelines.len() > 0 {
        let earlier = pipelines.drop_last();
        assert forall|k: int| 0 <= k < earlier.len() implies (#[trigger] earlier[k])@.len()
            == 0 by {
            assert(earlier[k] == pipelines[k]);
        }
        lemma_no_steps_no_cpu(earlier);
        assert(pipelines.last() == pipelines[pipelines.len() - 1]);
        assert(!has_cpu_step(pipelines.last()@));
    }
}

/// The states one after the other, in order.
pub open spec fn joined(parts: Seq<Vec<StepOutput>>) -> Seq<StepOutput>
    decreases parts.len(),
{
    if parts.len() == 0 {
        Seq::empty()
    } else {
        joined(parts.drop_last()) + parts.last()@
    }
}

/// Whether `parts` holds what the plans left, one state for each plan and in
/// the order of the plans: the state at `k` has the images that the plan at
/// `k` leaves when it is started on images of the shapes `input`.
pub open spec fn left_by_plans(
    parts: Seq<Vec<StepOutput>>,
    pipelines: Seq<ImageGenerateBuilder>,
    input: Seq<crate::image_generator::ImageShape>,
) -> bool {
    &&& parts.len() == pipelines.len()
    &&& forall|k: int|
        0 <= k < parts.len() ==> shapes_of((#[trigger] parts[k])@) == crate::image_generator::plan_shapes(
            pipelines[k]@,
            input,
        )
}

/// Joins the states that the plans of a parallel step left into the state
/// the step leaves: the images of the first plan, then those of the second,
/// and so on, each in its own order.
pub fn join_states(parts: Vec<ProcessingState>) -> (state: ProcessingState)
    ensures
        state@ == joined(parts@),
{
    let mut parts = parts;
    let ghost all = parts@;
    let mut state: Vec<StepOutput> = Vec::new();
    assert(all.subrange(0, 0) =~= Seq::<Vec<StepOutput>>::empty());
    while parts.len() > 0
        invariant
            parts@.len() <= all.len(),
            parts@ == all.subrange(all.len() - parts@.len(), all.len() as int),
            state@ == joined(all.subrange(0, all.len() - parts@.len())),
        decreases parts@.len(),
    {
        let ghost done = all.len() - parts@.len();
        let mut part = parts.remove(0);
        assert(part == all[done]);
        assert(parts@ =~= all.subrange(all.len() - parts@.len(), all.len() as int));
        assert(all.subrange(0, done + 1).drop_last() =~= all.subrange(0, done));
        assert(all.subrange(0, done + 1).last() == all[done]);
        state.append(&mut part);
    }
    assert(all.subrange(0, all.len() as int) =~= all);
    state
}

/// The shapes of two states one after the other are the shapes of the first,
/// then those of the second.
pub proof fn lemma_shapes_of_concat(left: Seq<StepOutput>, right: Seq<StepOutput>)
    ensures
        shapes_of(left + right) == shapes_of(left) + shapes_of(right),
{
    assert(shapes_of(left + right) =~= shapes_of(left) + shapes_of(right));
}

/// Runs the plans of a parallel step, one after the other, each on the
/// images of `state`, and joins what they leave in the order of the plans:
/// the state it leaves is the states that the plans left, one after the
/// other.
///
/// If one of the plans runs a CPU function, at any depth, every batch
/// recorded so far is submitted first, so that what the function reads is
/// done; otherwise the recorded batches are left as they are. The plans share the images of the state. The batches that the
/// plans record and leave unsubmitted come back in the order of the plans.
/// The first plan that fails ends the step with its error.
///
/// Afterwards `state` is empty. Where none of the plans has a step, the
/// device is not asked for anything and the step cannot fail: it leaves the
/// images of the state, as they are, once for each plan, and records nothing.
pub fn handle_parallel_step(
    generator: &mut ImageGenerator,
    state: &mut ProcessingState,
    pipelines: &Vec<ImageGenerateBuilder>,
    path: &Vec<usize>,
    step_index: usize,
    all_encoders: &mut Vec<wgpu::CommandEncoder>,
) -> (result: Result<(ProcessingState, Vec<wgpu::CommandEncoder>), EngineError>)
    requires
        old(generator).wf(),
    ensures
        final(generator).wf(),
        final(generator).same_setup(old(generator)),
        final(state)@.len() == 0,
        any_cpu_step(pipelines@) ==> final(all_encoders)@.len() == 0,
        !any_cpu_step(pipelines@) ==> final(all_encoders)@ == old(all_encoders)@,
        match result {
            Ok((new_state, encoders)) => {
                &&& shapes_of(new_state@) == parallel_shapes(pipelines@, shapes_of(old(state)@))
                &&& encoders@.len() == parallel_pending(pipelines@)
                &&& exists|parts: Seq<Vec<StepOutput>>|
                    new_state@ == #[trigger] joined(parts) && left_by_plans(
                        parts,
                        pipelines@,
                        shapes_of(old(state)@),
                    )
                &&& caches_follow(
                    *old(generator),
                    *final(generator),
                    parallel_texture_keys(
                        pipelines@,
                        shapes_of(old(state)@),
                        path@.push(step_index),
                    ),
                    parallel_pipeline_keys(pipelines@, shapes_of(old(state)@)),
                )
            },
            Err(error) => error.is_step_error(),
        },
        all_without_steps(pipelines@) ==> (result matches Ok((new_state, encoders)) && new_state@
            == repeated(old(state)@, pipelines@.len()) && encoders@.len() == 0),
    decreases pipelines, 0nat,
{
    let mut failure: Option<EngineError> = None;
    proof {
        if all_without_steps(pipelines@) {
            lemma_no_steps_no_cpu(pipelines@);
        }
    }
    if contains_cpu_step(pipelines) {
        match generator.submit_all(all_encoders) {
            Ok(()) => {},
            Err(error) => {
                failure = Some(error);
            },
        }
    }
    let snapshot = share_state(state);
    state.clear();
    match failure {
        Some(error) => {
            return Err(error);
        },
        None => {},
    }
    let mut parts: Vec<ProcessingState> = Vec::with_capacity(pipelines.len());
    let mut encoders: Vec<wgpu::CommandEncoder> = Vec::new();
    let mut k: usize = 0;
    assert(pipelines@.subrange(0, 0) =~= Seq::<ImageGenerateBuilder>::empty());
    assert(shapes_of(joined(parts@)) =~= Seq::<crate::image_generator::ImageShape>::empty());
    proof {
        lemma_caches_follow_nothing(*old(generator), *generator);
    }
    while k < pipelines.len()
        invariant
            k <= pipelines@.len(),
            generator.wf(),
            generator.same_setup(old(generator)),
            snapshot@ == old(state)@,
            state@.len() == 0,
            any_cpu_step(pipelines@) ==> all_encoders@.len() == 0,
            !any_cpu_step(pipelines@) ==> all_encoders@ == old(all_encoders)@,
            parts@.len() == k,
            left_by_plans(parts@, pipelines@.subrange(0, k as int), shapes_of(snapshot@)),
            all_without_steps(pipelines@) ==> joined(parts@) == repeated(snapshot@, k as nat)
                && encoders@.len() == 0,
            shapes_of(joined(parts@)) == parallel_shapes(
                pipelines@.subrange(0, k as int),
                shapes_of(snapshot@),
            ),
            encoders@.len() == parallel_pending(pipelines@.subrange(0, k as int)),
            caches_follow(
                *old(generator),
                *generator,
                parallel_texture_keys(
                    pipelines@.subrange(0, k as int),
                    shapes_of(snapshot@),
                    path@.push(step_index),
                ),
                parallel_pipeline_keys(pipelines@.subrange(0, k as int), shapes_of(snapshot@)),
            ),
        decreases pipelines@.len() - k,
    {
        let mut sub_path = copy_path(path);
        sub_path.push(step_index);
        sub_path.push(k);
        proof {
            assert(decreases_to!(pipelines => pipelines[k as int]));
            assert(decreases_to!(pipelines[k as int] => pipelines[k as int].steps));
        }
        let ghost before = *generator;
        match generator.execute_pipeline(&pipelines[k].steps, share_state(&snapshot), &sub_path) {
            Ok((part, mut recorded)) => {
                proof {
                    let done = pipelines@.subrange(0, k as int);
                    let shapes = shapes_of(snapshot@);
                    assert(sub_path@ == path@.push(step_index).push(k));
                    lemma_caches_follow_in_a_row(
                        *old(generator),
                        before,
                        *generator,
                        parallel_texture_keys(done, shapes, path@.push(step_index)),
                        parallel_pipeline_keys(done, shapes),
                        plan_texture_keys(pipelines@[k as int]@, shapes, sub_path@),
                        plan_pipeline_keys(pipelines@[k as int]@, shapes),
                    );
                    let collected = parts@;
                    let extended = parts@.push(part);
                    assert(extended.drop_last() =~= collected);
                    lemma_shapes_of_concat(joined(collected), part@);
                    let taken = pipelines@.subrange(0, k + 1);
                    assert(taken.drop_last() =~= pipelines@.subrange(0, k as int));
                    assert(taken.last() == pipelines@[k as int]);
                }
                parts.push(part);
                encoders.append(&mut recorded);
            },
            Err(error) => {
                return Err(error);
            },
        }
        k = k + 1;
    }
    assert(pipelines@.subrange(0, k as int) =~= pipelines@);
    let ghost left = parts@;
    let joined_state = join_states(parts);
    assert(joined_state@ == joined(left));
    Ok((joined_state, encoders))
}

} // verus!
