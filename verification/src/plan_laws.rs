//! What holds of every plan: laws of the shapes that plans leave, and of the
//! join of a parallel step.

use crate::image_generate_builder::{ImageGenerateBuilder, PipelineStep};
use crate::image_generator::parallel_process::{
    any_cpu_step, joined, lemma_shapes_of_concat, parallel_pending, plan_pending, step_pending,
};
use crate::image_generator::wgsl_process::{texture_keys, upload_keys};
use crate::image_generator::{
    parallel_shapes, plan_shapes, shapes_of, step_shapes, ImageShape, StepOutput,
};
use crate::descriptors::{BindingKind, LayoutEntry};
use vstd::prelude::*;

verus! {

/// The image a plan leaves is the one its last step declares: a plan that
/// ends with a compute step leaves one image on the device, and a plan that
/// ends with a CPU step leaves one image in CPU memory, each of the size the
/// step declares, whatever the plan was started on.
pub proof fn lemma_last_step_decides_output(steps: Seq<PipelineStep>, input: Seq<ImageShape>)
    requires
        steps.len() > 0,
    ensures
        steps.last() matches PipelineStep::Wgsl { output_width, output_height, .. }
            ==> plan_shapes(steps, input) == seq![
            ImageShape { on_gpu: true, width: output_width, height: output_height },
        ],
        steps.last() matches PipelineStep::CpuFunc { output_width, output_height, .. }
            ==> plan_shapes(steps, input) == seq![
            ImageShape { on_gpu: false, width: output_width, height: output_height },
        ],
{
    let before = plan_shapes(steps.drop_last(), input);
    assert(plan_shapes(steps, input) == step_shapes(steps.last(), before));
}

/// Steps in a row are plans in a row: the shapes that `first + second` leaves
/// are those that `second` leaves when it is started on what `first` leaves.
pub proof fn lemma_plans_compose(
    first: Seq<PipelineStep>,
    second: Seq<PipelineStep>,
    input: Seq<ImageShape>,
)
    ensures
        plan_shapes(first + second, input) == plan_shapes(second, plan_shapes(first, input)),
    decreases second.len(),
{
    if second.len() == 0 {
        assert(first + second =~= first);
    } else {
        let whole = first + second;
        assert(whole.drop_last() =~= first + second.drop_last());
        assert(whole.last() == second.last());
        lemma_plans_compose(first, second.drop_last(), input);
    }
}

/// A parallel step leaves the shapes that its plans leave, one plan after
/// the other: what the plans in `left + right` leave is what those in `left`
/// leave, followed by what those in `right` leave, all started on the same
/// images.
pub proof fn lemma_parallel_shapes_concat(
    left: Seq<ImageGenerateBuilder>,
    right: Seq<ImageGenerateBuilder>,
    input: Seq<ImageShape>,
)
    ensures
        parallel_shapes(left + right, input) == parallel_shapes(left, input) + parallel_shapes(
            right,
            input,
        ),
    decreases right.len(),
{
    if right.len() == 0 {
        assert(left + right =~= left);
        assert(parallel_shapes(left, input) + Seq::<ImageShape>::empty() =~= parallel_shapes(
            left,
            input,
        ));
    } else {
        let whole = left + right;
        assert(whole.drop_last() =~= left + right.drop_last());
        assert(whole.last() == right.last());
        lemma_parallel_shapes_concat(left, right.drop_last(), input);
        assert(parallel_shapes(whole, input) =~= parallel_shapes(left, input) + parallel_shapes(
            right,
            input,
        ));
    }
}

/// What the plan at `index` of a parallel step leaves stands in what the
/// step leaves, in one piece, behind what the plans before it leave.
pub proof fn lemma_parallel_shapes_of_plan(
    pipelines: Seq<ImageGenerateBuilder>,
    input: Seq<ImageShape>,
    index: int,
)
    requires
        0 <= index < pipelines.len(),
    ensures
        ({
            let before = parallel_shapes(pipelines.subrange(0, index), input);
            let own = plan_shapes(pipelines[index]@, input);
            let all = parallel_shapes(pipelines, input);
            &&& before.len() + own.len() <= all.len()
            &&& all.subrange(before.len() as int, (before.len() + own.len()) as int) == own
        }),
{
    let head = pipelines.subrange(0, index);
    let one = pipelines.subrange(index, index + 1);
    let tail = pipelines.subrange(index + 1, pipelines.len() as int);
    assert(pipelines =~= (head + one) + tail);
    lemma_parallel_shapes_concat(head + one, tail, input);
    lemma_parallel_shapes_concat(head, one, input);
    lemma_parallel_of_one(pipelines[index], input);
    assert(one =~= seq![pipelines[index]]);
    let before = parallel_shapes(head, input);
    let own = plan_shapes(pipelines[index]@, input);
    let all = parallel_shapes(pipelines, input);
    assert(all =~= (before + own) + parallel_shapes(tail, input));
    assert(all.subrange(before.len() as int, (before.len() + own.len()) as int) =~= own);
}

/// A parallel step around a single plan leaves what the plan leaves; around
/// a plan without steps it leaves the images it was started on.
pub proof fn lemma_parallel_of_one(plan: ImageGenerateBuilder, input: Seq<ImageShape>)
    ensures
        parallel_shapes(seq![plan], input) == plan_shapes(plan@, input),
        plan@.len() == 0 ==> parallel_shapes(seq![plan], input) == input,
{
    let one = seq![plan];
    let none = Seq::<ImageGenerateBuilder>::empty();
    assert(one.drop_last() =~= none);
    assert(one.last() == plan);
    assert(parallel_shapes(none, input) == Seq::<ImageShape>::empty());
    assert(parallel_shapes(one, input) == parallel_shapes(one.drop_last(), input) + plan_shapes(
        one.last()@,
        input,
    ));
    assert(Seq::<ImageShape>::empty() + plan_shapes(plan@, input) =~= plan_shapes(plan@, input));
    assert(plan@.len() == 0 ==> plan_shapes(plan@, input) == input);
}

/// The images that a parallel step around a single plan leaves are the
/// images that the plan left, the same in number, order and content.
pub proof fn lemma_joined_of_one(part: Vec<StepOutput>)
    ensures
        joined(seq![part]) == part@,
{
    let one = seq![part];
    let none = Seq::<Vec<StepOutput>>::empty();
    assert(one.drop_last() =~= none);
    assert(one.last() == part);
    assert(joined(none) == Seq::<StepOutput>::empty());
    assert(joined(one) == joined(one.drop_last()) + one.last()@);
    assert(Seq::<StepOutput>::empty() + part@ =~= part@);
}

/// The images of the part at `index` stand in the joined state in one piece
/// and in their order, behind the images of the parts before it.
pub proof fn lemma_joined_keeps_parts(parts: Seq<Vec<StepOutput>>, index: int)
    requires
        0 <= index < parts.len(),
    ensures
        ({
            let before = joined(parts.subrange(0, index));
            &&& before.len() + parts[index]@.len() <= joined(parts).len()
            &&& joined(parts).subrange(before.len() as int, (before.len() + parts[index]@.len()) as int)
                == parts[index]@
        }),
    decreases parts.len(),
{
    let before = joined(parts.subrange(0, index));
    if index == parts.len() - 1 {
        assert(parts.subrange(0, index) =~= parts.drop_last());
        assert(joined(parts).subrange(before.len() as int, (before.len() + parts[index]@.len()) as int)
            =~= parts[index]@);
    } else {
        let earlier = parts.drop_last();
        lemma_joined_keeps_parts(earlier, index);
        assert(earlier.subrange(0, index) =~= parts.subrange(0, index));
        assert(joined(parts).subrange(before.len() as int, (before.len() + parts[index]@.len()) as int)
            =~= joined(earlier).subrange(before.len() as int, (before.len() + parts[index]@.len()) as int));
    }
}

/// The shapes of a joined state are the shapes of its parts, joined.
pub proof fn lemma_shapes_of_joined(parts: Seq<Vec<StepOutput>>)
    ensures
        parts.len() == 0 ==> shapes_of(joined(parts)) == Seq::<ImageShape>::empty(),
        parts.len() > 0 ==> shapes_of(joined(parts)) == shapes_of(joined(parts.drop_last()))
            + shapes_of(parts.last()@),
{
    if parts.len() == 0 {
        assert(shapes_of(joined(parts)) =~= Seq::<ImageShape>::empty());
    } else {
        lemma_shapes_of_concat(
            joined(parts.drop_last()),
            parts.last()@,
        );
    }
}

/// A parallel step is a step like any other: behind the steps `before` it
/// leaves what its plans leave when each is started on what `before` leaves.
pub proof fn lemma_parallel_step_shapes(
    before: Seq<PipelineStep>,
    step: PipelineStep,
    input: Seq<ImageShape>,
)
    requires
        step is Parallel,
    ensures
        plan_shapes(before.push(step), input) == parallel_shapes(
            step->pipelines@,
            plan_shapes(before, input),
        ),
        step_shapes(step, input) == parallel_shapes(step->pipelines@, input),
{
    let whole = before.push(step);
    assert(whole.drop_last() =~= before);
    assert(whole.last() == step);
    assert(plan_shapes(whole, input) == step_shapes(
        whole.last(),
        plan_shapes(whole.drop_last(), input),
    ));
}

/// The plans of one parallel step run under paths that differ from one
/// another and from the path of the step itself, so that no texture of one
/// of them is cached under a key of another or of the plan around them.
pub proof fn lemma_sibling_paths_differ(path: Seq<usize>, step: usize, left: usize, right: usize)
    requires
        left != right,
    ensures
        path.push(step).push(left) != path.push(step).push(right),
        path.push(step).push(left) != path,
{
    let one = path.push(step).push(left);
    let other = path.push(step).push(right);
    assert(one[one.len() - 1] == left);
    assert(other[other.len() - 1] == right);
    assert(one.len() == path.len() + 2);
}

/// The textures that one compute step uses are cached under keys that all
/// differ: every image in CPU memory is uploaded to a texture of its own, and
/// none of them is the output texture.
pub proof fn lemma_step_textures_differ(
    state: Seq<ImageShape>,
    path: Seq<usize>,
    step: usize,
    width: u32,
    height: u32,
)
    requires
        state.len() <= usize::MAX,
    ensures
        texture_keys(
            state,
            path,
            step,
            width,
            height,
        ).no_duplicates(),
{
    lemma_upload_slots(state, path, step);
    let uploads = upload_keys(state, path, step);
    let keys = texture_keys(state, path, step, width, height);
    assert forall|i: int, j: int| 0 <= i < keys.len() && 0 <= j < keys.len() && i != j implies keys[i]
        != keys[j] by {
        if i < uploads.len() {
            assert(keys[i] == uploads[i]);
        }
        if j < uploads.len() {
            assert(keys[j] == uploads[j]);
        }
    }
}

/// The keys under which the images of a state are uploaded have slots below
/// the number of images, in rising order.
pub proof fn lemma_upload_slots(state: Seq<ImageShape>, path: Seq<usize>, step: usize)
    requires
        state.len() <= usize::MAX,
    ensures
        ({
            let keys = upload_keys(state, path, step);
            &&& keys.len() <= state.len()
            &&& forall|i: int| 0 <= i < keys.len() ==> (#[trigger] keys[i]).place.slot < state.len()
            &&& forall|i: int, j: int|
                0 <= i < j < keys.len() ==> (#[trigger] keys[i]).place.slot < (
                #[trigger] keys[j]).place.slot
        }),
    decreases state.len(),
{
    if state.len() > 0 {
        lemma_upload_slots(state.drop_last(), path, step);
    }
}

/// Submitting comes before the function of a CPU step: when a CPU step is
/// done, no batch that the run recorded is left unsubmitted, however many
/// were recorded before; and a parallel step one of whose plans runs a CPU
/// function starts its plans with nothing left unsubmitted.
pub proof fn lemma_nothing_pending_at_cpu_step(steps: Seq<PipelineStep>, before: nat)
    requires
        steps.len() > 0,
    ensures
        steps.last() is CpuFunc ==> plan_pending(
            steps,
            before,
        ) == 0,
        steps.last() is Parallel && any_cpu_step(
            steps.last()->pipelines@,
        ) ==> plan_pending(steps, before)
            == parallel_pending(
            steps.last()->pipelines@,
        ),
{
    let earlier = plan_pending(steps.drop_last(), before);
    assert(plan_pending(steps, before)
        == step_pending(steps.last(), earlier));
}

/// A plan of compute steps alone submits nothing: every step leaves its one
/// batch recorded.
pub proof fn lemma_compute_steps_stay_pending(steps: Seq<PipelineStep>, before: nat)
    requires
        forall|i: int| 0 <= i < steps.len() ==> #[trigger] steps[i] is Wgsl,
    ensures
        plan_pending(steps, before) == before
            + steps.len(),
    decreases steps.len(),
{
    if steps.len() > 0 {
        let earlier = steps.drop_last();
        assert forall|i: int| 0 <= i < earlier.len() implies #[trigger] earlier[i] is Wgsl by {
            assert(earlier[i] == steps[i]);
        }
        lemma_compute_steps_stay_pending(earlier, before);
        assert(steps.last() == steps[steps.len() - 1]);
        assert(steps.last() is Wgsl);
        assert(plan_pending(steps, before)
            == step_pending(
            steps.last(),
            plan_pending(earlier, before),
        ));
    }
}

/// A parallel step around one plan without steps leaves the images it was
/// started on, and around no plan it leaves none.
pub proof fn lemma_repeated_once(images: Seq<StepOutput>)
    ensures
        crate::image_generator::parallel_process::repeated(images, 1) == images,
        crate::image_generator::parallel_process::repeated(images, 0) == Seq::<StepOutput>::empty(),
{
    reveal_with_fuel(crate::image_generator::parallel_process::repeated, 2);
    assert(Seq::<StepOutput>::empty() + images =~= images);
}

/// The pipeline of a compute step has the texture group as its group 0: for
/// a step without inputs the output texture stands at binding 0; for a step
/// with inputs the array of that many input textures stands at binding 0 and
/// the output texture at binding 1. The parameter group follows as group 1
/// exactly when the step has parameters.
pub proof fn lemma_pipeline_group_zero(
    input_count: u32,
    has_storage: bool,
    has_sampler: bool,
    sampler_filters: bool,
)
    ensures
        ({
            let groups = crate::layout::pipeline_groups_of(
                input_count,
                has_storage,
                has_sampler,
                sampler_filters,
            );
            &&& groups.len() == (if has_storage {
                2nat
            } else {
                1nat
            })
            &&& has_storage ==> groups[1] == crate::layout::params_group_layout()
            &&& input_count == 0 ==> groups[0][0] == (LayoutEntry {
                binding: 0,
                kind: BindingKind::OutputTexture,
                count: 0,
            })
            &&& input_count > 0 ==> groups[0][0] == (LayoutEntry {
                binding: 0,
                kind: BindingKind::SampledTexture,
                count: input_count,
            }) && groups[0][1] == (LayoutEntry {
                binding: 1,
                kind: BindingKind::OutputTexture,
                count: 0,
            })
        }),
{
    let sampler = if has_sampler {
        Some(sampler_filters)
    } else {
        None
    };
    crate::layout::lemma_texture_group_bindings(input_count, sampler);
}

} // verus!
