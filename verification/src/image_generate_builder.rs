//! Plans: ordered lists of steps, built by value.

use crate::compiled_func::CompiledFunc;
use crate::compiled_wgsl::CompiledWgsl;
use std::sync::Arc;
use vstd::prelude::*;

verus! {

/// One step of a plan.
pub enum PipelineStep {
    /// Runs one compute shader over the images of the current state.
    Wgsl {
        wgsl: Arc<CompiledWgsl>,
        /// Bytes for the storage buffer of the shader, if it takes one.
        params: Option<Arc<Vec<u8>>>,
        output_width: u32,
        output_height: u32,
    },
    /// Runs several plans on the same state and joins what they leave.
    Parallel { pipelines: Arc<Vec<ImageGenerateBuilder>> },
    /// Runs a function on the CPU over the images of the current state.
    CpuFunc {
        func: CompiledFunc,
        /// Bytes handed to the function as they are.
        params: Option<Arc<Vec<u8>>>,
        /// The size of the image the function is to return.
        output_width: u32,
        output_height: u32,
    },
}

/// A plan: an ordered list of steps behind shared ownership.
///
/// A plan is a value. Every `add_*` takes a plan and returns the plan with
/// one more step at its end; a copy of the plan made before is not touched.
/// Copies share their steps, so a plan is cheap to copy and to hold in the
/// parallel step of another.
pub struct ImageGenerateBuilder {
    pub steps: Arc<Vec<PipelineStep>>,
}

impl View for ImageGenerateBuilder {
    type V = Seq<PipelineStep>;

    /// The steps in order.
    open spec fn view(&self) -> Seq<PipelineStep> {
        self.steps@
    }
}

impl Clone for ImageGenerateBuilder {
    /// A plan of the same steps, which it shares with this one.
    fn clone(&self) -> (copy: Self)
        ensures
            copy == *self,
            copy@ == self@,
    {
        ImageGenerateBuilder { steps: Arc::clone(&self.steps) }
    }
}

impl Clone for PipelineStep {
    /// The same step, sharing its shader, function, parameters and plans.
    fn clone(&self) -> (copy: Self)
        ensures
            copy == *self,
    {
        match self {
            PipelineStep::Wgsl { wgsl, params, output_width, output_height } => PipelineStep::Wgsl {
                wgsl: Arc::clone(wgsl),
                params: share_params(params),
                output_width: *output_width,
                output_height: *output_height,
            },
            PipelineStep::Parallel { pipelines } => PipelineStep::Parallel {
                pipelines: Arc::clone(pipelines),
            },
            PipelineStep::CpuFunc { func, params, output_width, output_height } => {
                PipelineStep::CpuFunc {
                    func: func.clone(),
                    params: share_params(params),
                    output_width: *output_width,
                    output_height: *output_height,
                }
            },
        }
    }
}

/// Another handle to the same parameter bytes.
fn share_params(params: &Option<Arc<Vec<u8>>>) -> (copy: Option<Arc<Vec<u8>>>)
    ensures
        copy == *params,
{
    match params {
        Some(bytes) => Some(Arc::clone(bytes)),
        None => None,
    }
}

/// Puts parameter bytes behind shared ownership.
fn shared_params(params: Option<Vec<u8>>) -> (shared: Option<Arc<Vec<u8>>>)
    ensures
        shared.is_some() == params.is_some(),
        params.is_some() ==> *shared.unwrap() == params.unwrap(),
{
    match params {
        Some(bytes) => Some(Arc::new(bytes)),
        None => None,
    }
}

impl ImageGenerateBuilder {
    /// The empty plan.
    pub fn new() -> (plan: Self)
        ensures
            plan@ == Seq::<PipelineStep>::empty(),
    {
        ImageGenerateBuilder { steps: Arc::new(Vec::new()) }
    }

    /// The number of steps.
    pub fn len(&self) -> (len: usize)
        ensures
            len == self@.len(),
    {
        self.steps.len()
    }

    /// The steps of the plan.
    pub fn steps(&self) -> (steps: &Vec<PipelineStep>)
        ensures
            steps@ == self@,
    {
        &self.steps
    }

    /// The plan with `step` at its end.
    fn with_step(self, step: PipelineStep) -> (plan: Self)
        ensures
            plan@ == self@.push(step),
    {
        let mut steps: Vec<PipelineStep> = Vec::with_capacity(self.steps.len());
        let mut i: usize = 0;
        while i < self.steps.len()
            invariant
                i <= self.steps@.len(),
                steps@ == self.steps@.subrange(0, i as int),
            decreases self.steps@.len() - i,
        {
            steps.push(self.steps[i].clone());
            assert(steps@ =~= self.steps@.subrange(0, i + 1));
            i = i + 1;
        }
        assert(self.steps@.subrange(0, i as int) =~= self.steps@);
        steps.push(step);
        ImageGenerateBuilder { steps: Arc::new(steps) }
    }

    /// Adds a compute step: `wgsl` runs over the current images, reads
    /// `params` from its storage buffer if there are any, and writes an image
    /// of `output_width` by `output_height` pixels.
    pub fn add_wgsl(
        self,
        wgsl: CompiledWgsl,
        params: Option<Vec<u8>>,
        output_width: u32,
        output_height: u32,
    ) -> (plan: Self)
        ensures
            plan@.len() == self@.len() + 1,
            plan@.subrange(0, self@.len() as int) == self@,
            plan@.last() matches PipelineStep::Wgsl {
                wgsl: added,
                params: added_params,
                output_width: added_width,
                output_height: added_height,
            } && *added == wgsl && added_params.is_some() == params.is_some() && (params.is_some()
                ==> *added_params.unwrap() == params.unwrap()) && added_width == output_width
                && added_height == output_height,
    {
        let step = PipelineStep::Wgsl {
            wgsl: Arc::new(wgsl),
            params: shared_params(params),
            output_width,
            output_height,
        };
        let plan = self.with_step(step);
        assert(plan@.subrange(0, self@.len() as int) =~= self@);
        plan
    }

    /// Adds a parallel step: each of `pipelines` runs on the current images,
    /// and what they leave is joined in their order.
    pub fn add_parallel_wgsl(self, pipelines: Vec<ImageGenerateBuilder>) -> (plan: Self)
        ensures
            plan@.len() == self@.len() + 1,
            plan@.subrange(0, self@.len() as int) == self@,
            plan@.last() matches PipelineStep::Parallel { pipelines: added } && *added
                == pipelines,
    {
        let step = PipelineStep::Parallel { pipelines: Arc::new(pipelines) };
        let plan = self.with_step(step);
        assert(plan@.subrange(0, self@.len() as int) =~= self@);
        plan
    }

    /// Adds a CPU step: `func` runs on the current images with `params` and
    /// is to return an image of `output_width` by `output_height` pixels.
    pub fn add_func(
        self,
        func: CompiledFunc,
        params: Option<Vec<u8>>,
        output_width: u32,
        output_height: u32,
    ) -> (plan: Self)
        ensures
            plan@.len() == self@.len() + 1,
            plan@.subrange(0, self@.len() as int) == self@,
            plan@.last() matches PipelineStep::CpuFunc {
                func: added,
                params: added_params,
                output_width: added_width,
                output_height: added_height,
            } && added == func && added_params.is_some() == params.is_some() && (params.is_some()
                ==> *added_params.unwrap() == params.unwrap()) && added_width == output_width
                && added_height == output_height,
    {
        let step = PipelineStep::CpuFunc {
            func,
            params: shared_params(params),
            output_width,
            output_height,
        };
        let plan = self.with_step(step);
        assert(plan@.subrange(0, self@.len() as int) =~= self@);
        plan
    }
}

} // verus!
