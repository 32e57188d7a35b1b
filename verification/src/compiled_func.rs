//! Functions that run on the CPU between compute steps.

use std::sync::Arc;
use vstd::prelude::*;

verus! {

/// An image handed to a CPU function: `4 * width * height` channels, row by
/// row from the top left, four to a pixel, each the bit pattern of a
/// single-precision number.
pub struct CpuInputImage<'a> {
    pub data: &'a [u32],
    pub width: u32,
    pub height: u32,
}

/// The image a CPU function returns, in the same layout, with the size the
/// function gives it.
pub struct CpuOutput {
    pub data: Vec<u32>,
    pub width: u32,
    pub height: u32,
}

/// A function over images, supplied by the caller of the engine.
///
/// It is handed the images of the current state in order and the parameters of
/// its step, and returns a new image or an error message. Nothing is assumed
/// of what it returns: the engine checks the size of the image it gets.
pub trait CpuFunction: Send + Sync {
    fn call(&self, inputs: &[CpuInputImage], params: Option<&[u8]>) -> Result<CpuOutput, String>;
}

/// A CPU function that plans can share.
pub struct CompiledFunc {
    pub func: Arc<Box<dyn CpuFunction>>,
}

impl Clone for CompiledFunc {
    /// Another handle to the same function.
    fn clone(&self) -> (copy: Self)
        ensures
            copy == *self,
    {
        CompiledFunc { func: Arc::clone(&self.func) }
    }
}

impl CompiledFunc {
    /// Wraps `func` for use in plans.
    pub fn new(func: Box<dyn CpuFunction>) -> (compiled: Self)
        ensures
            compiled.func == func,
    {
        let shared = Arc::new(func);
        assert(shared == func);
        let compiled = CompiledFunc { func: shared };
        assert(compiled.func == shared);
        compiled
    }

    /// Runs the function on `inputs` with `params` and returns its answer.
    /// The engine calls this from one place only, the CPU step, when nothing
    /// it recorded is left unsubmitted.
    pub(crate) fn invoke(&self, inputs: &[CpuInputImage], params: Option<&[u8]>) -> (result:
        Result<CpuOutput, String>)
        ensures
            answers::<dyn CpuFunction>(&*self.func, inputs@, params_view(params), result),
    {
        ask::<dyn CpuFunction>(&*self.func, inputs, params)
    }
}

/// The parameter bytes that a function is handed, if any.
pub open spec fn params_view(params: Option<&[u8]>) -> Option<Seq<u8>> {
    match params {
        Some(bytes) => Some(bytes@),
        None => None,
    }
}

/// Whether `result` is an answer of the function `func` to the images
/// `inputs`, in this order, and the parameter bytes `params`: something that
/// its `call` can return when it is handed exactly them.
pub closed spec fn answers<F: CpuFunction + ?Sized>(
    func: &Box<F>,
    inputs: Seq<CpuInputImage>,
    params: Option<Seq<u8>>,
    result: Result<CpuOutput, String>,
) -> bool {
    exists|shown: &[CpuInputImage], handed: Option<&[u8]>|
        shown@ == inputs && params_view(handed) == params && #[trigger] call_ensures(
            F::call,
            (&**func, shown, handed),
            result,
        )
}

/// Calls `func` on `inputs` and `params`.
fn ask<F: CpuFunction + ?Sized>(func: &Box<F>, inputs: &[CpuInputImage], params: Option<&[u8]>) -> (result:
    Result<CpuOutput, String>)
    ensures
        answers::<F>(func, inputs@, params_view(params), result),
{
    func.call(inputs, params)
}

/// Whether `length` channels are four for each pixel of `width` by `height`.
pub open spec fn holds_image(length: nat, width: u32, height: u32) -> bool {
    length == 4 * width * height
}

/// The number of channels of an image of `width` by `height` pixels.
pub fn channel_count(width: u32, height: u32) -> (count: u128)
    ensures
        count == 4 * width * height,
{
    assert(4 * width * height <= 4 * 0xffff_ffff * 0xffff_ffff) by (nonlinear_arith)
        requires
            width <= 0xffff_ffff,
            height <= 0xffff_ffff,
    ;
    assert(4 * (width as u128) * (height as u128) == 4 * width * height) by (nonlinear_arith);
    4 * (width as u128) * (height as u128)
}

/// Whether the image a CPU function returned is one its step can pass on: its
/// buffer holds four channels for each pixel of the size the step declares,
/// and for each pixel of the size the function reports.
pub open spec fn output_accepted(output: CpuOutput, declared_width: u32, declared_height: u32) -> bool {
    &&& holds_image(output.data@.len(), declared_width, declared_height)
    &&& holds_image(output.data@.len(), output.width, output.height)
}

/// Checks the image a CPU function returned against the size its step
/// declares.
pub fn check_output(output: &CpuOutput, declared_width: u32, declared_height: u32) -> (accepted:
    bool)
    ensures
        accepted == output_accepted(*output, declared_width, declared_height),
{
    let length: u128 = output.data.len() as u128;
    length == channel_count(declared_width, declared_height) && length == channel_count(
        output.width,
        output.height,
    )
}

} // verus!
