//! What can go wrong in the engine.

use vstd::prelude::*;

verus! {

/// An error of the engine. Errors end the operation they occur in: nothing is
/// retried, and no partial image is returned.
#[derive(Clone, Debug, PartialEq, Eq)]
pub enum EngineError {
    /// No adapter or device could be had, or the device lacks a feature or
    /// limit the engine requires. The text is the device layer's.
    Bootstrap(String),
    /// A shader module or its sampler was refused. The text is the device
    /// layer's.
    Compilation(String),
    /// The device refused an operation, or polling or mapping failed. A
    /// shader that does not fit the layout its step derives comes out here,
    /// at the first use of the step. The text is the device layer's.
    Device(String),
    /// A CPU function returned an error. The text is the function's.
    CpuFunction(String),
    /// A CPU function returned a buffer that does not hold four channels for
    /// each pixel of the size its step declares, or of the size it reports.
    CpuOutputSize { expected: u128, actual: u128 },
    /// An image in CPU memory does not hold four channels for each of its
    /// pixels.
    ImageSize { expected: u128, actual: u128 },
    /// A step is to read more images than 32 bits count.
    TooManyInputs { count: usize },
    /// An image is too large for its rows or its bytes to be counted in the
    /// integers the device takes.
    ImageTooLarge { width: u32, height: u32 },
    /// The device returned a number of bytes other than the one asked for.
    Readback { expected: u128, actual: u128 },
    /// After the last step the state holds `count` images, not one.
    FinalStateArity { count: usize },
}

impl EngineError {
    /// Whether the error is one that a step of a plan can end with: any
    /// error but those of bootstrap, of compiling a shader, and of the number
    /// of images at the end.
    pub open spec fn is_step_error(&self) -> bool {
        ||| *self is Device
        ||| *self is CpuFunction
        ||| *self is CpuOutputSize
        ||| *self is ImageSize
        ||| *self is ImageTooLarge
        ||| *self is TooManyInputs
        ||| *self is Readback
    }
}

} // verus!
