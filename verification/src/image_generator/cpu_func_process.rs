//! The CPU step, and the download of images from the device.

use crate::compiled_func::{
    answers, channel_count, check_output, CompiledFunc, CpuFunction, CpuInputImage, CpuOutput,
};
use crate::descriptors::READBACK_BUFFER_USAGE;
use crate::device::{
    bytes_to_words, copy_texture_to_buffer, create_buffer, create_command_encoder, read_buffer,
    wait_for_queue,
};
use crate::error::EngineError;
use crate::image_generator::{ImageGenerator, ImageShape, ProcessingState, StepOutput};
use crate::layout::{row_pitch, strip_row_padding};
use std::sync::Arc;
use vstd::prelude::*;

verus! {

/// Whether an image of `width` by `height` texels can be copied into a
/// buffer: its padded rows and the whole buffer can be counted in the
/// integers the device takes.
pub open spec fn downloadable(width: u32, height: u32) -> bool {
    &&& crate::layout::padded_row_bytes(width as nat) <= u32::MAX
    &&& crate::layout::padded_row_bytes(width as nat) * height <= usize::MAX
}

/// Reads the image of a texture of `width` by `height` texels back into CPU
/// memory: `4 * width * height` channels, rows tightly packed.
///
/// The texture is copied into a buffer whose rows start at multiples of 256
/// bytes, the copy is submitted at once, the buffer is mapped and read, and
/// the bytes between the rows are dropped. An image without pixels takes no
/// device work.
///
/// An image that is not `downloadable` is refused with
/// `EngineError::ImageTooLarge` before the device is asked. Otherwise the
/// device decides: what it refuses is `EngineError::Device`, and what
/// becomes of the bytes it hands back is what `accept_download` says.
pub fn download_gpu_texture(
    generator: &ImageGenerator,
    texture: &wgpu::Texture,
    width: u32,
    height: u32,
) -> (image: Result<Vec<u32>, EngineError>)
    ensures
        !downloadable(width, height) ==> image == Err::<Vec<u32>, EngineError>(
            EngineError::ImageTooLarge { width, height },
        ),
        match image {
            Ok(channels) => channels@.len() == 4 * width * height && downloadable(width, height),
            Err(error) => downloadable(width, height) ==> error is Device || error is Readback,
        },
        downloadable(width, height) && (width == 0 || height == 0) ==> image is Ok,
{
    let pitch: u64 = row_pitch(width);
    assert(pitch * height <= 0x20_0000_0000 * 0x1_0000_0000) by (nonlinear_arith)
        requires
            pitch <= 0x20_0000_0000,
            height <= 0x1_0000_0000,
    ;
    let size: u128 = (pitch as u128) * (height as u128);
    if pitch > 0xffff_ffffu64 || size > usize::MAX as u128 {
        return Err(EngineError::ImageTooLarge { width, height });
    }
    assert(size == 0 <==> (width == 0 || height == 0)) by (nonlinear_arith)
        requires
            size == pitch * height,
            pitch >= 16 * width,
            width == 0 ==> pitch == 0,
    ;
    if size == 0 {
        let empty: Vec<u32> = Vec::new();
        assert(4 * width * height == 0) by (nonlinear_arith)
            requires
                width == 0 || height == 0,
        ;
        return Ok(empty);
    }
    let size: u64 = size as u64;
    let buffer = match create_buffer(
        &generator.device,
        "Readback Buffer",
        size,
        READBACK_BUFFER_USAGE,
    ) {
        Ok(buffer) => buffer,
        Err(message) => {
            return Err(EngineError::Device(message));
        },
    };
    let mut encoder = match create_command_encoder(&generator.device, "Readback Encoder") {
        Ok(encoder) => encoder,
        Err(message) => {
            return Err(EngineError::Device(message));
        },
    };
    match copy_texture_to_buffer(
        &generator.device,
        &mut encoder,
        texture,
        &buffer,
        pitch as u32,
        width,
        height,
    ) {
        Ok(()) => {},
        Err(message) => {
            return Err(EngineError::Device(message));
        },
    }
    let mut encoders: Vec<wgpu::CommandEncoder> = Vec::new();
    encoders.push(encoder);
    match generator.submit_all(&mut encoders) {
        Ok(()) => {},
        Err(error) => {
            return Err(error);
        },
    }
    let padded = match read_buffer(&generator.device, &buffer) {
        Ok(bytes) => bytes,
        Err(message) => {
            return Err(EngineError::Device(message));
        },
    };
    accept_download(padded, width, height)
}

/// Settles what becomes of the bytes that were read back for an image of
/// `width` by `height` texels. Bytes that are exactly `height` rows, each as
/// long as the padded row, are the image: its `4 * width * height` channels,
/// the bytes between the rows dropped. Any other number of bytes is
/// `EngineError::Readback`, with the number that was asked for and the number
/// that came.
pub fn accept_download(padded: Vec<u8>, width: u32, height: u32) -> (image: Result<
    Vec<u32>,
    EngineError,
>)
    ensures
        match image {
            Ok(channels) => {
                &&& padded@.len() == crate::layout::padded_row_bytes(width as nat) * height
                &&& channels@.len() == 4 * width * height
            },
            Err(error) => {
                &&& padded@.len() != crate::layout::padded_row_bytes(width as nat) * height
                &&& error == (EngineError::Readback {
                    expected: (crate::layout::padded_row_bytes(width as nat) * height) as u128,
                    actual: padded@.len() as u128,
                })
            },
        },
{
    match strip_row_padding(&padded, width, height) {
        Some(tight) => {
            let channels = bytes_to_words(tight.as_slice());
            proof {
                let pixels = width * height;
                assert(16 * width * height == 16 * pixels && 4 * width * height == 4 * pixels)
                    by (nonlinear_arith)
                    requires
                        pixels == width * height,
                ;
            }
            Ok(channels)
        },
        None => {
            let pitch: u64 = row_pitch(width);
            assert(pitch * height <= 0x20_0000_0000 * 0x1_0000_0000) by (nonlinear_arith)
                requires
                    pitch <= 0x20_0000_0000,
                    height <= 0x1_0000_0000,
            ;
            let expected: u128 = (pitch as u128) * (height as u128);
            Err(EngineError::Readback { expected, actual: padded.len() as u128 })
        },
    }
}

/// Hands the images to the function of a CPU step and checks what comes
/// back.
///
/// The function runs only here, once, and only when no recorded work is
/// pending: whatever was recorded before has been submitted. It is handed
/// `inputs` as they are and the bytes of `params`.
///
/// An error of the function is `EngineError::CpuFunction` with its message.
/// An image that is not `output_accepted` for the declared size is
/// `EngineError::CpuOutputSize`. Any other image is passed on with the
/// declared size.
pub fn run_cpu_function(
    func: &CompiledFunc,
    inputs: &Vec<CpuInputImage>,
    params: &Option<Arc<Vec<u8>>>,
    output_width: u32,
    output_height: u32,
    pending: &Vec<wgpu::CommandEncoder>,
) -> (image: Result<StepOutput, EngineError>)
    requires
        pending@.len() == 0,
    ensures
        function_answered(
            *func,
            inputs@,
            step_params(*params),
            output_width,
            output_height,
            image,
        ),
        match image {
            Ok(output) => cpu_output(output, output_width, output_height),
            Err(error) => error is CpuFunction || error is CpuOutputSize,
        },
{
    let returned = match params {
        Some(bytes) => func.invoke(inputs.as_slice(), Some(bytes.as_slice())),
        None => func.invoke(inputs.as_slice(), None),
    };
    accept_output(returned, output_width, output_height)
}

/// What a CPU step leaves: an image in CPU memory of the declared size, with
/// four channels for each pixel.
pub open spec fn cpu_output(output: StepOutput, width: u32, height: u32) -> bool {
    &&& output.shape() == (ImageShape { on_gpu: false, width, height })
    &&& output matches StepOutput::Cpu { data, .. } && data@.len() == 4 * width * height
}

/// Whether `image` is what becomes of the answer `returned` of a CPU function
/// whose step declares `output_width` by `output_height` pixels: the channels
/// of its image with the declared size if the image is `output_accepted`,
/// `EngineError::CpuOutputSize` if it is not, and `EngineError::CpuFunction`
/// with the message if the function failed.
pub open spec fn accepted(
    returned: Result<CpuOutput, String>,
    output_width: u32,
    output_height: u32,
    image: Result<StepOutput, EngineError>,
) -> bool {
    match returned {
        Ok(output) => if crate::compiled_func::output_accepted(
            output,
            output_width,
            output_height,
        ) {
            image matches Ok(StepOutput::Cpu { data, width, height }) && *data == output.data
                && width == output_width && height == output_height
        } else {
            image == Err::<StepOutput, EngineError>(
                EngineError::CpuOutputSize {
                    expected: (4 * output_width * output_height) as u128,
                    actual: output.data@.len() as u128,
                },
            )
        },
        Err(message) => image == Err::<StepOutput, EngineError>(EngineError::CpuFunction(message)),
    }
}

/// The parameter bytes of a step, if it has any.
pub open spec fn step_params(params: Option<Arc<Vec<u8>>>) -> Option<Seq<u8>> {
    match params {
        Some(bytes) => Some(bytes@),
        None => None,
    }
}

/// Whether `image` is what a CPU step with the function `func` makes of the
/// images `inputs` and the parameters `params`: the function was asked once,
/// with exactly these images in this order and these parameters, and `image`
/// is what `accepted` says of its answer.
pub open spec fn function_answered(
    func: CompiledFunc,
    inputs: Seq<CpuInputImage>,
    params: Option<Seq<u8>>,
    output_width: u32,
    output_height: u32,
    image: Result<StepOutput, EngineError>,
) -> bool {
    exists|returned: Result<CpuOutput, String>|
        #[trigger] answers::<dyn CpuFunction>(&*func.func, inputs, params, returned) && accepted(
            returned,
            output_width,
            output_height,
            image,
        )
}

/// Settles what becomes of the answer of a CPU function, as `accepted` says.
pub fn accept_output(
    returned: Result<CpuOutput, String>,
    output_width: u32,
    output_height: u32,
) -> (image: Result<StepOutput, EngineError>)
    ensures
        accepted(returned, output_width, output_height, image),
{
    match returned {
        Ok(output) => {
            if check_output(&output, output_width, output_height) {
                Ok(
                    StepOutput::Cpu {
                        data: Arc::new(output.data),
                        width: output_width,
                        height: output_height,
                    },
                )
            } else {
                Err(
                    EngineError::CpuOutputSize {
                        expected: channel_count(output_width, output_height),
                        actual: output.data.len() as u128,
                    },
                )
            }
        },
        Err(message) => Err(EngineError::CpuFunction(message)),
    }
}

/// Whether some image of a state lives on the device.
pub open spec fn any_on_gpu(state: Seq<StepOutput>) -> bool {
    exists|i: int| 0 <= i < state.len() && (#[trigger] state[i]).shape().on_gpu
}

/// Whether every image of a state that lives on the device can be read back.
pub open spec fn all_downloadable(state: Seq<StepOutput>) -> bool {
    forall|i: int|
        0 <= i < state.len() && (#[trigger] state[i]).shape().on_gpu ==> downloadable(
            state[i].shape().width,
            state[i].shape().height,
        )
}

/// What an image is after the download of its state: an image in CPU memory
/// is itself; an image on the device is an image in CPU memory of the same
/// size with four channels for each pixel.
pub open spec fn downloaded_from(image: StepOutput, source: StepOutput) -> bool {
    match source {
        StepOutput::Cpu { .. } => image == source,
        StepOutput::Gpu { width, height, .. } => image matches StepOutput::Cpu {
            data,
            width: image_width,
            height: image_height,
        } && image_width == width && image_height == height && data@.len() == 4 * width * height,
    }
}

/// Brings every image of `state` into CPU memory, in order: images that are
/// there already are taken as they are, images on the device are read back.
///
/// Afterwards `state` is empty, also on an error. The first image that
/// cannot be read back ends the download with its error. A state without
/// images on the device cannot fail.
pub fn download_all(generator: &ImageGenerator, state: &mut ProcessingState) -> (images: Result<
    Vec<StepOutput>,
    EngineError,
>)
    ensures
        final(state)@.len() == 0,
        match images {
            Ok(owned) => {
                &&& owned@.len() == old(state)@.len()
                &&& forall|i: int|
                    0 <= i < owned@.len() ==> downloaded_from(
                        #[trigger] owned@[i],
                        old(state)@[i],
                    )
                &&& all_downloadable(old(state)@)
            },
            Err(error) => {
                ||| error is Device
                ||| error is Readback
                ||| error is ImageTooLarge && !all_downloadable(old(state)@)
            },
        },
        !all_downloadable(old(state)@) ==> images is Err,
        !any_on_gpu(old(state)@) ==> images is Ok,
{
    let mut owned: Vec<StepOutput> = Vec::with_capacity(state.len());
    let mut failure: Option<EngineError> = None;
    let ghost before = state@;
    while state.len() > 0
        invariant
            state@.len() <= before.len(),
            state@ == before.subrange(before.len() - state@.len(), before.len() as int),
            failure.is_none() ==> owned@.len() == before.len() - state@.len(),
            failure.is_none() ==> forall|i: int|
                0 <= i < owned@.len() ==> downloaded_from(#[trigger] owned@[i], before[i]),
            failure.is_none() ==> forall|i: int|
                0 <= i < owned@.len() && (#[trigger] before[i]).shape().on_gpu ==> downloadable(
                    before[i].shape().width,
                    before[i].shape().height,
                ),
            failure.is_some() ==> {
                let error = failure.unwrap();
                ||| error is Device
                ||| error is Readback
                ||| error is ImageTooLarge && !all_downloadable(before)
            },
            failure.is_some() ==> any_on_gpu(before),
        decreases state@.len(),
    {
        let ghost index = before.len() - state@.len();
        let input = state.remove(0);
        assert(state@ =~= before.subrange(before.len() - state@.len(), before.len() as int));
        assert(input == before[index]);
        if failure.is_none() {
            match input {
                StepOutput::Gpu { texture, width, height } => {
                    match download_gpu_texture(generator, &texture, width, height) {
                        Ok(channels) => owned.push(
                            StepOutput::Cpu { data: Arc::new(channels), width, height },
                        ),
                        Err(error) => {
                            assert(error is ImageTooLarge ==> !downloadable(width, height));
                            assert(before[index].shape().on_gpu);
                            failure = Some(error);
                        },
                    }
                },
                StepOutput::Cpu { data, width, height } => owned.push(
                    StepOutput::Cpu { data, width, height },
                ),
            }
        }
    }
    match failure {
        Some(error) => Err(error),
        None => Ok(owned),
    }
}

/// Whether `input` is the image `image` as a CPU function sees it: the same
/// channels, width and height.
pub open spec fn shows(input: CpuInputImage, image: StepOutput) -> bool {
    image matches StepOutput::Cpu { data, width, height } && input.data@ == data@ && input.width
        == width && input.height == height
}

/// The images of a state in CPU memory as a CPU function sees them, in order.
pub fn assemble_inputs<'a>(owned: &'a Vec<StepOutput>) -> (inputs: Vec<CpuInputImage<'a>>)
    requires
        forall|i: int| 0 <= i < owned@.len() ==> !(#[trigger] owned@[i]).shape().on_gpu,
    ensures
        inputs@.len() == owned@.len(),
        forall|i: int| 0 <= i < inputs@.len() ==> shows(#[trigger] inputs@[i], owned@[i]),
{
    let mut inputs: Vec<CpuInputImage<'a>> = Vec::with_capacity(owned.len());
    let mut i: usize = 0;
    while i < owned.len()
        invariant
            i <= owned@.len(),
            inputs@.len() == i,
            forall|j: int| 0 <= j < owned@.len() ==> !(#[trigger] owned@[j]).shape().on_gpu,
            forall|j: int| 0 <= j < i ==> shows(#[trigger] inputs@[j], owned@[j]),
        decreases owned@.len() - i,
    {
        match &owned[i] {
            StepOutput::Cpu { data, width, height } => inputs.push(
                CpuInputImage { data: data.as_slice(), width: *width, height: *height },
            ),
            StepOutput::Gpu { .. } => {
                assert(owned@[i as int].shape().on_gpu);
            },
        }
        i = i + 1;
    }
    inputs
}

/// Whether `owned` holds the images of `state` after their download, one for
/// one and in order.
pub open spec fn downloaded(owned: Seq<StepOutput>, state: Seq<StepOutput>) -> bool {
    &&& owned.len() == state.len()
    &&& forall|i: int| 0 <= i < owned.len() ==> downloaded_from(#[trigger] owned[i], state[i])
}

/// Whether `inputs` shows the images `owned`, one for one and in order.
pub open spec fn shown(inputs: Seq<CpuInputImage>, owned: Seq<StepOutput>) -> bool {
    &&& inputs.len() == owned.len()
    &&& forall|i: int| 0 <= i < inputs.len() ==> shows(#[trigger] inputs[i], owned[i])
}

/// Whether `image` is what a CPU step makes of the state `state`: the
/// function was asked once, with the images of the state after their
/// download, as many and in the same order, and with the parameters of the
/// step; and `image` is what `accepted` says of its answer.
pub open spec fn step_answered(
    func: CompiledFunc,
    state: Seq<StepOutput>,
    params: Option<Seq<u8>>,
    output_width: u32,
    output_height: u32,
    image: Result<StepOutput, EngineError>,
) -> bool {
    exists|owned: Seq<StepOutput>, inputs: Seq<CpuInputImage>|
        #![trigger downloaded(owned, state), shown(inputs, owned)]
        downloaded(owned, state) && shown(inputs, owned) && function_answered(
            func,
            inputs,
            params,
            output_width,
            output_height,
            image,
        )
}

/// Runs a function on the CPU over the images of `state`.
///
/// First every batch recorded so far is submitted, and the queue is waited
/// for until that work is done. Then the images are brought into CPU memory
/// by `download_all`. The function gets them in the
/// order of the state, as `assemble_inputs` shows them, with `params`. What
/// it returns becomes the only image of the new state, with the size the step
/// declares. No batch is recorded.
///
/// Afterwards `state` is empty and no batch is pending, also on an error.
/// Where nothing is pending and no image of the state lives on the device,
/// the device is not asked for anything, and only the function can fail the
/// step.
pub fn handle_cpu_func_step(
    generator: &mut ImageGenerator,
    state: &mut ProcessingState,
    func: &CompiledFunc,
    params: &Option<Arc<Vec<u8>>>,
    output_width: u32,
    output_height: u32,
    all_encoders: &mut Vec<wgpu::CommandEncoder>,
) -> (result: Result<(ProcessingState, Vec<wgpu::CommandEncoder>), EngineError>)
    requires
        old(generator).wf(),
    ensures
        final(generator).wf(),
        final(generator).same_setup(old(generator)),
        final(generator).pipeline_entries() == old(generator).pipeline_entries(),
        final(generator).texture_entries() == old(generator).texture_entries(),
        final(generator).buffer_entries() == old(generator).buffer_entries(),
        final(state)@.len() == 0,
        final(all_encoders)@.len() == 0,
        !all_downloadable(old(state)@) ==> result is Err,
        old(all_encoders)@.len() == 0 && !any_on_gpu(old(state)@) ==> !(result is Err
            && (result->Err_0 is Device || result->Err_0 is Readback || result->Err_0
             is ImageTooLarge)),
        match result {
            Ok((new_state, encoders)) => {
                &&& new_state@.len() == 1
                &&& cpu_output(new_state@[0], output_width, output_height)
                &&& encoders@.len() == 0
                &&& step_answered(
                    *func,
                    old(state)@,
                    step_params(*params),
                    output_width,
                    output_height,
                    Ok(new_state@[0]),
                )
            },
            Err(error) => {
                &&& {
                    ||| error is Device
                    ||| error is Readback
                    ||| error is ImageTooLarge
                    ||| error is CpuFunction
                    ||| error is CpuOutputSize
                }
                &&& error is CpuFunction || error is CpuOutputSize ==> step_answered(
                    *func,
                    old(state)@,
                    step_params(*params),
                    output_width,
                    output_height,
                    Err(error),
                )
            },
        },
{
    let pending: bool = all_encoders.len() > 0;
    let mut drained = generator.submit_all(all_encoders);
    if pending && drained.is_ok() {
        drained = match wait_for_queue(&generator.device) {
            Ok(()) => Ok(()),
            Err(message) => Err(EngineError::Device(message)),
        };
    }
    match drained {
        Ok(()) => {},
        Err(error) => {
            state.clear();
            return Err(error);
        },
    }
    let owned = match download_all(generator, state) {
        Ok(owned) => owned,
        Err(error) => {
            return Err(error);
        },
    };
    let inputs = assemble_inputs(&owned);
    assert(downloaded(owned@, old(state)@));
    assert(shown(inputs@, owned@));
    match run_cpu_function(func, &inputs, params, output_width, output_height, all_encoders) {
        Ok(output) => {
            let mut new_state: Vec<StepOutput> = Vec::new();
            new_state.push(output);
            Ok((new_state, Vec::new()))
        },
        Err(error) => Err(error),
    }
}

} // verus!
