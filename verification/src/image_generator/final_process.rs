//! The final conversion to 8-bit pixels.

use crate::compiled_func::channel_count;
use crate::descriptors::{PACKED_BUFFER_USAGE, READBACK_BUFFER_USAGE};
use crate::device::{
    bind_buffer, bind_texture, copy_buffer_to_buffer, create_bind_group, create_command_encoder,
    create_view, read_buffer,
};
use crate::error::EngineError;
use crate::image_generator::{ImageGenerator, ProcessingState, StepOutput};
use crate::layout::{post_process_entries, workgroup_count};
use crate::lru_cache::{follows, lemma_follows_in_a_row, lemma_follows_nothing, lemma_follows_one};
use crate::quantize::{quantize_channels, quantized_seq};
use vstd::prelude::*;

verus! {

/// The number of bytes of the final image of `width` by `height` pixels: one
/// byte for each of the four channels of each pixel.
pub open spec fn packed_len(width: u32, height: u32) -> nat {
    (4 * width * height) as nat
}

/// The keys of the buffers that the conversion on the device uses, in the
/// order it uses them: the buffer the shader packs the pixels into, then the
/// buffer that is mapped and read. An image without pixels uses none.
pub open spec fn buffer_keys(width: u32, height: u32) -> Seq<(u64, u32)> {
    if packed_len(width, height) == 0 {
        Seq::empty()
    } else {
        seq![
            (packed_len(width, height) as u64, PACKED_BUFFER_USAGE),
            (packed_len(width, height) as u64, READBACK_BUFFER_USAGE),
        ]
    }
}

/// The keys of the buffers that the final conversion of an image of the shape
/// `shape` uses: those of `buffer_keys` for an image on the device, none for
/// an image in CPU memory.
pub open spec fn final_buffer_keys(shape: crate::image_generator::ImageShape) -> Seq<(u64, u32)> {
    if shape.on_gpu {
        buffer_keys(shape.width, shape.height)
    } else {
        Seq::empty()
    }
}

/// What the conversion on the device does to the buffer cache when it
/// succeeds: it uses the keys of `buffer_keys` in order.
pub open spec fn buffers_after_conversion(
    before: ImageGenerator,
    after: ImageGenerator,
    width: u32,
    height: u32,
) -> bool {
    follows(
        before.buffer_entries(),
        after.buffer_entries(),
        buffer_keys(width, height),
        before.buffer_bound(),
    )
}

/// Converts the image of a texture of `width` by `height` texels to
/// `4 * width * height` bytes on the device and reads them back.
///
/// The shader of the final conversion writes one packed pixel for each texel
/// into a cached storage buffer, which is copied into a cached buffer that is
/// mapped and read. An image without pixels takes no device work.
///
/// An image whose bytes cannot be counted is refused with
/// `EngineError::ImageTooLarge` before the device is asked. Otherwise the
/// device decides: what it refuses is `EngineError::Device`, and what becomes
/// of the bytes it hands back is what `accept_readback` says.
pub fn convert_on_device(
    generator: &mut ImageGenerator,
    texture: &wgpu::Texture,
    width: u32,
    height: u32,
) -> (image: Result<Vec<u8>, EngineError>)
    requires
        old(generator).wf(),
    ensures
        final(generator).wf(),
        final(generator).same_setup(old(generator)),
        final(generator).pipeline_entries() == old(generator).pipeline_entries(),
        final(generator).texture_entries() == old(generator).texture_entries(),
        packed_len(width, height) > usize::MAX ==> image == Err::<Vec<u8>, EngineError>(
            EngineError::ImageTooLarge { width, height },
        ),
        packed_len(width, height) == 0 ==> image is Ok,
        match image {
            Ok(bytes) => bytes@.len() == packed_len(width, height) && buffers_after_conversion(
                *old(generator),
                *final(generator),
                width,
                height,
            ),
            Err(error) => packed_len(width, height) <= usize::MAX ==> error is Device || error
                 is Readback,
        },
{
    let size: u128 = channel_count(width, height);
    if size > usize::MAX as u128 {
        return Err(EngineError::ImageTooLarge { width, height });
    }
    if size == 0 {
        proof {
            lemma_follows_nothing(generator.buffer_entries(), generator.buffer_bound());
        }
        return Ok(Vec::new());
    }
    let size: u64 = size as u64;
    let packed = match generator.get_or_create_buffer(size, PACKED_BUFFER_USAGE, "Final U32 Buffer") {
        Ok(buffer) => buffer,
        Err(error) => {
            return Err(error);
        },
    };
    let ghost between = generator.buffer_entries();
    proof {
        lemma_follows_one(
            old(generator).buffer_entries(),
            (size, PACKED_BUFFER_USAGE),
            packed,
            old(generator).buffer_bound(),
        );
    }
    let view = match create_view(&generator.device, texture) {
        Ok(view) => view,
        Err(message) => {
            return Err(EngineError::Device(message));
        },
    };
    let planned = post_process_entries();
    let mut entries: Vec<wgpu::BindGroupEntry> = Vec::new();
    entries.push(bind_texture(planned[0].binding, &view));
    entries.push(bind_buffer(planned[1].binding, &packed));
    let group = match create_bind_group(
        &generator.device,
        "Post Process Bind Group",
        &generator.post_process_bind_group_layout,
        &entries,
    ) {
        Ok(group) => group,
        Err(message) => {
            return Err(EngineError::Device(message));
        },
    };
    let mut groups: Vec<wgpu::BindGroup> = Vec::new();
    groups.push(group);
    let mut encoder = match create_command_encoder(&generator.device, "Final Process Encoder") {
        Ok(encoder) => encoder,
        Err(message) => {
            return Err(EngineError::Device(message));
        },
    };
    match generator.encode_compute_pass(
        &mut encoder,
        "Post Process Pass",
        &generator.post_process_pipeline,
        &groups,
        workgroup_count(width),
        workgroup_count(height),
    ) {
        Ok(()) => {},
        Err(error) => {
            return Err(error);
        },
    }
    let readback = match generator.get_or_create_buffer(
        size,
        READBACK_BUFFER_USAGE,
        "Final Readback Buffer",
    ) {
        Ok(buffer) => buffer,
        Err(error) => {
            return Err(error);
        },
    };
    proof {
        let bound = old(generator).buffer_bound();
        lemma_follows_one(between, (size, READBACK_BUFFER_USAGE), readback, bound);
        lemma_follows_in_a_row(
            old(generator).buffer_entries(),
            between,
            generator.buffer_entries(),
            seq![(size, PACKED_BUFFER_USAGE)],
            seq![(size, READBACK_BUFFER_USAGE)],
            bound,
        );
        assert(seq![(size, PACKED_BUFFER_USAGE)] + seq![(size, READBACK_BUFFER_USAGE)]
            =~= buffer_keys(width, height));
    }
    match copy_buffer_to_buffer(&generator.device, &mut encoder, &packed, &readback, size) {
        Ok(()) => {},
        Err(message) => {
            return Err(EngineError::Device(message));
        },
    }
    let mut encoders: Vec<wgpu::CommandEncoder> = Vec::new();
    encoders.push(encoder);
    match generator.submit_all(&mut encoders) {
        Ok(()) => {},
        Err(error) => {
            return Err(error);
        },
    }
    match read_buffer(&generator.device, &readback) {
        Ok(bytes) => accept_readback(bytes, size),
        Err(message) => Err(EngineError::Device(message)),
    }
}

/// What becomes of the bytes that were read back where `expected` bytes were
/// asked for: they are the image if they are as many, and
/// `EngineError::Readback` with both numbers if they are not.
pub open spec fn readback_accepted(bytes: Vec<u8>, expected: u64) -> Result<Vec<u8>, EngineError> {
    if bytes@.len() == expected {
        Ok(bytes)
    } else {
        Err(EngineError::Readback { expected: expected as u128, actual: bytes@.len() as u128 })
    }
}

/// Settles what becomes of the bytes that the device handed back, as
/// `readback_accepted` says.
pub fn accept_readback(bytes: Vec<u8>, expected: u64) -> (image: Result<Vec<u8>, EngineError>)
    ensures
        image == readback_accepted(bytes, expected),
{
    if bytes.len() as u128 == expected as u128 {
        Ok(bytes)
    } else {
        Err(EngineError::Readback { expected: expected as u128, actual: bytes.len() as u128 })
    }
}

/// What the final conversion returns for an image in CPU memory: its
/// channels as bytes, each scaled by 255, clamped and truncated, if there are
/// four channels for each pixel; `EngineError::ImageSize` if there are not.
pub open spec fn converted_on_cpu(data: Seq<u32>, width: u32, height: u32) -> Result<
    Seq<u8>,
    EngineError,
> {
    if data.len() == 4 * width * height {
        Ok(quantized_seq(data))
    } else {
        Err(
            EngineError::ImageSize {
                expected: (4 * width * height) as u128,
                actual: data.len() as u128,
            },
        )
    }
}

/// Converts the image that a run left into the bytes of the final image:
/// `4 * width * height` bytes, four for each pixel in the order red, green,
/// blue, alpha, rows from the top, pixels from the left.
///
/// A state of any number of images but one is `EngineError::FinalStateArity`
/// with that number. An image in CPU memory is converted here, exactly as
/// `converted_on_cpu` says, and the caches stay as they are. An image on the
/// device is converted there, by `convert_on_device`, which uses the buffer
/// cache.
pub fn handle_final_process(generator: &mut ImageGenerator, final_state: ProcessingState) -> (image:
    Result<Vec<u8>, EngineError>)
    requires
        old(generator).wf(),
    ensures
        final(generator).wf(),
        final(generator).same_setup(old(generator)),
        final(generator).pipeline_entries() == old(generator).pipeline_entries(),
        final(generator).texture_entries() == old(generator).texture_entries(),
        final_state@.len() != 1 || !final_state@[0].shape().on_gpu
            ==> final(generator).buffer_entries() == old(generator).buffer_entries(),
        final_state@.len() == 1 && final_state@[0].shape().on_gpu && image is Ok
            ==> buffers_after_conversion(
            *old(generator),
            *final(generator),
            final_state@[0].shape().width,
            final_state@[0].shape().height,
        ),
        final_state@.len() != 1 ==> image == Err::<Vec<u8>, EngineError>(
            EngineError::FinalStateArity { count: final_state@.len() as usize },
        ),
        final_state@.len() == 1 ==> match final_state@[0] {
            StepOutput::Cpu { data, width, height } => match converted_on_cpu(
                data@,
                width,
                height,
            ) {
                Ok(bytes) => image is Ok && image->Ok_0@ == bytes,
                Err(error) => image == Err::<Vec<u8>, EngineError>(error),
            },
            StepOutput::Gpu { width, height, .. } => {
                &&& packed_len(width, height) > usize::MAX ==> image == Err::<
                    Vec<u8>,
                    EngineError,
                >(EngineError::ImageTooLarge { width, height })
                &&& packed_len(width, height) == 0 ==> image is Ok
                &&& image is Err && packed_len(width, height) <= usize::MAX ==> image->Err_0
                     is Device || image->Err_0 is Readback
            },
        },
        image is Err && final_state@.len() == 1 ==> image->Err_0.is_step_error(),
        image is Ok ==> final_state@.len() == 1 && image->Ok_0@.len() == packed_len(
            final_state@[0].shape().width,
            final_state@[0].shape().height,
        ),
{
    let mut final_state = final_state;
    if final_state.len() != 1 {
        return Err(EngineError::FinalStateArity { count: final_state.len() });
    }
    let only = final_state.remove(0);
    match only {
        StepOutput::Gpu { texture, width, height } => convert_on_device(
            generator,
            &texture,
            width,
            height,
        ),
        StepOutput::Cpu { data, width, height } => {
            let expected: u128 = channel_count(width, height);
            let actual: u128 = data.len() as u128;
            if actual == expected {
                Ok(quantize_channels(&data))
            } else {
                Err(EngineError::ImageSize { expected, actual })
            }
        },
    }
}

} // verus!
