use gpu_util::descriptors::{
    engine_requirements, BindingKind, LayoutEntry, BUFFER_COPY_DST, BUFFER_COPY_SRC,
    BUFFER_MAP_READ, BUFFER_STORAGE, OUTPUT_TEXTURE_USAGE, PACKED_BUFFER_USAGE,
    READBACK_BUFFER_USAGE, TEXTURE_BINDING, TEXTURE_COPY_DST, TEXTURE_COPY_SRC,
    TEXTURE_STORAGE_BINDING, UPLOAD_TEXTURE_USAGE,
};
use gpu_util::error::EngineError;
use gpu_util::image_generator::wgsl_process::pad_params;
use gpu_util::image_generator::settle_pass;
use gpu_util::layout::{
    output_binding, params_group_entries, pipeline_group_entries, post_process_entries, row_bytes,
    row_pitch, sampler_binding, strip_row_padding, texture_group_entries, workgroup_count,
};

#[test]
fn workgroups_cover_the_extent() {
    assert_eq!(workgroup_count(0), 0);
    assert_eq!(workgroup_count(1), 1);
    assert_eq!(workgroup_count(15), 1);
    assert_eq!(workgroup_count(16), 1);
    assert_eq!(workgroup_count(17), 2);
    assert_eq!(workgroup_count(32), 2);
    assert_eq!(workgroup_count(1920), 120);
    assert_eq!(workgroup_count(1080), 68);
    assert_eq!(workgroup_count(u32::MAX), 268_435_456);
    for extent in 0..2000u32 {
        let count = workgroup_count(extent);
        assert!(count * 16 >= extent);
        assert!(count == 0 || (count - 1) * 16 < extent);
    }
}

#[test]
fn output_and_sampler_bindings() {
    assert_eq!(output_binding(0), 0);
    assert_eq!(output_binding(1), 1);
    assert_eq!(output_binding(7), 1);
    assert_eq!(sampler_binding(0), 1);
    assert_eq!(sampler_binding(1), 2);
    assert_eq!(sampler_binding(7), 2);
}

#[test]
fn texture_group_of_a_generator() {
    assert_eq!(
        texture_group_entries(0, None),
        vec![LayoutEntry { binding: 0, kind: BindingKind::OutputTexture, count: 0 }]
    );
    assert_eq!(
        texture_group_entries(0, Some(true)),
        vec![
            LayoutEntry { binding: 0, kind: BindingKind::OutputTexture, count: 0 },
            LayoutEntry { binding: 1, kind: BindingKind::Sampler { filtering: true }, count: 0 },
        ]
    );
}

#[test]
fn texture_group_of_a_step_with_inputs() {
    assert_eq!(
        texture_group_entries(3, None),
        vec![
            LayoutEntry { binding: 0, kind: BindingKind::SampledTexture, count: 3 },
            LayoutEntry { binding: 1, kind: BindingKind::OutputTexture, count: 0 },
        ]
    );
    assert_eq!(
        texture_group_entries(1, Some(false)),
        vec![
            LayoutEntry { binding: 0, kind: BindingKind::SampledTexture, count: 1 },
            LayoutEntry { binding: 1, kind: BindingKind::OutputTexture, count: 0 },
            LayoutEntry { binding: 2, kind: BindingKind::Sampler { filtering: false }, count: 0 },
        ]
    );
}

#[test]
fn fixed_groups() {
    assert_eq!(
        params_group_entries(),
        vec![LayoutEntry { binding: 0, kind: BindingKind::StorageBuffer { read_only: true }, count: 0 }]
    );
    assert_eq!(
        post_process_entries(),
        vec![
            LayoutEntry { binding: 0, kind: BindingKind::SampledTexture, count: 0 },
            LayoutEntry { binding: 1, kind: BindingKind::StorageBuffer { read_only: false }, count: 0 },
        ]
    );
}

#[test]
fn rows_are_padded_to_256_bytes() {
    assert_eq!(row_bytes(0), 0);
    assert_eq!(row_bytes(1), 16);
    assert_eq!(row_bytes(5), 80);
    assert_eq!(row_pitch(0), 0);
    assert_eq!(row_pitch(1), 256);
    assert_eq!(row_pitch(5), 256);
    assert_eq!(row_pitch(16), 256);
    assert_eq!(row_pitch(17), 512);
    assert_eq!(row_pitch(1920), 30720);
    assert_eq!(row_pitch(u32::MAX), 68_719_476_736);
    for width in 1..600u32 {
        let pitch = row_pitch(width);
        assert_eq!(pitch % 256, 0);
        assert!(pitch >= 256);
        assert!(pitch >= row_bytes(width));
        assert!(pitch - row_bytes(width) < 256);
    }
}

#[test]
fn stripping_recovers_the_tight_image() {
    let width = 3u32;
    let height = 2u32;
    let mut padded = vec![0xEEu8; 512];
    for row in 0..2usize {
        for column in 0..48usize {
            padded[row * 256 + column] = (row * 48 + column) as u8;
        }
    }
    let tight = strip_row_padding(&padded, width, height).expect("the buffer has two padded rows");
    assert_eq!(tight.len(), 96);
    assert_eq!(tight, (0..96u8).collect::<Vec<u8>>());
}

#[test]
fn stripping_a_row_that_needs_no_padding() {
    let padded: Vec<u8> = (0..=255u8).chain(0..=255u8).collect();
    assert_eq!(strip_row_padding(&padded, 16, 2), Some(padded.clone()));
}

#[test]
fn stripping_refuses_other_lengths() {
    assert_eq!(strip_row_padding(&vec![0; 511], 3, 2), None);
    assert_eq!(strip_row_padding(&vec![0; 513], 3, 2), None);
    assert_eq!(strip_row_padding(&vec![0; 96], 3, 2), None);
    assert_eq!(strip_row_padding(&Vec::new(), 3, 2), None);
    assert_eq!(strip_row_padding(&vec![0; 1], 0, 2), None);
}

#[test]
fn stripping_an_image_without_pixels() {
    assert_eq!(strip_row_padding(&Vec::new(), 0, 0), Some(Vec::new()));
    assert_eq!(strip_row_padding(&Vec::new(), 0, 9), Some(Vec::new()));
    assert_eq!(strip_row_padding(&Vec::new(), 9, 0), Some(Vec::new()));
}

#[test]
fn parameters_are_padded_with_zeros() {
    assert_eq!(pad_params(&Vec::new()), Vec::<u8>::new());
    assert_eq!(pad_params(&vec![1]), vec![1, 0, 0, 0]);
    assert_eq!(pad_params(&vec![1, 2]), vec![1, 2, 0, 0]);
    assert_eq!(pad_params(&vec![1, 2, 3]), vec![1, 2, 3, 0]);
    assert_eq!(pad_params(&vec![1, 2, 3, 4]), vec![1, 2, 3, 4]);
    assert_eq!(pad_params(&vec![1, 2, 3, 4, 5]), vec![1, 2, 3, 4, 5, 0, 0, 0]);
}

#[test]
fn usage_constants_are_the_bits_of_the_device() {
    assert_eq!(TEXTURE_COPY_SRC, wgpu::TextureUsages::COPY_SRC.bits());
    assert_eq!(TEXTURE_COPY_DST, wgpu::TextureUsages::COPY_DST.bits());
    assert_eq!(TEXTURE_BINDING, wgpu::TextureUsages::TEXTURE_BINDING.bits());
    assert_eq!(TEXTURE_STORAGE_BINDING, wgpu::TextureUsages::STORAGE_BINDING.bits());
    assert_eq!(
        UPLOAD_TEXTURE_USAGE,
        (wgpu::TextureUsages::TEXTURE_BINDING | wgpu::TextureUsages::COPY_DST).bits()
    );
    assert_eq!(
        OUTPUT_TEXTURE_USAGE,
        (wgpu::TextureUsages::TEXTURE_BINDING
            | wgpu::TextureUsages::STORAGE_BINDING
            | wgpu::TextureUsages::COPY_SRC)
            .bits()
    );
    assert_eq!(BUFFER_MAP_READ, wgpu::BufferUsages::MAP_READ.bits());
    assert_eq!(BUFFER_COPY_SRC, wgpu::BufferUsages::COPY_SRC.bits());
    assert_eq!(BUFFER_COPY_DST, wgpu::BufferUsages::COPY_DST.bits());
    assert_eq!(BUFFER_STORAGE, wgpu::BufferUsages::STORAGE.bits());
    assert_eq!(
        PACKED_BUFFER_USAGE,
        (wgpu::BufferUsages::STORAGE | wgpu::BufferUsages::COPY_SRC).bits()
    );
    assert_eq!(
        READBACK_BUFFER_USAGE,
        (wgpu::BufferUsages::MAP_READ | wgpu::BufferUsages::COPY_DST).bits()
    );
}

#[test]
fn requirements_of_the_engine() {
    let requirements = engine_requirements();
    assert!(requirements.texture_binding_array);
    assert!(requirements.non_uniform_indexing);
    assert_eq!(requirements.max_binding_array_elements, 1000);
    assert_eq!(requirements.max_storage_buffer_binding_size, 2_147_483_647);
}

#[test]
fn pipeline_has_the_parameter_group_only_with_parameters() {
    assert_eq!(pipeline_group_entries(0, false, false, false), vec![texture_group_entries(0, None)]);
    assert_eq!(pipeline_group_entries(0, false, false, true), vec![texture_group_entries(0, None)]);
    assert_eq!(
        pipeline_group_entries(2, false, true, false),
        vec![texture_group_entries(2, Some(false))]
    );
    assert_eq!(
        pipeline_group_entries(3, true, true, true),
        vec![texture_group_entries(3, Some(true)), params_group_entries()]
    );
    assert_eq!(
        pipeline_group_entries(1, true, false, true),
        vec![
            vec![
                LayoutEntry { binding: 0, kind: BindingKind::SampledTexture, count: 1 },
                LayoutEntry { binding: 1, kind: BindingKind::OutputTexture, count: 0 },
            ],
            vec![LayoutEntry {
                binding: 0,
                kind: BindingKind::StorageBuffer { read_only: true },
                count: 0
            }],
        ]
    );
}

#[test]
fn first_refusal_of_a_pass_is_its_error() {
    assert_eq!(settle_pass(None, Ok(())), Ok(()));
    assert_eq!(
        settle_pass(None, Err(String::from("end"))),
        Err(EngineError::Device(String::from("end")))
    );
    assert_eq!(
        settle_pass(Some(String::from("first")), Ok(())),
        Err(EngineError::Device(String::from("first")))
    );
    assert_eq!(
        settle_pass(Some(String::from("first")), Err(String::from("end"))),
        Err(EngineError::Device(String::from("first")))
    );
}
