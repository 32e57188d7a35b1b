//! The numbers the engine hands to the device: dispatch sizes, binding
//! indices, bind group layouts and row pitches.

use crate::descriptors::{BindingKind, LayoutEntry};
use vstd::prelude::*;

verus! {

/// Edge length, in invocations, of the square workgroup that every compute
/// shader of the engine is written for.
pub const WORKGROUP_EDGE: u32 = 16;

/// Bytes of one texel of an intermediate image: four 32-bit channels.
pub const TEXEL_BYTES: u64 = 16;

/// Rows of a texture copied into a buffer start at multiples of this.
pub const ROW_ALIGNMENT: u64 = 256;

/// The least number of workgroups that cover `extent` invocations.
pub open spec fn workgroups_for(extent: nat) -> nat {
    (extent + 15) / 16
}

/// The number of workgroups along an image extent: the extent divided by the
/// workgroup edge, rounded up.
pub fn workgroup_count(extent: u32) -> (count: u32)
    ensures
        count == workgroups_for(extent as nat),
        count * 16 >= extent,
        count * 16 < extent + 16,
{
    let whole: u32 = extent / WORKGROUP_EDGE;
    if extent % WORKGROUP_EDGE == 0 {
        whole
    } else {
        whole + 1
    }
}

/// The binding of the output texture in group 0: 0 for a step without
/// inputs, 1 behind the array of input textures otherwise.
pub open spec fn output_binding_of(input_count: nat) -> nat {
    if input_count == 0 {
        0
    } else {
        1
    }
}

/// The binding of the sampler in group 0: the one behind the output texture.
pub open spec fn sampler_binding_of(input_count: nat) -> nat {
    output_binding_of(input_count) + 1
}

/// The binding of the output texture of a step with `input_count` inputs.
pub fn output_binding(input_count: usize) -> (binding: u32)
    ensures
        binding == output_binding_of(input_count as nat),
{
    if input_count == 0 {
        0
    } else {
        1
    }
}

/// The binding of the sampler of a step with `input_count` inputs.
pub fn sampler_binding(input_count: usize) -> (binding: u32)
    ensures
        binding == sampler_binding_of(input_count as nat),
{
    output_binding(input_count) + 1
}

/// The layout of group 0 of a compute step: the array of input textures at
/// binding 0 if there are inputs, then the output storage texture, then the
/// sampler if the shader has one. `sampler` says whether there is a sampler,
/// and whether it filters.
pub open spec fn texture_group_layout(input_count: u32, sampler: Option<bool>) -> Seq<LayoutEntry> {
    let inputs = if input_count > 0 {
        seq![LayoutEntry { binding: 0, kind: BindingKind::SampledTexture, count: input_count }]
    } else {
        Seq::<LayoutEntry>::empty()
    };
    let output = LayoutEntry {
        binding: output_binding_of(input_count as nat) as u32,
        kind: BindingKind::OutputTexture,
        count: 0,
    };
    let with_output = inputs.push(output);
    match sampler {
        Some(filtering) => with_output.push(
            LayoutEntry {
                binding: sampler_binding_of(input_count as nat) as u32,
                kind: BindingKind::Sampler { filtering },
                count: 0,
            },
        ),
        None => with_output,
    }
}

/// Builds the layout of group 0 of a compute step.
pub fn texture_group_entries(input_count: u32, sampler: Option<bool>) -> (entries: Vec<LayoutEntry>)
    ensures
        entries@ == texture_group_layout(input_count, sampler),
{
    let mut entries: Vec<LayoutEntry> = Vec::new();
    if input_count > 0 {
        entries.push(
            LayoutEntry { binding: 0, kind: BindingKind::SampledTexture, count: input_count },
        );
    }
    let output: u32 = if input_count > 0 {
        1
    } else {
        0
    };
    entries.push(LayoutEntry { binding: output, kind: BindingKind::OutputTexture, count: 0 });
    match sampler {
        Some(filtering) => {
            entries.push(
                LayoutEntry {
                    binding: output + 1,
                    kind: BindingKind::Sampler { filtering },
                    count: 0,
                },
            );
        },
        None => {},
    }
    assert(entries@ =~= texture_group_layout(input_count, sampler));
    entries
}

/// The layout of group 1 of a compute step with parameters: a read-only
/// storage buffer at binding 0.
pub open spec fn params_group_layout() -> Seq<LayoutEntry> {
    seq![
        LayoutEntry { binding: 0, kind: BindingKind::StorageBuffer { read_only: true }, count: 0 },
    ]
}

/// Builds the layout of group 1 of a compute step with parameters.
pub fn params_group_entries() -> (entries: Vec<LayoutEntry>)
    ensures
        entries@ == params_group_layout(),
{
    let mut entries: Vec<LayoutEntry> = Vec::new();
    entries.push(
        LayoutEntry { binding: 0, kind: BindingKind::StorageBuffer { read_only: true }, count: 0 },
    );
    assert(entries@ =~= params_group_layout());
    entries
}

/// The layouts of the bind groups of the pipeline of a compute step, in the
/// order of the groups: group 0 is the texture group of `input_count` inputs,
/// with the sampler if `has_sampler`; group 1, only if `has_storage`, is the
/// parameter group.
pub open spec fn pipeline_groups_of(
    input_count: u32,
    has_storage: bool,
    has_sampler: bool,
    sampler_filters: bool,
) -> Seq<Seq<LayoutEntry>> {
    let sampler = if has_sampler {
        Some(sampler_filters)
    } else {
        None
    };
    if has_storage {
        seq![texture_group_layout(input_count, sampler), params_group_layout()]
    } else {
        seq![texture_group_layout(input_count, sampler)]
    }
}

/// Builds the layouts of the bind groups of the pipeline of a compute step.
pub fn pipeline_group_entries(
    input_count: u32,
    has_storage: bool,
    has_sampler: bool,
    sampler_filters: bool,
) -> (groups: Vec<Vec<LayoutEntry>>)
    ensures
        groups@.len() == pipeline_groups_of(
            input_count,
            has_storage,
            has_sampler,
            sampler_filters,
        ).len(),
        forall|i: int|
            0 <= i < groups@.len() ==> (#[trigger] groups@[i])@ == pipeline_groups_of(
                input_count,
                has_storage,
                has_sampler,
                sampler_filters,
            )[i],
{
    let sampler = if has_sampler {
        Some(sampler_filters)
    } else {
        None
    };
    let mut groups: Vec<Vec<LayoutEntry>> = Vec::new();
    groups.push(texture_group_entries(input_count, sampler));
    if has_storage {
        groups.push(params_group_entries());
    }
    groups
}

/// The fixed layout of the final conversion: the image at binding 0, the
/// buffer of packed pixels, read and written, at binding 1.
pub open spec fn post_process_layout() -> Seq<LayoutEntry> {
    seq![
        LayoutEntry { binding: 0, kind: BindingKind::SampledTexture, count: 0 },
        LayoutEntry { binding: 1, kind: BindingKind::StorageBuffer { read_only: false }, count: 0 },
    ]
}

/// Builds the layout of the final conversion.
pub fn post_process_entries() -> (entries: Vec<LayoutEntry>)
    ensures
        entries@ == post_process_layout(),
{
    let mut entries: Vec<LayoutEntry> = Vec::new();
    entries.push(LayoutEntry { binding: 0, kind: BindingKind::SampledTexture, count: 0 });
    entries.push(
        LayoutEntry { binding: 1, kind: BindingKind::StorageBuffer { read_only: false }, count: 0 },
    );
    assert(entries@ =~= post_process_layout());
    entries
}

/// A step without inputs has its output texture at binding 0 and no texture
/// array; a step with inputs has the array at binding 0 and the output at
/// binding 1. In both the sampler, if any, follows the output, and the
/// bindings count up from 0.
pub proof fn lemma_texture_group_bindings(input_count: u32, sampler: Option<bool>)
    ensures
        input_count == 0 ==> texture_group_layout(input_count, sampler)[0] == (LayoutEntry {
            binding: 0,
            kind: BindingKind::OutputTexture,
            count: 0,
        }),
        input_count > 0 ==> texture_group_layout(input_count, sampler)[0] == (LayoutEntry {
            binding: 0,
            kind: BindingKind::SampledTexture,
            count: input_count,
        }) && texture_group_layout(input_count, sampler)[1] == (LayoutEntry {
            binding: 1,
            kind: BindingKind::OutputTexture,
            count: 0,
        }),
        texture_group_layout(input_count, sampler).len() == (if input_count > 0 {
            1nat
        } else {
            0nat
        }) + 1 + (if sampler.is_some() {
            1nat
        } else {
            0nat
        }),
        forall|i: int|
            0 <= i < texture_group_layout(input_count, sampler).len() ==> (
            #[trigger] texture_group_layout(input_count, sampler)[i]).binding == i,
{
}

/// Bytes of one row of an image of `width` texels, without padding.
pub open spec fn tight_row_bytes(width: nat) -> nat {
    16 * width
}

/// Bytes from one row to the next in a buffer that a texture of `width`
/// texels is copied into: the tight row, rounded up to the row alignment.
pub open spec fn padded_row_bytes(width: nat) -> nat {
    ((16 * width + 255) / 256) * 256
}

/// Bytes of one row of an image of `width` texels.
pub fn row_bytes(width: u32) -> (bytes: u64)
    ensures
        bytes == tight_row_bytes(width as nat),
{
    TEXEL_BYTES * (width as u64)
}

/// Bytes from one row to the next in a buffer that receives a texture of
/// `width` texels.
pub fn row_pitch(width: u32) -> (pitch: u64)
    ensures
        pitch == padded_row_bytes(width as nat),
        pitch % 256 == 0,
        tight_row_bytes(width as nat) <= pitch < tight_row_bytes(width as nat) + 256,
        width > 0 ==> pitch >= 256,
{
    let tight: u64 = row_bytes(width);
    ((tight + (ROW_ALIGNMENT - 1)) / ROW_ALIGNMENT) * ROW_ALIGNMENT
}

/// The image in a buffer of `height` rows that start `pitch` bytes apart,
/// each `tight` bytes long: the rows one after the other, without what lies
/// between them.
pub open spec fn stripped(padded: Seq<u8>, tight: nat, pitch: nat, height: nat) -> Seq<u8> {
    Seq::new(tight * height, |i: int| padded[(i / tight as int) * pitch + i % (tight as int)])
}

/// The bytes that `rows` rows of a buffer take when they are stripped.
proof fn lemma_stripped_index(tight: nat, row: nat, column: nat)
    requires
        column < tight,
    ensures
        (row * tight + column) / tight == row,
        (row * tight + column) % tight == column,
{
    vstd::arithmetic::div_mod::lemma_fundamental_div_mod_converse(
        (row * tight + column) as int,
        tight as int,
        row as int,
        column as int,
    );
}

/// Recovers the tightly packed image of `width` by `height` texels from a
/// buffer whose rows start `row_pitch(width)` bytes apart.
///
/// The buffer must hold exactly `height` rows of that pitch; `None` comes back
/// for any other length.
pub fn strip_row_padding(padded: &Vec<u8>, width: u32, height: u32) -> (image: Option<Vec<u8>>)
    ensures
        image.is_some() <==> padded@.len() == padded_row_bytes(width as nat) * height,
        image.is_some() ==> image.unwrap()@ == stripped(
            padded@,
            tight_row_bytes(width as nat),
            padded_row_bytes(width as nat),
            height as nat,
        ),
        image.is_some() ==> image.unwrap()@.len() == 16 * width * height,
{
    let tight64: u64 = row_bytes(width);
    let pitch64: u64 = row_pitch(width);
    assert(pitch64 * height <= 0x20_0000_0000 * 0x1_0000_0000) by (nonlinear_arith)
        requires
            pitch64 <= 0x20_0000_0000,
            height <= 0x1_0000_0000,
    ;
    let expected: u128 = (pitch64 as u128) * (height as u128);
    let length: usize = padded.len();
    if length as u128 != expected {
        return None;
    }
    if width == 0 || height == 0 {
        let empty: Vec<u8> = Vec::new();
        assert(tight64 * height == 0 && 16 * width * height == 0) by (nonlinear_arith)
            requires
                tight64 == 16 * width,
                width == 0 || height == 0,
        ;
        assert(empty@ =~= stripped(padded@, tight64 as nat, pitch64 as nat, height as nat));
        return Some(empty);
    }
    assert(pitch64 <= pitch64 * height) by (nonlinear_arith)
        requires
            height >= 1,
    ;
    let tight: usize = tight64 as usize;
    let pitch: usize = pitch64 as usize;
    let rows: usize = height as usize;
    let mut image: Vec<u8> = Vec::new();
    let mut row: usize = 0;
    while row < rows
        invariant
            row <= rows,
            0 < tight <= pitch,
            padded@.len() == pitch * rows,
            padded@.len() == length,
            image@.len() == row * tight,
            forall|i: int|
                0 <= i < image@.len() ==> #[trigger] image@[i] == padded@[(i / tight as int) * pitch
                    + i % (tight as int)],
        decreases rows - row,
    {
        assert(row * pitch + pitch <= pitch * rows) by (nonlinear_arith)
            requires
                row < rows,
        ;
        let start: usize = row * pitch;
        let mut column: usize = 0;
        while column < tight
            invariant
                row < rows,
                column <= tight,
                0 < tight <= pitch,
                start == row * pitch,
                start + pitch <= padded@.len(),
                padded@.len() == length,
                image@.len() == row * tight + column,
                forall|i: int|
                    0 <= i < image@.len() ==> #[trigger] image@[i] == padded@[(i / tight as int)
                        * pitch + i % (tight as int)],
            decreases tight - column,
        {
            let ghost before = image@;
            image.push(padded[start + column]);
            proof {
                lemma_stripped_index(tight as nat, row as nat, column as nat);
                assert forall|i: int| 0 <= i < image@.len() implies #[trigger] image@[i]
                    == padded@[(i / tight as int) * pitch + i % (tight as int)] by {
                    if i < before.len() {
                        assert(image@[i] == before[i]);
                    }
                }
            }
            column = column + 1;
        }
        assert((row + 1) * tight == row * tight + tight) by (nonlinear_arith);
        row = row + 1;
    }
    assert(rows * tight == tight * rows) by (nonlinear_arith);
    assert(image@ =~= stripped(padded@, tight as nat, pitch as nat, rows as nat));
    assert(16 * width * height == tight * rows) by (nonlinear_arith)
        requires
            tight == 16 * width,
            rows == height,
    ;
    Some(image)
}

/// Stripping recovers every texel byte of every row: the byte at `column` of
/// row `row` of the image is the byte at `column` behind the start of that row
/// in the buffer.
pub proof fn lemma_stripped_rows(
    padded: Seq<u8>,
    width: nat,
    height: nat,
    row: nat,
    column: nat,
)
    requires
        row < height,
        column < tight_row_bytes(width),
    ensures
        stripped(padded, tight_row_bytes(width), padded_row_bytes(width), height).len() == 16
            * width * height,
        row * tight_row_bytes(width) + column < 16 * width * height,
        stripped(padded, tight_row_bytes(width), padded_row_bytes(width), height)[(row
            * tight_row_bytes(width) + column) as int] == padded[(row * padded_row_bytes(width)
            + column) as int],
        padded_row_bytes(width) % 256 == 0,
        padded_row_bytes(width) >= tight_row_bytes(width),
{
    let tight = tight_row_bytes(width);
    lemma_stripped_index(tight, row, column);
    assert(row * tight + column < tight * height) by (nonlinear_arith)
        requires
            row < height,
            column < tight,
    ;
    assert(tight * height == 16 * width * height) by (nonlinear_arith)
        requires
            tight == 16 * width,
    ;
}

} // verus!
