//! The description of a finished frame for a host that takes it as an
//! offscreen shared texture.

use vstd::prelude::*;

verus! {

/// A size in pixels.
#[derive(Clone, Copy, Debug, PartialEq, Eq, Structural)]
pub struct Size {
    pub width: u32,
    pub height: u32,
}

/// A color space, each part by the name the host knows it under.
#[derive(Clone, Debug)]
pub struct ColorSpace {
    pub primaries: String,
    pub transfer: String,
    pub matrix: String,
    pub range: String,
}

/// A rectangle of pixels.
#[derive(Clone, Copy, Debug, PartialEq, Eq, Structural)]
pub struct Rectangle {
    pub x: u32,
    pub y: u32,
    pub width: u32,
    pub height: u32,
}

/// What is known about the capture of a frame.
#[derive(Clone, Copy, Debug, PartialEq, Eq, Structural)]
pub struct Metadata {
    pub capture_update_rect: Option<Rectangle>,
    pub region_capture_rect: Option<Rectangle>,
    pub source_size: Option<Rectangle>,
    pub frame_count: Option<u32>,
}

/// One plane of an exported texture: the descriptor of its memory, and where
/// the plane lies in it.
#[derive(Clone, Copy, Debug, PartialEq, Eq, Structural)]
pub struct SharedTexturePlane {
    pub fd: i32,
    pub stride: u32,
    pub offset: u32,
    pub size: u32,
}

/// The layout of the pixels of an exported texture.
#[derive(Clone, Copy, Debug, PartialEq, Eq, Structural)]
pub enum PixelLayout {
    /// 8-bit channels, red first in memory, with alpha.
    Abgr8888,
    /// 8-bit channels, blue first in memory, with alpha.
    Argb8888,
    /// 8-bit channels, red first in memory, alpha ignored.
    Xbgr8888,
    /// 8-bit channels, blue first in memory, alpha ignored.
    Xrgb8888,
    /// 16-bit float channels, red first in memory.
    Abgr16161616f,
}

/// The name the host knows a pixel layout under.
pub open spec fn layout_name(layout: PixelLayout) -> Seq<char> {
    match layout {
        PixelLayout::Abgr8888 | PixelLayout::Xbgr8888 => "rgba"@,
        PixelLayout::Argb8888 | PixelLayout::Xrgb8888 => "bgra"@,
        PixelLayout::Abgr16161616f => "rgbaf16"@,
    }
}

/// The name the host knows a pixel layout under: `rgba` and `bgra` for the
/// 8-bit layouts by the channel that comes first, `rgbaf16` for 16-bit
/// floats.
pub fn pixel_format_name(layout: PixelLayout) -> (name: &'static str)
    ensures
        name@ == layout_name(layout),
{
    match layout {
        PixelLayout::Abgr8888 => "rgba",
        PixelLayout::Argb8888 => "bgra",
        PixelLayout::Xbgr8888 => "rgba",
        PixelLayout::Xrgb8888 => "bgra",
        PixelLayout::Abgr16161616f => "rgbaf16",
    }
}

/// The rectangle that covers a frame of `width` by `height` pixels.
pub fn full_rectangle(width: u32, height: u32) -> (rectangle: Rectangle)
    ensures
        rectangle == (Rectangle { x: 0, y: 0, width, height }),
{
    Rectangle { x: 0, y: 0, width, height }
}

/// The size of a frame of `width` by `height` pixels.
pub fn coded_size(width: u32, height: u32) -> (size: Size)
    ensures
        size == (Size { width, height }),
{
    Size { width, height }
}

/// The color space of every frame the engine makes: BT.709 primaries, the
/// sRGB transfer function, the RGB matrix, full range.
pub fn frame_color_space() -> (space: ColorSpace)
    ensures
        space.primaries@ == "bt709"@,
        space.transfer@ == "srgb"@,
        space.matrix@ == "rgb"@,
        space.range@ == "full"@,
{
    ColorSpace {
        primaries: "bt709".to_owned(),
        transfer: "srgb".to_owned(),
        matrix: "rgb".to_owned(),
        range: "full".to_owned(),
    }
}

/// Whether the memory type at `index` is one that `type_bits` allows: bit
/// `index` of `type_bits` is set. There are 32 bits.
pub open spec fn type_allowed(type_bits: u32, index: int) -> bool {
    0 <= index < 32 && (type_bits >> (index as u32)) & 1u32 == 1u32
}

/// Whether the memory type at `index` fits: it is one of `flags`, it is
/// allowed, and it has every property that `required` names.
pub open spec fn type_fits(type_bits: u32, flags: Seq<u32>, required: u32, index: int) -> bool {
    &&& 0 <= index < flags.len()
    &&& type_allowed(type_bits, index)
    &&& flags[index] & required == required
}

/// The first memory type that fits, among the types whose property flags are
/// `flags`, in their order: the least index that `type_bits` allows and whose
/// flags hold all of `required`. `None` exactly when no type fits.
pub fn find_memory_type_index(type_bits: u32, flags: &Vec<u32>, required: u32) -> (found: Option<
    usize,
>)
    ensures
        match found {
            Some(index) => {
                &&& type_fits(type_bits, flags@, required, index as int)
                &&& forall|j: int| 0 <= j < index ==> !type_fits(type_bits, flags@, required, j)
            },
            None => forall|j: int| !type_fits(type_bits, flags@, required, j),
        },
{
    let mut index: usize = 0;
    while index < flags.len() && index < 32
        invariant
            index <= flags@.len(),
            index <= 32,
            forall|j: int| 0 <= j < index ==> !type_fits(type_bits, flags@, required, j),
        decreases flags@.len() - index,
    {
        let shift: u32 = index as u32;
        let allowed: bool = (type_bits >> shift) & 1u32 == 1u32;
        if allowed && flags[index] & required == required {
            return Some(index);
        }
        index = index + 1;
    }
    None
}

} // verus!
