use vstd::prelude::*;

use crate::renderer::image::{find_supported_format, FormatCandidate};

verus! {

/// `VK_FORMAT_B8G8R8A8_SRGB`.
pub const FORMAT_B8G8R8A8_SRGB: i32 = 50;

/// `VK_COLOR_SPACE_SRGB_NONLINEAR_KHR`.
pub const COLOR_SPACE_SRGB_NONLINEAR: i32 = 0;

/// `VK_PRESENT_MODE_FIFO_KHR`, which every driver supports.
pub const PRESENT_MODE_FIFO: i32 = 2;

/// `VK_PRESENT_MODE_FIFO_RELAXED_KHR`.
pub const PRESENT_MODE_FIFO_RELAXED: i32 = 3;

/// `VK_SURFACE_TRANSFORM_IDENTITY_BIT_KHR`.
pub const SURFACE_TRANSFORM_IDENTITY: u32 = 1;

/// `VK_FORMAT_D32_SFLOAT`.
pub const FORMAT_D32_SFLOAT: i32 = 126;

/// `VK_FORMAT_D24_UNORM_S8_UINT`.
pub const FORMAT_D24_UNORM_S8_UINT: i32 = 129;

/// `VK_FORMAT_D32_SFLOAT_S8_UINT`.
pub const FORMAT_D32_SFLOAT_S8_UINT: i32 = 130;

/// `VK_IMAGE_TILING_OPTIMAL`.
pub const IMAGE_TILING_OPTIMAL: i32 = 0;

/// `VK_FORMAT_FEATURE_DEPTH_STENCIL_ATTACHMENT_BIT`.
pub const FORMAT_FEATURE_DEPTH_STENCIL_ATTACHMENT: u32 = 0x200;

/// A pixel format and color space that a surface supports.
#[derive(Copy, Clone, Debug, PartialEq, Eq)]
pub struct SurfaceFormat {
    pub format: i32,
    pub color_space: i32,
}

/// A width and height in pixels.
#[derive(Copy, Clone, Debug, PartialEq, Eq)]
pub struct Extent2D {
    pub width: u32,
    pub height: u32,
}

/// Whether `f` is 8-bit BGRA in sRGB with the non-linear sRGB color space.
pub open spec fn is_preferred_format(f: SurfaceFormat) -> bool {
    f.format == FORMAT_B8G8R8A8_SRGB && f.color_space == COLOR_SPACE_SRGB_NONLINEAR
}

/// The first preferred format the surface offers, else the first format it
/// offers; `None` where it offers none, on which the renderer gives up.
pub fn choose_swap_surface_format(available_formats: &[SurfaceFormat]) -> (r: Option<SurfaceFormat>)
    ensures
        available_formats@.len() == 0 ==> r is None,
        available_formats@.len() > 0 ==> r is Some,
        r matches Some(f) ==> if exists|i: int|
            0 <= i < available_formats@.len() && is_preferred_format(
                #[trigger] available_formats@[i],
            ) {
            is_preferred_format(f)
        } else {
            f == available_formats@[0]
        },
        r matches Some(f) ==> if exists|i: int|
            0 <= i < available_formats@.len() && (#[trigger] available_formats@[i]).format == 50
                && available_formats@[i].color_space == 0 {
            f == (SurfaceFormat { format: 50, color_space: 0 })
        } else {
            f == available_formats@[0]
        },
{
    let n = available_formats.len();
    let mut i: usize = 0;
    while i < n
        invariant
            n == available_formats@.len(),
            i <= n,
            forall|j: int| 0 <= j < i ==> !is_preferred_format(#[trigger] available_formats@[j]),
        decreases n - i,
    {
        let f = available_formats[i];
        if f.format == FORMAT_B8G8R8A8_SRGB && f.color_space == COLOR_SPACE_SRGB_NONLINEAR {
            return Some(f);
        }
        i = i + 1;
    }
    if n == 0 {
        None
    } else {
        Some(available_formats[0])
    }
}

/// One image more than the surface's minimum, without going over its maximum
/// (a maximum of zero meaning there is none).
pub fn desired_image_count(min_image_count: u32, max_image_count: u32) -> (r: u32)
    requires
        min_image_count < u32::MAX,
    ensures
        r == if max_image_count > 0 && min_image_count + 1 > max_image_count {
            max_image_count as int
        } else {
            min_image_count + 1
        },
{
    let mut desired = min_image_count + 1;
    if max_image_count > 0 && desired > max_image_count {
        desired = max_image_count;
    }
    desired
}

pub open spec fn clamp(x: u32, lo: u32, hi: u32) -> u32 {
    if x < lo {
        lo
    } else if x > hi {
        hi
    } else {
        x
    }
}

/// The requested extent brought within the surface's limits, each side on its own.
pub fn clamp_extent(extent: Extent2D, min: Extent2D, max: Extent2D) -> (r: Extent2D)
    requires
        min.width <= max.width,
        min.height <= max.height,
    ensures
        r == (Extent2D {
            width: clamp(extent.width, min.width, max.width),
            height: clamp(extent.height, min.height, max.height),
        }),
{
    let width = if extent.width < min.width {
        min.width
    } else if extent.width > max.width {
        max.width
    } else {
        extent.width
    };
    let height = if extent.height < min.height {
        min.height
    } else if extent.height > max.height {
        max.height
    } else {
        extent.height
    };
    Extent2D { width, height }
}

/// No transform where the surface supports that, else its current transform.
pub fn choose_pre_transform(supported_transforms: u32, current_transform: u32) -> (r: u32)
    ensures
        r == if supported_transforms & SURFACE_TRANSFORM_IDENTITY == SURFACE_TRANSFORM_IDENTITY {
            SURFACE_TRANSFORM_IDENTITY
        } else {
            current_transform
        },
        r == if supported_transforms & 1 == 1 {
            1u32
        } else {
            current_transform
        },
{
    if supported_transforms & SURFACE_TRANSFORM_IDENTITY == SURFACE_TRANSFORM_IDENTITY {
        SURFACE_TRANSFORM_IDENTITY
    } else {
        current_transform
    }
}

/// Relaxed FIFO where the surface offers it, else plain FIFO.
pub fn choose_present_mode(present_modes: &[i32]) -> (r: i32)
    ensures
        r == if present_modes@.contains(PRESENT_MODE_FIFO_RELAXED) {
            PRESENT_MODE_FIFO_RELAXED
        } else {
            PRESENT_MODE_FIFO
        },
        r == if present_modes@.contains(3) {
            3i32
        } else {
            2i32
        },
{
    let n = present_modes.len();
    let mut i: usize = 0;
    while i < n
        invariant
            n == present_modes@.len(),
            i <= n,
            forall|j: int| 0 <= j < i ==> present_modes@[j] != PRESENT_MODE_FIFO_RELAXED,
        decreases n - i,
    {
        if present_modes[i] == PRESENT_MODE_FIFO_RELAXED {
            return PRESENT_MODE_FIFO_RELAXED;
        }
        i = i + 1;
    }
    PRESENT_MODE_FIFO
}

/// Whether a depth format also has a stencil component.
pub fn has_stencil_component(format: i32) -> (r: bool)
    ensures
        r == (format == FORMAT_D32_SFLOAT_S8_UINT || format == FORMAT_D24_UNORM_S8_UINT),
        r == (format == 130 || format == 129),
{
    format == FORMAT_D32_SFLOAT_S8_UINT || format == FORMAT_D24_UNORM_S8_UINT
}

/// The depth formats the renderer accepts, most preferred first.
pub fn depth_format_candidates() -> (r: [i32; 2])
    ensures
        r[0] == FORMAT_D32_SFLOAT,
        r[1] == FORMAT_D32_SFLOAT_S8_UINT,
        r[0] == 126 && r[1] == 130,
{
    [FORMAT_D32_SFLOAT, FORMAT_D32_SFLOAT_S8_UINT]
}

/// The first of the `candidates` (the depth formats with what the device
/// reports of them) usable as a depth attachment with optimal tiling.
pub fn find_depth_format(candidates: &[FormatCandidate]) -> (r: Option<i32>)
    ensures
        r == crate::renderer::image::first_supported(
            candidates@,
            IMAGE_TILING_OPTIMAL,
            FORMAT_FEATURE_DEPTH_STENCIL_ATTACHMENT,
        ),
        match r {
            Some(f) => crate::renderer::image::is_earliest_with_features(candidates@, 0, 0x200, f),
            None => forall|i: int|
                0 <= i < candidates@.len() ==> !(#[trigger] candidates@[i].optimal_tiling_features & 0x200u32
                    == 0x200u32),
        },
{
    find_supported_format(
        candidates,
        IMAGE_TILING_OPTIMAL,
        FORMAT_FEATURE_DEPTH_STENCIL_ATTACHMENT,
    )
}

} // verus!
