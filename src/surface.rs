use vstd::prelude::*;

verus! {

/// Pixel dimensions of an off-screen surface or of the window.
#[derive(Clone, Copy, Debug, PartialEq, Eq, Structural)]
pub struct Extent {
    pub width: u32,
    pub height: u32,
}

impl Extent {
    /// Both dimensions are non-zero, as every surface's must be.
    pub open spec fn is_positive(self) -> bool {
        self.width > 0 && self.height > 0
    }

    pub fn new(width: u32, height: u32) -> (r: Extent)
        ensures
            r.width == width,
            r.height == height,
    {
        Extent { width, height }
    }

    pub fn positive(&self) -> (r: bool)
        ensures
            r == self.is_positive(),
    {
        self.width > 0 && self.height > 0
    }
}

/// Stable identity of an image asset, shared by the simulation context and
/// the render-execution context.
#[derive(Clone, Copy, Debug, PartialEq, Eq, Structural)]
pub struct ImageHandle {
    pub id: u128,
}

impl ImageHandle {
    /// The identity a handle has before any image is assigned to it.
    pub open spec fn spec_placeholder() -> ImageHandle {
        ImageHandle { id: 0 }
    }

    pub fn placeholder() -> (r: ImageHandle)
        ensures
            r == Self::spec_placeholder(),
    {
        ImageHandle { id: 0 }
    }

    pub fn new(id: u128) -> (r: ImageHandle)
        ensures
            r.id == id,
    {
        ImageHandle { id }
    }
}

/// Which of the two off-screen surfaces a descriptor describes.
#[derive(Clone, Copy, Debug, PartialEq, Eq, Structural)]
pub enum SurfaceKind {
    Raw,
    Processed,
}

/// Pixel format of a surface; the only one in use is the swap chain's.
#[derive(Clone, Copy, Debug, PartialEq, Eq, Structural)]
pub enum SurfaceFormat {
    SwapChainDefault,
}

/// The ways a surface may be used on the device.
#[derive(Clone, Copy, Debug, PartialEq, Eq, Structural)]
pub struct SurfaceUsage {
    pub sampled: bool,
    pub copy_dst: bool,
    pub render_attachment: bool,
}

/// What is needed to allocate one off-screen surface.
#[derive(Clone, Copy, Debug, PartialEq, Eq, Structural)]
pub struct SurfaceDescriptor {
    pub kind: SurfaceKind,
    pub size: Extent,
    pub format: SurfaceFormat,
    pub usage: SurfaceUsage,
    pub mip_level_count: u32,
    pub sample_count: u32,
    /// Every byte of the initial contents is zero: fully transparent.
    pub zero_filled: bool,
}

/// Descriptor of an off-screen surface of the given kind and size: one mip
/// level, one sample, the swap chain's format, usable for sampling, copies and
/// as a colour attachment, and zero-filled.
pub open spec fn spec_surface_descriptor(kind: SurfaceKind, size: Extent) -> SurfaceDescriptor {
    SurfaceDescriptor {
        kind,
        size,
        format: SurfaceFormat::SwapChainDefault,
        usage: SurfaceUsage { sampled: true, copy_dst: true, render_attachment: true },
        mip_level_count: 1,
        sample_count: 1,
        zero_filled: true,
    }
}

pub fn surface_descriptor(kind: SurfaceKind, size: Extent) -> (r: SurfaceDescriptor)
    ensures
        r == spec_surface_descriptor(kind, size),
{
    SurfaceDescriptor {
        kind,
        size,
        format: SurfaceFormat::SwapChainDefault,
        usage: SurfaceUsage { sampled: true, copy_dst: true, render_attachment: true },
        mip_level_count: 1,
        sample_count: 1,
        zero_filled: true,
    }
}

/// What a surface holds, as far as the pipeline's ordering is concerned.
#[derive(Clone, Copy, Debug, PartialEq, Eq, Structural)]
pub enum Content {
    /// All channels zero: as allocated, resized or cleared.
    Transparent,
    /// The background scene as rasterised in the given frame.
    Scene { frame: u64 },
    /// The LUT-graded background scene of the given frame.
    Graded { frame: u64 },
}

/// One off-screen colour surface.
#[derive(Clone, Copy, Debug, PartialEq, Eq, Structural)]
pub struct Surface {
    pub handle: ImageHandle,
    pub size: Extent,
    pub content: Content,
}

} // verus!
