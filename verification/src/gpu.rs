//! Descriptions of textures and surfaces, as plain values.

use vstd::prelude::*;

verus! {

/// A size in physical pixels.
#[derive(Clone, Copy, Debug, PartialEq, Eq, Structural)]
pub struct Resolution {
    pub width: u32,
    pub height: u32,
}

impl Resolution {
    /// Whether a window of this size has no area.
    pub open spec fn spec_is_degenerate(self) -> bool {
        self.width == 0 || self.height == 0
    }

    /// Whether a window of this size has no area.
    pub fn is_degenerate(&self) -> (degenerate: bool)
        ensures
            degenerate == self.spec_is_degenerate(),
    {
        self.width == 0 || self.height == 0
    }
}

/// The texture formats that the application names; any other one goes by a number that the
/// caller gives it.
#[derive(Clone, Copy, Debug, PartialEq, Eq, Structural)]
pub enum TextureFormat {
    Rgba8Unorm,
    Rgba8UnormSrgb,
    Bgra8UnormSrgb,
    Depth32Float,
    Other(u32),
}

/// When finished frames reach the display.
#[derive(Clone, Copy, Debug, PartialEq, Eq, Structural)]
pub enum PresentMode {
    AutoVsync,
    AutoNoVsync,
    Fifo,
    FifoRelaxed,
    Immediate,
    Mailbox,
}

/// How the window's transparency is treated.
#[derive(Clone, Copy, Debug, PartialEq, Eq, Structural)]
pub enum CompositeAlphaMode {
    Auto,
    Opaque,
    PreMultiplied,
    PostMultiplied,
    Inherit,
}

/// What a texture may be used for.
#[derive(Clone, Copy, Debug, PartialEq, Eq, Structural)]
pub struct TextureUsages {
    pub render_attachment: bool,
    pub texture_binding: bool,
    pub copy_src: bool,
    pub copy_dst: bool,
}

/// The extent of a texture; a cube has six layers.
#[derive(Clone, Copy, Debug, PartialEq, Eq, Structural)]
pub struct Extent3d {
    pub width: u32,
    pub height: u32,
    pub depth_or_array_layers: u32,
}

/// A two-dimensional texture with one mip level and one sample per texel. Views of it have its
/// own format.
#[derive(Clone, Copy, Debug)]
pub struct TextureDescriptor {
    pub label: &'static str,
    pub size: Extent3d,
    pub format: TextureFormat,
    pub usage: TextureUsages,
}

/// What a surface offers on an adapter, the preferred choices first.
#[derive(Debug)]
pub struct SurfaceCapabilities {
    pub formats: Vec<TextureFormat>,
    pub present_modes: Vec<PresentMode>,
    pub alpha_modes: Vec<CompositeAlphaMode>,
}

impl SurfaceCapabilities {
    /// A surface that the adapter can present to offers at least one choice of each kind.
    pub open spec fn usable(&self) -> bool {
        self.formats@.len() > 0 && self.present_modes@.len() > 0 && self.alpha_modes@.len() > 0
    }

    /// Tests whether the adapter can present to the surface.
    pub fn is_usable(&self) -> (usable: bool)
        ensures
            usable == self.usable(),
    {
        self.formats.len() > 0 && self.present_modes.len() > 0 && self.alpha_modes.len() > 0
    }
}

/// How a surface is set up. Frames are drawn to it and viewed in its own format only.
#[derive(Clone, Copy, Debug, PartialEq, Eq, Structural)]
pub struct SurfaceConfiguration {
    pub usage: TextureUsages,
    pub format: TextureFormat,
    pub width: u32,
    pub height: u32,
    pub present_mode: PresentMode,
    pub desired_maximum_frame_latency: u32,
    pub alpha_mode: CompositeAlphaMode,
}

/// What came of asking a surface for its next texture.
#[derive(Clone, Copy, Debug, PartialEq, Eq, Structural)]
pub enum CurrentSurfaceTexture {
    Success,
    Suboptimal,
    Outdated,
    Lost,
    Timeout,
    Occluded,
    Validation,
}

/// When a fragment passes the depth test.
#[derive(Clone, Copy, Debug, PartialEq, Eq, Structural)]
pub enum CompareFunction {
    /// When it is as near as what is there, or nearer.
    LessEqual,
    Other,
}

/// How a pipeline uses the depth texture.
#[derive(Clone, Copy, Debug, PartialEq, Eq, Structural)]
pub struct DepthState {
    pub format: TextureFormat,
    pub write_enabled: bool,
    pub compare: CompareFunction,
}

/// What a pipeline draws to.
#[derive(Clone, Copy, Debug, PartialEq, Eq, Structural)]
pub enum ColorTarget {
    /// The backbuffer for high dynamic range, whatever its format is.
    HdrBackbuffer,
    /// Textures of this format.
    Format(TextureFormat),
}

/// A draw call of a triangle that covers the screen, with resources in the given bind group.
#[derive(Clone, Copy, Debug, PartialEq, Eq, Structural)]
pub struct FullscreenTriangle {
    pub bind_group: u32,
    pub vertices: u32,
    pub instances: u32,
}

} // verus!
