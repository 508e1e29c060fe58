//! The screen: how the surface is configured, which textures back it, and what happens when its
//! next texture cannot be had.

use crate::gpu::{
    ColorTarget, CompositeAlphaMode, CurrentSurfaceTexture, Extent3d, FullscreenTriangle,
    PresentMode, Resolution, SurfaceCapabilities, SurfaceConfiguration, TextureDescriptor, TextureFormat, TextureUsages,
};
use vstd::prelude::*;

verus! {

/// Whether `picked` is the first item of `offered` that `wanted` accepts or, where it accepts
/// none, the first item of all.
pub open spec fn first_wanted<T>(offered: Seq<T>, wanted: spec_fn(T) -> bool, picked: T) -> bool {
    ||| exists|i: int|
        {
            &&& 0 <= i < offered.len()
            &&& wanted(offered[i])
            &&& picked == offered[i]
            &&& forall|j: int| 0 <= j < i ==> !wanted(#[trigger] offered[j])
        }
    ||| offered.len() > 0 && picked == offered[0] && forall|j: int|
        0 <= j < offered.len() ==> !wanted(#[trigger] offered[j])
}

/// Whether a format shows colours as the application means them.
pub open spec fn is_srgb8(format: TextureFormat) -> bool {
    format == TextureFormat::Bgra8UnormSrgb || format == TextureFormat::Rgba8UnormSrgb
}

/// The larger of a dimension and one: no texture may be empty.
pub open spec fn at_least_one(dimension: u32) -> u32 {
    if dimension == 0 {
        1
    } else {
        dimension
    }
}

pub(crate) fn clamp_to_one(dimension: u32) -> (clamped: u32)
    ensures
        clamped == at_least_one(dimension),
{
    if dimension == 0 {
        1
    } else {
        dimension
    }
}

/// Whether `config` is the configuration for a surface with the given capabilities.
pub open spec fn configures(
    config: SurfaceConfiguration,
    caps: &SurfaceCapabilities,
    present_mode: PresentMode,
    resolution: Resolution,
) -> bool {
    &&& config.usage == (TextureUsages {
        render_attachment: true,
        texture_binding: false,
        copy_src: false,
        copy_dst: false,
    })
    &&& first_wanted(caps.formats@, |f: TextureFormat| is_srgb8(f), config.format)
    &&& first_wanted(
        caps.present_modes@,
        |m: PresentMode| m == present_mode,
        config.present_mode,
    )
    &&& first_wanted(
        caps.alpha_modes@,
        |m: CompositeAlphaMode| m == CompositeAlphaMode::Opaque,
        config.alpha_mode,
    )
    &&& config.width == at_least_one(resolution.width)
    &&& config.height == at_least_one(resolution.height)
    &&& config.desired_maximum_frame_latency == 2
}

/// The first 8-bit sRGB format, else the first format.
fn pick_format(offered: &Vec<TextureFormat>) -> (picked: TextureFormat)
    requires
        offered@.len() > 0,
    ensures
        first_wanted(offered@, |f: TextureFormat| is_srgb8(f), picked),
{
    let ghost wanted = |f: TextureFormat| is_srgb8(f);
    let mut i: usize = 0;
    while i < offered.len()
        invariant
            i <= offered@.len(),
            wanted == (|f: TextureFormat| is_srgb8(f)),
            forall|j: int| 0 <= j < i ==> !wanted(#[trigger] offered@[j]),
        decreases offered@.len() - i,
    {
        if offered[i] == TextureFormat::Bgra8UnormSrgb || offered[i] == TextureFormat::Rgba8UnormSrgb {
            assert(wanted(offered@[i as int]));
            return offered[i];
        }
        i += 1;
    }
    offered[0]
}

/// The requested present mode, else the first one.
fn pick_present_mode(offered: &Vec<PresentMode>, present_mode: PresentMode) -> (picked: PresentMode)
    requires
        offered@.len() > 0,
    ensures
        first_wanted(offered@, |m: PresentMode| m == present_mode, picked),
{
    let ghost wanted = |m: PresentMode| m == present_mode;
    let mut i: usize = 0;
    while i < offered.len()
        invariant
            i <= offered@.len(),
            wanted == (|m: PresentMode| m == present_mode),
            forall|j: int| 0 <= j < i ==> !wanted(#[trigger] offered@[j]),
        decreases offered@.len() - i,
    {
        if offered[i] == present_mode {
            assert(wanted(offered@[i as int]));
            return offered[i];
        }
        i += 1;
    }
    offered[0]
}

/// An opaque window, else the first alpha mode.
fn pick_alpha_mode(offered: &Vec<CompositeAlphaMode>) -> (picked: CompositeAlphaMode)
    requires
        offered@.len() > 0,
    ensures
        first_wanted(offered@, |m: CompositeAlphaMode| m == CompositeAlphaMode::Opaque, picked),
{
    let ghost wanted = |m: CompositeAlphaMode| m == CompositeAlphaMode::Opaque;
    let mut i: usize = 0;
    while i < offered.len()
        invariant
            i <= offered@.len(),
            wanted == (|m: CompositeAlphaMode| m == CompositeAlphaMode::Opaque),
            forall|j: int| 0 <= j < i ==> !wanted(#[trigger] offered@[j]),
        decreases offered@.len() - i,
    {
        if offered[i] == CompositeAlphaMode::Opaque {
            assert(wanted(offered@[i as int]));
            return offered[i];
        }
        i += 1;
    }
    offered[0]
}

/// What to do after asking the surface for its next texture.
#[derive(Clone, Copy, Debug, PartialEq, Eq, Structural)]
pub enum AcquireStep {
    /// Draw to the texture.
    Use,
    /// Set the surface up with this configuration and ask again.
    Reconfigure(SurfaceConfiguration),
    /// Draw nothing this time.
    Skip,
    /// Draw nothing this time and report an error.
    SkipWithError,
}

/// The textures and the surface configuration behind the picture.
#[derive(Debug)]
pub struct Screen {
    resolution: Resolution,
    surface_config: SurfaceConfiguration,
    present_mode: PresentMode,
    backbuffer: TextureDescriptor,
    depthbuffer: TextureDescriptor,
}

/// What a screen is made of.
pub struct ScreenState {
    pub resolution: Resolution,
    pub surface_config: SurfaceConfiguration,
    pub present_mode: PresentMode,
    pub backbuffer: TextureDescriptor,
    pub depthbuffer: TextureDescriptor,
}

impl View for Screen {
    type V = ScreenState;

    closed spec fn view(&self) -> ScreenState {
        ScreenState {
            resolution: self.resolution,
            surface_config: self.surface_config,
            present_mode: self.present_mode,
            backbuffer: self.backbuffer,
            depthbuffer: self.depthbuffer,
        }
    }
}

/// The extent of the textures behind a picture of the given size.
pub open spec fn screen_extent(resolution: Resolution) -> Extent3d {
    Extent3d {
        width: at_least_one(resolution.width),
        height: at_least_one(resolution.height),
        depth_or_array_layers: 1,
    }
}

/// The texture that frames are composed in: it is drawn to, read by the copy to the surface, and
/// read back for screenshots.
pub open spec fn backbuffer_descriptor(resolution: Resolution) -> TextureDescriptor {
    TextureDescriptor {
        label: "Texture: Backbuffer",
        size: screen_extent(resolution),
        format: Screen::FORMAT_BACKBUFFER,
        usage: TextureUsages {
            render_attachment: true,
            texture_binding: true,
            copy_src: true,
            copy_dst: false,
        },
    }
}

/// The depth texture, which is only drawn to.
pub open spec fn depthbuffer_descriptor(resolution: Resolution) -> TextureDescriptor {
    TextureDescriptor {
        label: "Texture: Screen DepthBuffer",
        size: screen_extent(resolution),
        format: Screen::FORMAT_DEPTH,
        usage: TextureUsages {
            render_attachment: true,
            texture_binding: false,
            copy_src: false,
            copy_dst: false,
        },
    }
}

/// How a texture is copied to another one: by a triangle that covers the target.
#[derive(Clone, Copy, Debug)]
pub struct CopyPipeline {
    pub label: &'static str,
    pub vertex_shader: &'static str,
    pub fragment_shader: &'static str,
    pub target: ColorTarget,
}

/// The pipeline that copies the backbuffer to textures of the given format. It has no depth
/// texture.
pub open spec fn copy_pipeline_to(target: TextureFormat) -> CopyPipeline {
    CopyPipeline {
        label: "Screen: Copy texture",
        vertex_shader: "screentri.vert",
        fragment_shader: "copy_texture.frag",
        target: ColorTarget::Format(target),
    }
}

/// The step that follows each answer of the surface.
pub open spec fn acquire_step(
    config: SurfaceConfiguration,
    answer: CurrentSurfaceTexture,
) -> AcquireStep {
    match answer {
        CurrentSurfaceTexture::Success | CurrentSurfaceTexture::Suboptimal => AcquireStep::Use,
        CurrentSurfaceTexture::Outdated | CurrentSurfaceTexture::Lost => AcquireStep::Reconfigure(
            config,
        ),
        CurrentSurfaceTexture::Timeout | CurrentSurfaceTexture::Occluded => AcquireStep::Skip,
        CurrentSurfaceTexture::Validation => AcquireStep::SkipWithError,
    }
}

impl Screen {
    /// Format of the texture that frames are composed in.
    pub const FORMAT_BACKBUFFER: TextureFormat = TextureFormat::Rgba8UnormSrgb;

    /// Format of the depth texture.
    pub const FORMAT_DEPTH: TextureFormat = TextureFormat::Depth32Float;

    /// The present mode that the application starts with.
    pub const DEFAULT_PRESENT_MODE: PresentMode = PresentMode::Fifo;

    /// Chooses among what the surface offers: an 8-bit sRGB format, the requested present mode
    /// and an opaque window where they are to be had, else the surface's first choice.
    pub fn build_surface_config(
        caps: &SurfaceCapabilities,
        present_mode: PresentMode,
        resolution: Resolution,
    ) -> (config: SurfaceConfiguration)
        requires
            caps.usable(),
        ensures
            configures(config, caps, present_mode, resolution),
    {
        SurfaceConfiguration {
            usage: TextureUsages {
                render_attachment: true,
                texture_binding: false,
                copy_src: false,
                copy_dst: false,
            },
            format: pick_format(&caps.formats),
            width: clamp_to_one(resolution.width),
            height: clamp_to_one(resolution.height),
            present_mode: pick_present_mode(&caps.present_modes, present_mode),
            desired_maximum_frame_latency: 2,
            alpha_mode: pick_alpha_mode(&caps.alpha_modes),
        }
    }

    /// A screen of the given size. It remembers the present mode that was asked for, also where
    /// the surface cannot do it.
    pub fn new(
        caps: &SurfaceCapabilities,
        present_mode: PresentMode,
        resolution: Resolution,
    ) -> (screen: Screen)
        requires
            caps.usable(),
        ensures
            screen@.resolution == resolution,
            screen@.present_mode == present_mode,
            configures(screen@.surface_config, caps, present_mode, resolution),
            screen@.backbuffer == backbuffer_descriptor(resolution),
            screen@.depthbuffer == depthbuffer_descriptor(resolution),
    {
        let surface_config = Self::build_surface_config(caps, present_mode, resolution);
        let size = Extent3d {
            width: clamp_to_one(resolution.width),
            height: clamp_to_one(resolution.height),
            depth_or_array_layers: 1,
        };
        Screen {
            resolution,
            surface_config,
            present_mode,
            backbuffer: TextureDescriptor {
                label: "Texture: Backbuffer",
                size,
                format: Screen::FORMAT_BACKBUFFER,
                usage: TextureUsages {
                    render_attachment: true,
                    texture_binding: true,
                    copy_src: true,
                    copy_dst: false,
                },
            },
            depthbuffer: TextureDescriptor {
                label: "Texture: Screen DepthBuffer",
                size,
                format: Screen::FORMAT_DEPTH,
                usage: TextureUsages {
                    render_attachment: true,
                    texture_binding: false,
                    copy_src: false,
                    copy_dst: false,
                },
            },
        }
    }

    /// The size of the picture.
    pub fn resolution(&self) -> (resolution: Resolution)
        ensures
            resolution == self@.resolution,
    {
        self.resolution
    }

    /// The texture that frames are composed in.
    pub fn backbuffer(&self) -> (backbuffer: TextureDescriptor)
        ensures
            backbuffer == self@.backbuffer,
    {
        self.backbuffer
    }

    /// The depth texture.
    pub fn depthbuffer(&self) -> (depthbuffer: TextureDescriptor)
        ensures
            depthbuffer == self@.depthbuffer,
    {
        self.depthbuffer
    }

    /// The present mode that was asked for.
    pub fn present_mode(&self) -> (present_mode: PresentMode)
        ensures
            present_mode == self@.present_mode,
    {
        self.present_mode
    }

    /// The format of the surface's textures.
    pub fn surface_format(&self) -> (format: TextureFormat)
        ensures
            format == self@.surface_config.format,
    {
        self.surface_config.format
    }

    /// The size of the backbuffer for high dynamic range: that of the picture.
    pub fn hdr_backbuffer_size(&self) -> (size: Resolution)
        ensures
            size == self@.resolution,
    {
        self.resolution
    }

    /// The pipeline that copies the backbuffer to the surface's textures.
    pub fn copy_pipeline(&self) -> (pipeline: CopyPipeline)
        ensures
            pipeline == copy_pipeline_to(self@.surface_config.format),
    {
        CopyPipeline {
            label: "Screen: Copy texture",
            vertex_shader: "screentri.vert",
            fragment_shader: "copy_texture.frag",
            target: ColorTarget::Format(self.surface_format()),
        }
    }

    /// The configuration that the surface was last given.
    pub fn surface_config(&self) -> (config: SurfaceConfiguration)
        ensures
            config == self@.surface_config,
    {
        self.surface_config
    }

    /// Chooses the surface configuration anew. The textures and the size of the picture stay.
    pub fn configure_after_resize_or_present_change(
        &mut self,
        caps: &SurfaceCapabilities,
        present_mode: PresentMode,
        resolution: Resolution,
    )
        requires
            caps.usable(),
        ensures
            final(self)@ == (ScreenState {
                present_mode,
                surface_config: final(self)@.surface_config,
                ..old(self)@
            }),
            configures(final(self)@.surface_config, caps, present_mode, resolution),
    {
        self.present_mode = present_mode;
        self.surface_config = Self::build_surface_config(caps, present_mode, resolution);
    }

    /// The draw call that copies the backbuffer to a texture of the surface.
    pub fn copy_to_swapchain(&self) -> (call: FullscreenTriangle)
        ensures
            call == (FullscreenTriangle { bind_group: 0, vertices: 3, instances: 1 }),
    {
        FullscreenTriangle { bind_group: 0, vertices: 3, instances: 1 }
    }

    /// Decides what follows an answer of the surface. A surface that is outdated or lost is set
    /// up again as it was and asked again.
    pub fn acquire_surface_texture(&self, answer: CurrentSurfaceTexture) -> (step: AcquireStep)
        ensures
            step == acquire_step(self@.surface_config, answer),
    {
        match answer {
            CurrentSurfaceTexture::Success | CurrentSurfaceTexture::Suboptimal => AcquireStep::Use,
            CurrentSurfaceTexture::Outdated | CurrentSurfaceTexture::Lost => {
                AcquireStep::Reconfigure(self.surface_config)
            },
            CurrentSurfaceTexture::Timeout | CurrentSurfaceTexture::Occluded => AcquireStep::Skip,
            CurrentSurfaceTexture::Validation => AcquireStep::SkipWithError,
        }
    }
}

/// Each choice of a configuration is one that the surface offers, and no dimension is zero.
pub proof fn law_configuration_is_offered(
    config: SurfaceConfiguration,
    caps: &SurfaceCapabilities,
    present_mode: PresentMode,
    resolution: Resolution,
)
    requires
        configures(config, caps, present_mode, resolution),
    ensures
        caps.formats@.contains(config.format),
        caps.present_modes@.contains(config.present_mode),
        caps.alpha_modes@.contains(config.alpha_mode),
        config.width > 0,
        config.height > 0,
{
}

/// A present mode that the surface offers is honoured; so are an opaque window and an sRGB format.
pub proof fn law_offered_wishes_are_honoured(
    config: SurfaceConfiguration,
    caps: &SurfaceCapabilities,
    present_mode: PresentMode,
    resolution: Resolution,
)
    requires
        configures(config, caps, present_mode, resolution),
    ensures
        caps.present_modes@.contains(present_mode) ==> config.present_mode == present_mode,
        caps.alpha_modes@.contains(CompositeAlphaMode::Opaque) ==> config.alpha_mode
            == CompositeAlphaMode::Opaque,
        (exists|i: int| 0 <= i < caps.formats@.len() && is_srgb8(#[trigger] caps.formats@[i]))
            ==> is_srgb8(config.format),
{
}

/// The configuration is determined by what the surface offers and what is asked for.
pub proof fn law_configuration_is_determined(
    first: SurfaceConfiguration,
    second: SurfaceConfiguration,
    caps: &SurfaceCapabilities,
    present_mode: PresentMode,
    resolution: Resolution,
)
    requires
        configures(first, caps, present_mode, resolution),
        configures(second, caps, present_mode, resolution),
    ensures
        first == second,
{
    lemma_first_wanted_unique(
        caps.formats@,
        |f: TextureFormat| is_srgb8(f),
        first.format,
        second.format,
    );
}

proof fn lemma_first_wanted_unique<T>(
    offered: Seq<T>,
    wanted: spec_fn(T) -> bool,
    first: T,
    second: T,
)
    requires
        first_wanted(offered, wanted, first),
        first_wanted(offered, wanted, second),
    ensures
        first == second,
{
    if exists|i: int|
        {
            &&& 0 <= i < offered.len()
            &&& wanted(offered[i])
            &&& first == offered[i]
            &&& forall|j: int| 0 <= j < i ==> !wanted(#[trigger] offered[j])
        } {
        let i = choose|i: int|
            {
                &&& 0 <= i < offered.len()
                &&& wanted(offered[i])
                &&& first == offered[i]
                &&& forall|j: int| 0 <= j < i ==> !wanted(#[trigger] offered[j])
            };
        let k = choose|i: int|
            {
                &&& 0 <= i < offered.len()
                &&& wanted(offered[i])
                &&& second == offered[i]
                &&& forall|j: int| 0 <= j < i ==> !wanted(#[trigger] offered[j])
            };
        assert(i == k);
    }
}

} // verus!
