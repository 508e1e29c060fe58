//! The screen: what is chosen of what a surface offers, and the textures behind the picture.

use crate::application::Application;
use crate::gpu::{
    ColorTarget, CompositeAlphaMode, CurrentSurfaceTexture, FullscreenTriangle, PresentMode,
    Resolution, SurfaceCapabilities, SurfaceConfiguration, TextureDescriptor, TextureFormat,
};
use crate::screen::{AcquireStep, CopyPipeline, Screen};
use vstd::prelude::*;

verus! {

/// Whether `picked` is the best of what is offered: it is wanted, and nothing wanted comes before
/// it; or nothing at all is wanted, and nothing comes before it.
pub open spec fn is_best<T>(offered: Seq<T>, wanted: Set<T>, picked: T) -> bool {
    exists|i: int|
        {
            &&& 0 <= i < offered.len()
            &&& #[trigger] offered[i] == picked
            &&& forall|j: int| 0 <= j < i ==> !wanted.contains(#[trigger] offered[j])
            &&& wanted.contains(picked) || i == 0 && forall|j: int|
                0 <= j < offered.len() ==> !wanted.contains(#[trigger] offered[j])
        }
}

/// Whether a length in pixels is that of a side, where an empty side counts as one pixel.
pub open spec fn is_side(length: u32, side: u32) -> bool {
    length >= 1 && (length == side || side == 0 && length == 1)
}

/// Whether a configuration is the best that a surface offers for a picture.
pub open spec fn is_best_configuration(
    config: SurfaceConfiguration,
    caps: &SurfaceCapabilities,
    present_mode: PresentMode,
    resolution: Resolution,
) -> bool {
    &&& is_best(
        caps.formats@,
        set![TextureFormat::Bgra8UnormSrgb, TextureFormat::Rgba8UnormSrgb],
        config.format,
    )
    &&& is_best(caps.present_modes@, set![present_mode], config.present_mode)
    &&& is_best(caps.alpha_modes@, set![CompositeAlphaMode::Opaque], config.alpha_mode)
    &&& is_side(config.width, resolution.width)
    &&& is_side(config.height, resolution.height)
    &&& config.desired_maximum_frame_latency == 2
    &&& config.usage.render_attachment
    &&& !config.usage.texture_binding && !config.usage.copy_src && !config.usage.copy_dst
}

proof fn lemma_best_configuration(
    config: SurfaceConfiguration,
    caps: &SurfaceCapabilities,
    present_mode: PresentMode,
    resolution: Resolution,
)
    requires
        crate::screen::configures(config, caps, present_mode, resolution),
    ensures
        is_best_configuration(config, caps, present_mode, resolution),
{
    let formats = set![TextureFormat::Bgra8UnormSrgb, TextureFormat::Rgba8UnormSrgb];
    assert(forall|f: TextureFormat|
        formats.contains(f) <==> #[trigger] crate::screen::is_srgb8(f));
    assert(is_best(caps.formats@, formats, config.format));
    assert(is_best(caps.present_modes@, set![present_mode], config.present_mode));
    assert(is_best(caps.alpha_modes@, set![CompositeAlphaMode::Opaque], config.alpha_mode));
}

/// A surface is configured with an 8-bit sRGB format, the present mode that is asked for and an
/// opaque window where they are offered, the first of several; else with what is offered first. It
/// is as large as the picture, at least a pixel each way, and is only drawn to.
pub proof fn law_best_offer_is_taken(
    caps: &SurfaceCapabilities,
    present_mode: PresentMode,
    resolution: Resolution,
    config: SurfaceConfiguration,
)
    requires
        call_ensures(Screen::build_surface_config, (caps, present_mode, resolution), config),
    ensures
        is_best_configuration(config, caps, present_mode, resolution),
{
    lemma_best_configuration(config, caps, present_mode, resolution);
}

/// Whether a texture is as large as a picture, with a pixel at least each way and one layer.
pub open spec fn is_as_large_as(texture: TextureDescriptor, resolution: Resolution) -> bool {
    &&& is_side(texture.size.width, resolution.width)
    &&& is_side(texture.size.height, resolution.height)
    &&& texture.size.depth_or_array_layers == 1
}

/// A screen has the size and the present mode that were asked for, whatever the surface can do.
/// Its surface is configured for them. Its two textures are as large as the picture: the
/// backbuffer can be drawn to, read by shaders and copied from, the depth texture only drawn to.
pub proof fn law_screen_is_made_for_the_picture(
    caps: &SurfaceCapabilities,
    present_mode: PresentMode,
    resolution: Resolution,
    screen: Screen,
)
    requires
        call_ensures(Screen::new, (caps, present_mode, resolution), screen),
    ensures
        screen@.resolution == resolution,
        screen@.present_mode == present_mode,
        is_best_configuration(screen@.surface_config, caps, present_mode, resolution),
        is_as_large_as(screen@.backbuffer, resolution),
        is_as_large_as(screen@.depthbuffer, resolution),
        screen@.backbuffer.label@ == "Texture: Backbuffer"@,
        screen@.depthbuffer.label@ == "Texture: Screen DepthBuffer"@,
        screen@.backbuffer.format == TextureFormat::Rgba8UnormSrgb,
        screen@.depthbuffer.format == TextureFormat::Depth32Float,
        screen@.backbuffer.usage.render_attachment,
        screen@.backbuffer.usage.texture_binding,
        screen@.backbuffer.usage.copy_src,
        !screen@.backbuffer.usage.copy_dst,
        screen@.depthbuffer.usage.render_attachment,
        !screen@.depthbuffer.usage.texture_binding,
        !screen@.depthbuffer.usage.copy_src,
        !screen@.depthbuffer.usage.copy_dst,
{
    lemma_best_configuration(screen@.surface_config, caps, present_mode, resolution);
}

/// Replacing the screen of an application makes one for the picture that is asked for and changes
/// nothing else.
pub proof fn law_replaced_screen()
    ensures
        forall|
            application: &mut Application,
            caps: &SurfaceCapabilities,
            present_mode: PresentMode,
            resolution: Resolution,
        | #[trigger]
            call_ensures(
                Application::recreate_screen,
                (application, caps, present_mode, resolution),
                (),
            ) ==> {
                let screen = final(application)@.screen;
                &&& screen.resolution == resolution
                &&& screen.present_mode == present_mode
                &&& is_best_configuration(screen.surface_config, caps, present_mode, resolution)
                &&& is_as_large_as(screen.backbuffer, resolution)
                &&& is_as_large_as(screen.depthbuffer, resolution)
                &&& screen.backbuffer.format == TextureFormat::Rgba8UnormSrgb
                &&& screen.depthbuffer.format == TextureFormat::Depth32Float
                &&& final(application)@.window_id == application@.window_id
                &&& final(application)@.gui == application@.gui
                &&& final(application)@.camera == application@.camera
            },
{
    assert forall|
        application: &mut Application,
        caps: &SurfaceCapabilities,
        present_mode: PresentMode,
        resolution: Resolution,
    | #[trigger]
        call_ensures(
            Application::recreate_screen,
            (application, caps, present_mode, resolution),
            (),
        ) implies is_best_configuration(
        final(application)@.screen.surface_config,
        caps,
        present_mode,
        resolution,
    ) by {
        lemma_best_configuration(
            final(application)@.screen.surface_config,
            caps,
            present_mode,
            resolution,
        );
    }
}

/// Configuring the surface anew takes the best that is offered for the new wishes. The size of the
/// picture and its textures stay.
pub proof fn law_reconfigured_surface()
    ensures
        forall|
            screen: &mut Screen,
            caps: &SurfaceCapabilities,
            present_mode: PresentMode,
            resolution: Resolution,
        | #[trigger]
            call_ensures(
                Screen::configure_after_resize_or_present_change,
                (screen, caps, present_mode, resolution),
                (),
            ) ==> {
                &&& final(screen)@.present_mode == present_mode
                &&& is_best_configuration(
                    final(screen)@.surface_config,
                    caps,
                    present_mode,
                    resolution,
                )
                &&& final(screen)@.resolution == screen@.resolution
                &&& final(screen)@.backbuffer == screen@.backbuffer
                &&& final(screen)@.depthbuffer == screen@.depthbuffer
            },
{
    assert forall|
        screen: &mut Screen,
        caps: &SurfaceCapabilities,
        present_mode: PresentMode,
        resolution: Resolution,
    | #[trigger]
        call_ensures(
            Screen::configure_after_resize_or_present_change,
            (screen, caps, present_mode, resolution),
            (),
        ) implies is_best_configuration(
        final(screen)@.surface_config,
        caps,
        present_mode,
        resolution,
    ) by {
        lemma_best_configuration(
            final(screen)@.surface_config,
            caps,
            present_mode,
            resolution,
        );
    }
}

/// A texture of the surface is used whenever there is one. A surface that is outdated or lost is
/// set up again with the configuration that it had. In all other cases nothing is drawn, and only
/// a rejected request is an error.
pub proof fn law_answers_of_the_surface(
    screen: &Screen,
    answer: CurrentSurfaceTexture,
    step: AcquireStep,
)
    requires
        call_ensures(Screen::acquire_surface_texture, (screen, answer), step),
    ensures
        step == AcquireStep::Use <==> answer == CurrentSurfaceTexture::Success || answer
            == CurrentSurfaceTexture::Suboptimal,
        step is Reconfigure <==> answer == CurrentSurfaceTexture::Outdated || answer
            == CurrentSurfaceTexture::Lost,
        step matches AcquireStep::Reconfigure(config) ==> config == screen@.surface_config,
        step == AcquireStep::SkipWithError <==> answer == CurrentSurfaceTexture::Validation,
        step == AcquireStep::Skip <==> answer == CurrentSurfaceTexture::Timeout || answer
            == CurrentSurfaceTexture::Occluded,
{
}

/// The copy to the surface covers a texture of the surface's own format with one triangle.
pub proof fn law_copy_covers_the_surface(
    screen: &Screen,
    pipeline: CopyPipeline,
    call: FullscreenTriangle,
    format: TextureFormat,
)
    requires
        call_ensures(Screen::copy_pipeline, (screen,), pipeline),
        call_ensures(Screen::copy_to_swapchain, (screen,), call),
        call_ensures(Screen::surface_format, (screen,), format),
    ensures
        pipeline.target == ColorTarget::Format(format),
        format == screen@.surface_config.format,
        pipeline.label@ == "Screen: Copy texture"@,
        pipeline.vertex_shader@ == "screentri.vert"@,
        pipeline.fragment_shader@ == "copy_texture.frag"@,
        call.vertices == 3,
        call.instances == 1,
        call.bind_group == 0,
{
}

/// What a screen tells of itself is what it is.
pub proof fn law_screen_tells_what_it_is(
    screen: &Screen,
    resolution: Resolution,
    hdr_size: Resolution,
    present_mode: PresentMode,
    config: SurfaceConfiguration,
    backbuffer: TextureDescriptor,
    depthbuffer: TextureDescriptor,
)
    requires
        call_ensures(Screen::resolution, (screen,), resolution),
        call_ensures(Screen::hdr_backbuffer_size, (screen,), hdr_size),
        call_ensures(Screen::present_mode, (screen,), present_mode),
        call_ensures(Screen::surface_config, (screen,), config),
        call_ensures(Screen::backbuffer, (screen,), backbuffer),
        call_ensures(Screen::depthbuffer, (screen,), depthbuffer),
    ensures
        resolution == screen@.resolution,
        hdr_size == screen@.resolution,
        present_mode == screen@.present_mode,
        config == screen@.surface_config,
        backbuffer == screen@.backbuffer,
        depthbuffer == screen@.depthbuffer,
{
}

/// A window has no area exactly if one of its sides is empty, and a surface is usable exactly if
/// it offers something of each kind.
pub proof fn law_degenerate_and_usable(
    resolution: &Resolution,
    degenerate: bool,
    caps: &SurfaceCapabilities,
    usable: bool,
)
    requires
        call_ensures(Resolution::is_degenerate, (resolution,), degenerate),
        call_ensures(SurfaceCapabilities::is_usable, (caps,), usable),
    ensures
        degenerate <==> resolution.width * resolution.height == 0,
        usable <==> caps.formats@.len() >= 1 && caps.present_modes@.len() >= 1
            && caps.alpha_modes@.len() >= 1,
{
    let (w, h) = (resolution.width as int, resolution.height as int);
    assert(w * h == 0 <==> w == 0 || h == 0) by (nonlinear_arith)
        requires
            w >= 0,
            h >= 0,
    ;
}

} // verus!
