use blub::gpu::{
    ColorTarget, CompositeAlphaMode, CurrentSurfaceTexture, Extent3d, FullscreenTriangle, PresentMode,
    Resolution, SurfaceCapabilities, TextureFormat,
};
use blub::screen::{AcquireStep, Screen};

fn size(width: u32, height: u32) -> Resolution {
    Resolution { width, height }
}

fn caps() -> SurfaceCapabilities {
    SurfaceCapabilities {
        formats: vec![
            TextureFormat::Other(7),
            TextureFormat::Bgra8UnormSrgb,
            TextureFormat::Rgba8UnormSrgb,
        ],
        present_modes: vec![PresentMode::Immediate, PresentMode::Fifo],
        alpha_modes: vec![CompositeAlphaMode::Inherit, CompositeAlphaMode::Opaque],
    }
}

#[test]
fn offered_wishes_are_honoured() {
    let config = Screen::build_surface_config(&caps(), PresentMode::Fifo, size(640, 480));
    assert_eq!(config.format, TextureFormat::Bgra8UnormSrgb);
    assert_eq!(config.present_mode, PresentMode::Fifo);
    assert_eq!(config.alpha_mode, CompositeAlphaMode::Opaque);
    assert_eq!((config.width, config.height), (640, 480));
    assert_eq!(config.desired_maximum_frame_latency, 2);
    assert!(config.usage.render_attachment && !config.usage.texture_binding);
}

#[test]
fn the_first_choice_stands_in() {
    let caps = SurfaceCapabilities {
        formats: vec![TextureFormat::Other(3), TextureFormat::Rgba8Unorm],
        present_modes: vec![PresentMode::FifoRelaxed, PresentMode::Fifo],
        alpha_modes: vec![CompositeAlphaMode::PreMultiplied],
    };
    let config = Screen::build_surface_config(&caps, PresentMode::Mailbox, size(0, 0));
    assert_eq!(config.format, TextureFormat::Other(3));
    assert_eq!(config.present_mode, PresentMode::FifoRelaxed);
    assert_eq!(config.alpha_mode, CompositeAlphaMode::PreMultiplied);
    assert_eq!((config.width, config.height), (1, 1));
}

#[test]
fn an_empty_offer_is_not_usable() {
    assert!(caps().is_usable());
    let mut none = caps();
    none.alpha_modes.clear();
    assert!(!none.is_usable());
}

#[test]
fn a_screen_has_textures_of_its_size() {
    let screen = Screen::new(&caps(), PresentMode::Mailbox, size(800, 0));
    assert_eq!(screen.resolution(), size(800, 0));
    assert_eq!(screen.present_mode(), PresentMode::Mailbox);
    assert_eq!(screen.surface_config().present_mode, PresentMode::Immediate);
    assert_eq!(screen.surface_format(), TextureFormat::Bgra8UnormSrgb);
    let extent = Extent3d {
        width: 800,
        height: 1,
        depth_or_array_layers: 1,
    };
    assert_eq!(screen.backbuffer().size, extent);
    assert_eq!(screen.backbuffer().label, "Texture: Backbuffer");
    assert_eq!(screen.backbuffer().format, TextureFormat::Rgba8UnormSrgb);
    assert!(screen.backbuffer().usage.copy_src);
    assert_eq!(screen.depthbuffer().size, extent);
    assert_eq!(screen.depthbuffer().format, TextureFormat::Depth32Float);
    assert!(!screen.depthbuffer().usage.texture_binding);
    assert_eq!(
        screen.copy_to_swapchain(),
        FullscreenTriangle { bind_group: 0, vertices: 3, instances: 1 }
    );
}

#[test]
fn the_copy_is_drawn_in_the_format_of_the_surface() {
    let screen = Screen::new(&caps(), PresentMode::Fifo, size(800, 600));
    let pipeline = screen.copy_pipeline();
    assert_eq!(pipeline.label, "Screen: Copy texture");
    assert_eq!(pipeline.vertex_shader, "screentri.vert");
    assert_eq!(pipeline.fragment_shader, "copy_texture.frag");
    assert_eq!(pipeline.target, ColorTarget::Format(screen.surface_format()));
    assert_eq!(screen.hdr_backbuffer_size(), size(800, 600));
}

#[test]
fn reconfiguring_keeps_the_size_of_the_picture() {
    let mut screen = Screen::new(&caps(), PresentMode::Fifo, size(100, 50));
    screen.configure_after_resize_or_present_change(&caps(), PresentMode::Immediate, size(30, 20));
    assert_eq!(screen.resolution(), size(100, 50));
    assert_eq!(screen.present_mode(), PresentMode::Immediate);
    assert_eq!(screen.surface_config().width, 30);
    assert_eq!(screen.backbuffer().size.width, 100);
}

#[test]
fn each_answer_of_the_surface_has_its_step() {
    let screen = Screen::new(&caps(), PresentMode::Fifo, size(100, 50));
    let step = |answer| screen.acquire_surface_texture(answer);
    assert_eq!(step(CurrentSurfaceTexture::Success), AcquireStep::Use);
    assert_eq!(step(CurrentSurfaceTexture::Suboptimal), AcquireStep::Use);
    let again = AcquireStep::Reconfigure(screen.surface_config());
    assert_eq!(step(CurrentSurfaceTexture::Outdated), again);
    assert_eq!(step(CurrentSurfaceTexture::Lost), again);
    assert_eq!(step(CurrentSurfaceTexture::Timeout), AcquireStep::Skip);
    assert_eq!(step(CurrentSurfaceTexture::Occluded), AcquireStep::Skip);
    assert_eq!(step(CurrentSurfaceTexture::Validation), AcquireStep::SkipWithError);
}
