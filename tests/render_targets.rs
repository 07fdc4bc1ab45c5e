use layered_render::background_camera::{
    BackgroundCameraPlugin, BackgroundLutSource, BackgroundProcessedRenderTarget,
    BackgroundRenderTarget, RenderTargets,
};
use layered_render::camera_plugin::{CameraLayers, CameraPlugin, CameraTarget};
use layered_render::surface::{Content, Extent, ImageHandle, SurfaceFormat, SurfaceKind};

fn startup(width: u32, height: u32) -> RenderTargets {
    RenderTargets::initialize(Extent::new(width, height), ImageHandle::new(11), ImageHandle::new(12))
}

#[test]
fn startup_allocates_both_surfaces_at_window_size() {
    let t = startup(1280, 800);
    assert_eq!(t.raw.size, Extent::new(1280, 800));
    assert_eq!(t.processed.size, Extent::new(1280, 800));
    assert_eq!(t.raw.content, Content::Transparent);
    assert_eq!(t.processed.content, Content::Transparent);
    assert_eq!(t.raw_target().handle, ImageHandle::new(11));
    assert_eq!(t.processed_target().handle, ImageHandle::new(12));
}

#[test]
fn resize_moves_both_surfaces_in_lockstep() {
    let mut t = startup(1280, 800);
    t.on_resize(Extent::new(1920, 1080));
    assert_eq!(t.raw.size, Extent::new(1920, 1080));
    assert_eq!(t.processed.size, Extent::new(1920, 1080));
    assert_eq!(t.raw.handle, ImageHandle::new(11));
    assert_eq!(t.processed.handle, ImageHandle::new(12));
}

#[test]
fn resize_clears_contents() {
    let mut t = startup(64, 32);
    t.raw.content = Content::Scene { frame: 3 };
    t.processed.content = Content::Graded { frame: 3 };
    t.on_resize(Extent::new(65, 33));
    assert_eq!(t.raw.content, Content::Transparent);
    assert_eq!(t.processed.content, Content::Transparent);
}

#[test]
fn resize_events_apply_in_order_and_skip_zero_sizes() {
    let mut t = startup(1280, 800);
    t.apply_resize_events(&vec![Extent::new(800, 600), Extent::new(1024, 768), Extent::new(0, 0)]);
    assert_eq!(t.raw.size, Extent::new(1024, 768));
    assert_eq!(t.processed.size, Extent::new(1024, 768));
}

#[test]
fn no_resize_events_leave_targets_alone() {
    let mut t = startup(1280, 800);
    t.raw.content = Content::Scene { frame: 9 };
    let before = t;
    t.apply_resize_events(&vec![]);
    assert_eq!(t, before);
}

#[test]
fn resize_to_largest_size() {
    let mut t = startup(1, 1);
    t.on_resize(Extent::new(u32::MAX, u32::MAX));
    assert_eq!(t.raw.size, t.processed.size);
    assert_eq!(t.raw.size, Extent::new(u32::MAX, u32::MAX));
}

#[test]
fn target_descriptors_match_window() {
    let (raw, processed) = BackgroundCameraPlugin.target_descriptors(Extent::new(1280, 800));
    assert_eq!(raw.kind, SurfaceKind::Raw);
    assert_eq!(processed.kind, SurfaceKind::Processed);
    for d in [raw, processed] {
        assert_eq!(d.size, Extent::new(1280, 800));
        assert_eq!(d.format, SurfaceFormat::SwapChainDefault);
        assert!(d.usage.sampled && d.usage.copy_dst && d.usage.render_attachment);
        assert_eq!(d.mip_level_count, 1);
        assert_eq!(d.sample_count, 1);
        assert!(d.zero_filled);
    }
}

#[test]
fn background_camera_renders_first_into_raw_surface() {
    let c = BackgroundCameraPlugin.background_camera_config(ImageHandle::new(11));
    assert_eq!(c.order, 0);
    assert_eq!(c.target, CameraTarget::Image(ImageHandle::new(11)));
    assert!(c.clear_transparent);
    assert_eq!(c.layer, CameraLayers::Background);
    let g = CameraPlugin.game_camera_config();
    assert!(g.order > c.order);
    assert_eq!(g.target, CameraTarget::Window);
    assert_eq!(g.layer, CameraLayers::Game);
    assert!(!g.hdr);
}

#[test]
fn camera_layer_indices() {
    assert_eq!(CameraLayers::Background.index(), 0);
    assert_eq!(CameraLayers::Game.index(), 1);
}

#[test]
fn resources_default_to_placeholder_handle() {
    assert_eq!(BackgroundRenderTarget::default().handle, ImageHandle::placeholder());
    assert_eq!(BackgroundProcessedRenderTarget::default().handle, ImageHandle::placeholder());
    assert_eq!(BackgroundLutSource::default().lut_texture, ImageHandle::placeholder());
    assert_eq!(ImageHandle::placeholder().id, 0);
}

#[test]
fn extent_positivity() {
    assert!(Extent::new(1, 1).positive());
    assert!(!Extent::new(0, 5).positive());
    assert!(!Extent::new(5, 0).positive());
}
