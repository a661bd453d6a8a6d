//! Tests of the manager's configuration state machine, exercised at dummy
//! handle types so that every transition runs without a GPU.

use wgpu_misc::AttachmentResources;
use wgpu_misc::ColorSource;
use wgpu_misc::DepthLoad;
use wgpu_misc::Framebuffer;
use wgpu_misc::LiveFrame;
use wgpu_misc::StorePolicy;
use wgpu_misc::DEPTH_CLEAR_FAR_BITS;

type TestFb = Framebuffer<u8, u16, u32, u64>;

fn texture_resources(texture: u16, view: u32) -> AttachmentResources<u16, u32> {
    AttachmentResources {
        color_texture: Some(texture),
        direct_view: Some(view),
        msaa_view: None,
    }
}

fn surface_resources() -> AttachmentResources<u16, u32> {
    AttachmentResources {
        color_texture: None,
        direct_view: None,
        msaa_view: None,
    }
}

#[test]
fn new_manager_is_dirty_and_empty() {
    let fb: TestFb = Framebuffer::new();
    assert!(fb.needs_configure());
    assert!(!fb.needs_present());
    assert_eq!(fb.color_attachment_count(), 0);
    assert_eq!(fb.width(), 0);
    assert_eq!(fb.height(), 0);
    assert_eq!(fb.sample_count(), 1);
}

#[test]
fn default_is_new() {
    let fb: TestFb = Default::default();
    assert!(fb.needs_configure());
    assert_eq!(fb.color_attachment_count(), 0);
    assert_eq!(fb.sample_count(), 1);
}

#[test]
fn setters_mark_dirty_and_clear_color_does_not() {
    let mut fb: TestFb = Framebuffer::new_with_texture(wgpu::TextureFormat::Rgba8Unorm);
    fb.set_resolution(320, 200);
    fb.apply_configuration(vec![texture_resources(1, 2)], None);
    assert!(!fb.needs_configure());

    fb.set_clear_color(wgpu::Color::RED);
    assert!(!fb.needs_configure(), "a clear-color change never marks dirty");

    fb.set_resolution(640, 480);
    assert!(fb.needs_configure());
    fb.apply_configuration(vec![texture_resources(1, 2)], None);

    fb.set_sample_count(4);
    assert!(fb.needs_configure());
    fb.apply_configuration(
        vec![AttachmentResources {
            color_texture: Some(1),
            direct_view: Some(2),
            msaa_view: Some(3),
        }],
        None,
    );

    fb.set_present_mode(wgpu::PresentMode::Fifo);
    assert!(fb.needs_configure());
    fb.apply_configuration(
        vec![AttachmentResources {
            color_texture: Some(1),
            direct_view: Some(2),
            msaa_view: Some(3),
        }],
        None,
    );

    fb.set_depth_stencil_format(Some(wgpu::TextureFormat::Depth24Plus));
    assert!(fb.needs_configure());
}

#[test]
fn depth_policies_do_not_mark_dirty() {
    let mut fb: TestFb = Framebuffer::new_with_texture(wgpu::TextureFormat::Rgba8Unorm);
    fb.set_resolution(16, 16);
    fb.apply_configuration(vec![texture_resources(1, 2)], None);
    fb.set_depth_store(true);
    fb.set_depth_load_op(DepthLoad::Load);
    assert!(!fb.needs_configure(), "render-pass policies never mark dirty");
}

#[test]
fn applied_configuration_is_clean_until_next_setter() {
    // Emulates configure being idempotent: once clean, a configure caller
    // checks needs_configure and performs no further allocation work.
    let mut fb: TestFb = Framebuffer::new_with_texture(wgpu::TextureFormat::Rgba8Unorm);
    fb.set_resolution(8, 8);
    fb.apply_configuration(vec![texture_resources(1, 2)], None);
    assert!(!fb.needs_configure());
    assert!(!fb.needs_configure());
}

#[test]
fn attachment_view_and_texture_after_configure() {
    let mut fb: TestFb = Framebuffer::new();
    fb.add_surface_attachment(9, wgpu::TextureFormat::Bgra8UnormSrgb);
    fb.add_texture_attachment(wgpu::TextureFormat::Rgba8Unorm);
    assert_eq!(fb.color_attachment_count(), 2);
    fb.set_resolution(100, 50);
    fb.apply_configuration(vec![surface_resources(), texture_resources(21, 22)], None);

    // The surface attachment owns no texture; the texture attachment does.
    assert_eq!(fb.attachment_texture(0), None);
    assert_eq!(fb.attachment_texture(1), Some(&21));

    // Without multisampling a surface attachment has no persistent view of
    // its own (its target is the per-frame acquired view); the texture
    // attachment's view is its direct texture view.
    assert_eq!(fb.attachment_view(0), None);
    assert_eq!(fb.attachment_view(1), Some(&22));

    // Out of range: nothing, rather than a panic.
    assert_eq!(fb.attachment_view(2), None);
    assert_eq!(fb.attachment_texture(2), None);
}

#[test]
fn attachment_view_is_resolve_view_under_multisampling() {
    // A texture attachment at sample count four: the externally visible
    // view is the direct (resolve) texture view, not the multisample view.
    let mut fb: TestFb = Framebuffer::new_with_texture(wgpu::TextureFormat::Rgba8Unorm);
    fb.set_resolution(32, 32);
    fb.set_sample_count(4);
    fb.apply_configuration(
        vec![AttachmentResources {
            color_texture: Some(40),
            direct_view: Some(41),
            msaa_view: Some(42),
        }],
        None,
    );
    assert_eq!(fb.attachment_view(0), Some(&41));
    assert_eq!(fb.attachment_texture(0), Some(&40));
}

#[test]
fn invalidation_discards_views_but_keeps_texture_handle() {
    let mut fb: TestFb = Framebuffer::new_with_texture(wgpu::TextureFormat::Rgba8Unorm);
    fb.set_resolution(8, 8);
    fb.apply_configuration(vec![texture_resources(5, 6)], None);
    assert_eq!(fb.attachment_view(0), Some(&6));
    fb.set_resolution(16, 16);
    assert_eq!(fb.attachment_view(0), None, "stale views are discarded");
    assert_eq!(fb.attachment_texture(0), Some(&5));
}

#[test]
fn present_mode_change_discards_views() {
    let mut fb: TestFb = Framebuffer::new_with_texture(wgpu::TextureFormat::Rgba8Unorm);
    fb.set_resolution(8, 8);
    fb.set_depth_stencil_format(Some(wgpu::TextureFormat::Depth24Plus));
    fb.apply_configuration(vec![texture_resources(5, 6)], Some(62));
    assert_eq!(fb.attachment_view(0), Some(&6));
    fb.set_present_mode(wgpu::PresentMode::Immediate);
    assert!(fb.needs_configure());
    assert_eq!(fb.attachment_view(0), None, "assembled views are discarded");
    assert_eq!(fb.depth_stencil_view(), None, "the depth view is discarded");
}

#[test]
fn depth_format_change_discards_views() {
    let mut fb: TestFb = Framebuffer::new_with_texture(wgpu::TextureFormat::Rgba8Unorm);
    fb.set_resolution(8, 8);
    fb.set_depth_stencil_format(Some(wgpu::TextureFormat::Depth24Plus));
    fb.apply_configuration(vec![texture_resources(5, 6)], Some(63));
    fb.set_depth_stencil_format(None);
    assert!(fb.needs_configure());
    assert_eq!(fb.attachment_view(0), None, "assembled views are discarded");
    assert_eq!(fb.depth_stencil_view(), None, "the depth view is discarded");
}

#[test]
fn adding_an_attachment_discards_views() {
    let mut fb: TestFb = Framebuffer::new_with_texture(wgpu::TextureFormat::Rgba8Unorm);
    fb.set_resolution(8, 8);
    fb.apply_configuration(vec![texture_resources(5, 6)], None);
    assert_eq!(fb.attachment_view(0), Some(&6));
    fb.add_surface_attachment(2, wgpu::TextureFormat::Bgra8UnormSrgb);
    assert!(fb.needs_configure());
    assert_eq!(fb.attachment_view(0), None, "assembled views are discarded");
    assert_eq!(fb.attachment_texture(0), Some(&5), "the texture handle is kept");
}

#[test]
fn resize_without_reconfigure_is_detected() {
    // A resize after configure leaves the manager dirty again: beginning a
    // render pass in that state violates its precondition, which every
    // caller can detect through needs_configure.
    let mut fb: TestFb = Framebuffer::new_from_surface(1, wgpu::TextureFormat::Bgra8UnormSrgb);
    assert_eq!(fb.width(), 0);
    assert_eq!(fb.height(), 0);
    fb.set_resolution(800, 600);
    fb.apply_configuration(vec![surface_resources()], None);
    assert_eq!((fb.width(), fb.height()), (800, 600));
    assert!(!fb.needs_configure());

    fb.set_resolution(640, 480);
    assert!(fb.needs_configure(), "the dirty precondition must be detectable");
}

#[test]
fn plan_without_multisampling_stores_and_has_no_resolve() {
    let mut fb: TestFb = Framebuffer::new();
    fb.add_surface_attachment(1, wgpu::TextureFormat::Bgra8UnormSrgb);
    fb.add_texture_attachment(wgpu::TextureFormat::Rgba8Unorm);
    fb.set_resolution(64, 64);
    fb.apply_configuration(vec![surface_resources(), texture_resources(10, 11)], None);
    fb.register_frames(vec![LiveFrame { view: 70, frame: 700 }]);

    let plan = fb.render_pass_plan();
    assert_eq!(plan.color_attachments.len(), 2);
    for target in &plan.color_attachments {
        assert!(target.resolve_target.is_none());
        assert_eq!(target.store, StorePolicy::Store);
    }
    assert_eq!(plan.color_attachments[0].view, ColorSource::FrameView(0));
    assert_eq!(plan.color_attachments[1].view, ColorSource::DirectView(1));
    assert!(plan.depth_stencil.is_none());

    // The named views resolve against the manager.
    assert_eq!(fb.resolve_color_source(plan.color_attachments[0].view), Some(&70));
    assert_eq!(fb.resolve_color_source(plan.color_attachments[1].view), Some(&11));
}

#[test]
fn plan_with_multisampling_discards_and_resolves() {
    let mut fb: TestFb = Framebuffer::new();
    fb.add_surface_attachment(1, wgpu::TextureFormat::Bgra8UnormSrgb);
    fb.add_texture_attachment(wgpu::TextureFormat::Rgba8Unorm);
    fb.set_resolution(64, 64);
    fb.set_sample_count(4);
    fb.apply_configuration(
        vec![
            AttachmentResources { color_texture: None, direct_view: None, msaa_view: Some(30) },
            AttachmentResources {
                color_texture: Some(31),
                direct_view: Some(32),
                msaa_view: Some(33),
            },
        ],
        None,
    );
    fb.register_frames(vec![LiveFrame { view: 71, frame: 701 }]);

    let plan = fb.render_pass_plan();
    assert_eq!(plan.color_attachments.len(), 2);
    for (i, target) in plan.color_attachments.iter().enumerate() {
        assert_eq!(target.view, ColorSource::MsaaView(i));
        assert!(target.resolve_target.is_some());
        assert_eq!(target.store, StorePolicy::Discard);
    }
    // The surface attachment resolves into the acquired frame's view, the
    // texture attachment into its direct texture view.
    assert_eq!(plan.color_attachments[0].resolve_target, Some(ColorSource::FrameView(0)));
    assert_eq!(plan.color_attachments[1].resolve_target, Some(ColorSource::DirectView(1)));
    assert_eq!(fb.resolve_color_source(plan.color_attachments[0].view), Some(&30));
    assert_eq!(
        fb.resolve_color_source(plan.color_attachments[0].resolve_target.unwrap()),
        Some(&71)
    );
    assert_eq!(
        fb.resolve_color_source(plan.color_attachments[1].resolve_target.unwrap()),
        Some(&32)
    );
}

#[test]
fn present_drains_registered_frames_in_order() {
    let mut fb: TestFb = Framebuffer::new();
    fb.add_surface_attachment(1, wgpu::TextureFormat::Bgra8UnormSrgb);
    fb.add_surface_attachment(2, wgpu::TextureFormat::Bgra8UnormSrgb);
    fb.set_resolution(10, 10);
    fb.apply_configuration(vec![surface_resources(), surface_resources()], None);

    fb.register_frames(vec![
        LiveFrame { view: 80, frame: 800 },
        LiveFrame { view: 81, frame: 801 },
    ]);
    assert!(fb.needs_present());

    let drained = fb.take_live_frames();
    assert_eq!(drained.len(), 2);
    assert_eq!((drained[0].view, drained[0].frame), (80, 800));
    assert_eq!((drained[1].view, drained[1].frame), (81, 801));
    assert!(!fb.needs_present());
}

#[test]
fn render_cycle_can_repeat_after_present() {
    // Two attachments (one surface, one texture): register frames, drain
    // them, and a second cycle succeeds because the registry was emptied.
    let mut fb: TestFb = Framebuffer::new();
    fb.add_surface_attachment(1, wgpu::TextureFormat::Bgra8UnormSrgb);
    fb.add_texture_attachment(wgpu::TextureFormat::Rgba8Unorm);
    fb.set_resolution(20, 20);
    fb.apply_configuration(vec![surface_resources(), texture_resources(50, 51)], None);

    fb.register_frames(vec![LiveFrame { view: 90, frame: 900 }]);
    let first = fb.render_pass_plan();
    assert_eq!(first.color_attachments.len(), 2);
    let drained = fb.take_live_frames();
    assert_eq!(drained.len(), 1);
    assert!(!fb.needs_present());

    fb.register_frames(vec![LiveFrame { view: 91, frame: 901 }]);
    let second = fb.render_pass_plan();
    assert_eq!(second.color_attachments.len(), 2);
    assert_eq!(fb.resolve_color_source(second.color_attachments[0].view), Some(&91));
    assert!(fb.needs_present());
}

#[test]
fn depth_target_follows_depth_view() {
    let mut fb: TestFb = Framebuffer::new_with_texture(wgpu::TextureFormat::Rgba8Unorm);
    fb.set_resolution(12, 12);
    fb.set_depth_stencil_format(Some(wgpu::TextureFormat::Depth24Plus));
    fb.apply_configuration(vec![texture_resources(3, 4)], Some(60));
    assert_eq!(fb.depth_stencil_view(), Some(&60));

    fb.register_frames(vec![]);
    let plan = fb.render_pass_plan();
    let depth = plan.depth_stencil.expect("a depth view exists");
    assert_eq!(depth.depth_load, DepthLoad::Clear(DEPTH_CLEAR_FAR_BITS));
    assert_eq!(depth.depth_store, StorePolicy::Discard);
}

#[test]
fn depth_policies_are_configurable() {
    let mut fb: TestFb = Framebuffer::new_with_texture(wgpu::TextureFormat::Rgba8Unorm);
    fb.set_resolution(12, 12);
    fb.set_depth_stencil_format(Some(wgpu::TextureFormat::Depth32Float));
    fb.set_depth_store(true);
    fb.set_depth_load_op(DepthLoad::Clear(0.5f32.to_bits()));
    fb.apply_configuration(vec![texture_resources(3, 4)], Some(61));

    let plan = fb.begin_depth_pass();
    assert!(plan.color_attachments.is_empty());
    let depth = plan.depth_stencil.expect("a depth view exists");
    assert_eq!(depth.depth_load, DepthLoad::Clear(0.5f32.to_bits()));
    assert_eq!(depth.depth_store, StorePolicy::Store);

    fb.set_depth_store(false);
    let plan = fb.begin_depth_pass();
    assert_eq!(plan.depth_stencil.unwrap().depth_store, StorePolicy::Discard);
}

#[test]
fn depth_pass_without_depth_view_has_no_depth_target() {
    let mut fb: TestFb = Framebuffer::new_with_texture(wgpu::TextureFormat::Rgba8Unorm);
    fb.set_resolution(12, 12);
    fb.apply_configuration(vec![texture_resources(3, 4)], None);
    let plan = fb.begin_depth_pass();
    assert!(plan.color_attachments.is_empty());
    assert!(plan.depth_stencil.is_none());
}

#[test]
fn far_depth_bits_are_the_bits_of_one() {
    assert_eq!(DEPTH_CLEAR_FAR_BITS, 1.0f32.to_bits());
    assert_eq!(f32::from_bits(DEPTH_CLEAR_FAR_BITS), 1.0f32);
}

#[test]
fn default_clear_color_is_transparent() {
    let fb: TestFb = Framebuffer::new_with_texture(wgpu::TextureFormat::Rgba8Unorm);
    assert_eq!(fb.color_attachments[0].clear_color, wgpu::Color::TRANSPARENT);
}

#[test]
fn set_clear_color_reaches_every_attachment() {
    let mut fb: TestFb = Framebuffer::new();
    fb.add_surface_attachment(1, wgpu::TextureFormat::Bgra8UnormSrgb);
    fb.add_texture_attachment(wgpu::TextureFormat::Rgba8Unorm);
    fb.set_clear_color(wgpu::Color::BLUE);
    assert_eq!(fb.color_attachments[0].clear_color, wgpu::Color::BLUE);
    assert_eq!(fb.color_attachments[1].clear_color, wgpu::Color::BLUE);
    fb.set_resolution(4, 4);
    fb.apply_configuration(vec![surface_resources(), texture_resources(7, 8)], None);
    fb.register_frames(vec![LiveFrame { view: 95, frame: 950 }]);
    let plan = fb.render_pass_plan();
    assert_eq!(plan.color_attachments[0].clear_color, wgpu::Color::BLUE);
    assert_eq!(plan.color_attachments[1].clear_color, wgpu::Color::BLUE);
}

#[test]
fn resolve_color_source_rejects_stale_names() {
    let fb: TestFb = Framebuffer::new();
    assert_eq!(fb.resolve_color_source(ColorSource::FrameView(0)), None);
    assert_eq!(fb.resolve_color_source(ColorSource::MsaaView(0)), None);
    assert_eq!(fb.resolve_color_source(ColorSource::DirectView(3)), None);
}
