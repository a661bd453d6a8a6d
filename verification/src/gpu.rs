//! Declarations of the wgpu handle types that the framebuffer carries, and
//! the trusted wrappers around the wgpu calls it makes.
//!
//! Every wgpu value is opaque to the verified code: the framebuffer only
//! stores, hands out and passes back these handles, and the wrappers below
//! are the only places where wgpu itself is called.

use vstd::prelude::*;

verus! {

#[verifier::external_type_specification]
#[verifier::external_body]
pub struct ExDevice(wgpu::Device);

#[verifier::external_type_specification]
#[verifier::external_body]
pub struct ExSurface<'window>(wgpu::Surface<'window>);

#[verifier::external_type_specification]
#[verifier::external_body]
pub struct ExTexture(wgpu::Texture);

#[verifier::external_type_specification]
#[verifier::external_body]
pub struct ExTextureView(wgpu::TextureView);

#[verifier::external_type_specification]
#[verifier::external_body]
pub struct ExSurfaceTexture(wgpu::SurfaceTexture);

#[verifier::external_type_specification]
#[verifier::external_body]
pub struct ExTextureFormat(wgpu::TextureFormat);

#[verifier::external_type_specification]
#[verifier::external_body]
pub struct ExPresentMode(wgpu::PresentMode);

#[verifier::external_type_specification]
#[verifier::external_body]
pub struct ExColor(wgpu::Color);

#[verifier::external_type_specification]
#[verifier::external_body]
pub struct ExSurfaceError(wgpu::SurfaceError);

/// Relies on wgpu's `PresentMode::AutoVsync` being a mode that every
/// platform supports: the default present mode of a fresh manager.
#[verifier::external_body]
pub(crate) fn default_present_mode() -> wgpu::PresentMode {
    wgpu::PresentMode::AutoVsync
}

/// Relies on wgpu's `Color::TRANSPARENT` being the all-zero color: the
/// default clear color of a fresh attachment.
#[verifier::external_body]
pub(crate) fn default_clear_color() -> wgpu::Color {
    wgpu::Color::TRANSPARENT
}

/// Relies on wgpu's `Surface::configure`: applies the given resolution,
/// format and present mode to the presentable surface, dropping whatever
/// swapchain images it held before. wgpu panics when `width` or `height` is
/// zero, when the format is unsupported by the surface, or when a frame
/// acquired from this surface is still alive; the callers only reach this
/// with a nonzero resolution and with no live frame held by the manager.
#[verifier::external_body]
pub(crate) fn configure_surface(
    surface: &wgpu::Surface<'static>,
    device: &wgpu::Device,
    width: u32,
    height: u32,
    format: wgpu::TextureFormat,
    present_mode: wgpu::PresentMode,
)
    requires
        width > 0,
        height > 0,
{
    surface.configure(device, &wgpu::SurfaceConfiguration {
        usage: wgpu::TextureUsages::RENDER_ATTACHMENT,
        format,
        width,
        height,
        present_mode,
        alpha_mode: wgpu::CompositeAlphaMode::Auto,
        view_formats: Vec::new(),
        desired_maximum_frame_latency: 2,
    });
}

/// Relies on wgpu's `Device::create_texture`: allocates a fresh 2D texture of
/// the given extent, format and sample count, usable as a render attachment
/// and, when `binding_usage` is set, also bindable from shaders. wgpu raises
/// a validation error for a zero extent or a sample count the format does not
/// support; the callers only pass a nonzero extent and a power-of-two sample
/// count.
#[verifier::external_body]
pub(crate) fn create_render_texture(
    device: &wgpu::Device,
    width: u32,
    height: u32,
    format: wgpu::TextureFormat,
    sample_count: u32,
    binding_usage: bool,
) -> wgpu::Texture
    requires
        width > 0,
        height > 0,
        crate::framebuffer::valid_sample_count(sample_count),
{
    let usage = if binding_usage {
        wgpu::TextureUsages::RENDER_ATTACHMENT | wgpu::TextureUsages::TEXTURE_BINDING
            | wgpu::TextureUsages::STORAGE_BINDING
    } else {
        wgpu::TextureUsages::RENDER_ATTACHMENT
    };
    device.create_texture(&wgpu::TextureDescriptor {
        label: Some("framebuffer texture"),
        size: wgpu::Extent3d { width, height, depth_or_array_layers: 1 },
        mip_level_count: 1, sample_count, dimension: wgpu::TextureDimension::D2,
        format, usage, view_formats: &[],
    })
}

/// Relies on wgpu's `Texture::create_view`: derives a view covering the whole
/// texture, with the texture's own format and dimension.
#[verifier::external_body]
pub(crate) fn create_texture_view(texture: &wgpu::Texture) -> wgpu::TextureView {
    texture.create_view(&wgpu::TextureViewDescriptor::default())
}

/// Relies on wgpu's `Surface::get_current_texture`: hands out the next
/// presentable frame of the surface, or the reason none could be acquired
/// (a timeout, an outdated or lost swapchain, exhausted memory). The outcome
/// depends on the display environment, so nothing is promised of it. wgpu
/// panics when the surface was never configured: `configure` establishes
/// that for every surface attachment before `begin_render_pass` reaches
/// this, but a caller that installs resources through `apply_configuration`
/// without reconfiguring its surfaces does not.
#[verifier::external_body]
pub(crate) fn acquire_frame(
    surface: &wgpu::Surface<'static>,
) -> Result<wgpu::SurfaceTexture, wgpu::SurfaceError> {
    surface.get_current_texture()
}

/// Relies on wgpu's `Texture::create_view` applied to the texture of an
/// acquired frame (`SurfaceTexture::texture`): derives a view of the frame
/// that a render pass can write into.
#[verifier::external_body]
pub(crate) fn surface_frame_view(frame: &wgpu::SurfaceTexture) -> wgpu::TextureView {
    frame.texture.create_view(&wgpu::TextureViewDescriptor::default())
}

/// Relies on wgpu's `SurfaceTexture::present`: schedules the acquired frame
/// for display on its surface and consumes it.
#[verifier::external_body]
pub(crate) fn present_frame(frame: wgpu::SurfaceTexture) {
    frame.present();
}

} // verus!
