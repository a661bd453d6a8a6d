//! Render-target lifecycle management for wgpu.
//!
//! The central type is [`Framebuffer`]: it owns a set of color attachments
//! (window surfaces or offscreen textures), an optional depth-stencil
//! attachment and optional multisample targets, tracks when their declared
//! configuration becomes stale, reallocates the underlying resources exactly
//! when needed, acquires a presentable frame per surface attachment each
//! render cycle, assembles a render-pass descriptor plan, and presents
//! acquired frames exactly once per acquisition.

/// Re-export of the wgpu version this crate is built against, so that
/// callers can use the very same one.
pub use wgpu;

mod framebuffer;
mod gpu;
mod laws;

pub use framebuffer::AttachmentResources;
pub use framebuffer::ColorAttachment;
pub use framebuffer::ColorAttachmentData;
pub use framebuffer::ColorSource;
pub use framebuffer::ColorTarget;
pub use framebuffer::ConfiguredViews;
pub use framebuffer::DepthLoad;
pub use framebuffer::DepthTarget;
pub use framebuffer::FrameAcquireError;
pub use framebuffer::Framebuffer;
pub use framebuffer::LiveFrame;
pub use framebuffer::RenderPassPlan;
pub use framebuffer::StorePolicy;
pub use framebuffer::DEPTH_CLEAR_FAR_BITS;
