//! The render-target lifecycle manager.

use vstd::prelude::*;

verus! {

/// Whether an attachment's contents are written back to memory at the end of
/// a render pass, or may be discarded once the pass (and any multisample
/// resolve) is over.
#[derive(Clone, Copy, Debug, PartialEq, Eq, Structural)]
pub enum StorePolicy {
    Store,
    Discard,
}

/// What happens to the depth attachment at the start of a render pass:
/// either it is cleared to a fixed depth, or its previous contents are
/// loaded. The clear depth is carried as the IEEE 754 single-precision bit
/// pattern of the value, so that the verified core never handles a
/// floating-point number itself.
#[derive(Clone, Copy, Debug, PartialEq, Eq, Structural)]
pub enum DepthLoad {
    Clear(u32),
    Load,
}

/// IEEE 754 single-precision bit pattern of the far-plane depth (one), the
/// default clear depth.
pub const DEPTH_CLEAR_FAR_BITS: u32 = 0x3F80_0000;

/// The two kinds of color attachment: one backed by a presentable window
/// surface, one backed by an offscreen texture owned by the manager.
pub enum ColorAttachmentData<S, T> {
    Surface { surface: S },
    Texture { color_texture: Option<T> },
}

/// The views allocated for one color attachment by the last `configure`.
///
/// `direct_view` is the single-sample view of the attachment's own texture:
/// present exactly for texture-backed attachments, since a surface-backed
/// attachment's single-sample target is the per-frame acquired view instead.
/// `msaa_view` is the multisample intermediate view, present exactly when
/// the sample count is above one.
pub struct ConfiguredViews<V> {
    pub msaa_view: Option<V>,
    pub direct_view: Option<V>,
}

/// One color-producing slot of the manager.
pub struct ColorAttachment<S, T, V> {
    pub data: ColorAttachmentData<S, T>,
    pub color_format: wgpu::TextureFormat,
    pub configured: Option<ConfiguredViews<V>>,
    pub clear_color: wgpu::Color,
}

/// A presentable frame acquired from a surface attachment and not yet
/// presented, together with the view derived from it.
pub struct LiveFrame<V, F> {
    pub view: V,
    pub frame: F,
}

/// A render-target lifecycle manager.
///
/// It owns color attachments (window surfaces or offscreen textures), an
/// optional depth-stencil attachment and optional multisample targets, all
/// sharing one resolution and sample count. Setters only declare the desired
/// configuration and mark the manager dirty; `configure` reconciles the
/// allocated resources with the declaration; `begin_render_pass` acquires a
/// presentable frame per surface attachment and assembles the render-pass
/// descriptor plan; `present` hands every acquired frame to the display.
///
/// The type is generic in the four opaque resource handles it stores: `S`
/// for a presentable surface, `T` for an owned texture, `V` for a texture
/// view, `F` for an acquired frame. Rendering code uses it at the wgpu
/// handle types.
pub struct Framebuffer<S, T, V, F> {
    pub resolution: (u32, u32),
    pub sample_count: u32,

    pub color_attachments: Vec<ColorAttachment<S, T, V>>,
    pub depth_stencil_format: Option<wgpu::TextureFormat>,
    pub depth_stencil_view: Option<V>,

    pub live_frame: Vec<LiveFrame<V, F>>,
    pub present_mode: wgpu::PresentMode,

    pub depth_store: StorePolicy,
    pub depth_load_op: DepthLoad,

    pub dirty: bool,
}

impl<S, T, V> ColorAttachment<S, T, V> {
    /// The views of an attachment always match its kind and the manager's
    /// sample count: a multisample view exists exactly when multisampling is
    /// on, a direct view exactly for texture-backed attachments, and a
    /// texture-backed attachment that has been configured holds its texture.
    pub open spec fn views_wf(self, sample_count: u32) -> bool {
        self.configured matches Some(c) ==> {
            &&& c.msaa_view is Some <==> sample_count > 1
            &&& c.direct_view is Some <==> self.data is Texture
            &&& self.data is Texture ==> self.data->color_texture is Some
        }
    }
}

/// The attachment sequences of two managers agree except that every
/// attachment of the second has had its allocated views discarded.
pub open spec fn attachments_invalidated<S, T, V>(
    pre: Seq<ColorAttachment<S, T, V>>,
    post: Seq<ColorAttachment<S, T, V>>,
) -> bool {
    &&& post.len() == pre.len()
    &&& forall|i: int|
        0 <= i < pre.len() ==> #[trigger] post[i] == (ColorAttachment {
            configured: None,
            ..pre[i]
        })
}

/// How many of the first `i` attachments are surface-backed. An acquired
/// frame exists per surface attachment, in attachment order, so this is also
/// the index into the live-frame registry that belongs to attachment `i`.
pub open spec fn surface_index<S, T, V>(atts: Seq<ColorAttachment<S, T, V>>, i: int) -> int
    decreases i,
{
    if i <= 0 {
        0
    } else {
        surface_index(atts, i - 1) + if atts[i - 1].data is Surface {
            1int
        } else {
            0int
        }
    }
}

/// The running surface count never decreases along the attachment list.
proof fn lemma_surface_index_monotone<S, T, V>(
    atts: Seq<ColorAttachment<S, T, V>>,
    i: int,
    j: int,
)
    requires
        0 <= i <= j,
    ensures
        surface_index(atts, i) <= surface_index(atts, j),
    decreases j - i,
{
    if i < j {
        lemma_surface_index_monotone(atts, i, j - 1);
    }
}

/// Number of surface-backed attachments: one presentable frame is acquired
/// for each per render pass.
pub open spec fn spec_surface_count<S, T, V>(atts: Seq<ColorAttachment<S, T, V>>) -> int {
    surface_index(atts, atts.len() as int)
}

impl<S, T, V, F> Framebuffer<S, T, V, F> {
    /// Well-formedness: the invariant every operation preserves. An
    /// attachment holds assembled views exactly while the manager is clean
    /// (every configuration-affecting transition discards them, and only
    /// `configure` rebuilds them), the views match the attachment kind and
    /// the sample count, and the depth-stencil view exists exactly when the
    /// manager is clean with a depth format declared.
    pub open spec fn wf(self) -> bool {
        &&& self.sample_count >= 1
        &&& forall|i: int|
            0 <= i < self.color_attachments@.len() ==> (
            #[trigger] self.color_attachments@[i]).views_wf(self.sample_count)
        &&& forall|i: int|
            0 <= i < self.color_attachments@.len() ==> ((
            #[trigger] self.color_attachments@[i]).configured is Some <==> !self.dirty)
        &&& self.dirty ==> self.depth_stencil_view is None
        &&& !self.dirty ==> (self.depth_stencil_view is Some <==> self.depth_stencil_format is
            Some)
    }

    /// The externally visible view of attachment `i`: the resolve target if
    /// one exists, else the direct target; nothing while unconfigured, out
    /// of range, or for a surface-backed attachment without multisampling,
    /// whose target only exists per acquired frame.
    pub open spec fn spec_attachment_view(self, i: int) -> Option<V> {
        if 0 <= i < self.color_attachments@.len() {
            match self.color_attachments@[i].configured {
                Some(c) => if c.direct_view is Some {
                    c.direct_view
                } else {
                    c.msaa_view
                },
                None => None,
            }
        } else {
            None
        }
    }

    /// The offscreen texture of attachment `i`: present only for
    /// texture-backed attachments that have been allocated.
    pub open spec fn spec_attachment_texture(self, i: int) -> Option<T> {
        if 0 <= i < self.color_attachments@.len() {
            match self.color_attachments@[i].data {
                ColorAttachmentData::Surface { .. } => None,
                ColorAttachmentData::Texture { color_texture } => color_texture,
            }
        } else {
            None
        }
    }

    /// Creates a new manager with no color attachments, no depth-stencil
    /// format, resolution zero by zero, sample count one, and the depth
    /// attachment defaulting to clear-to-far on load and discard on store.
    /// A fresh manager is dirty: `configure` must run before rendering.
    pub fn new() -> (fb: Framebuffer<S, T, V, F>)
        ensures
            fb.wf(),
            fb.dirty,
            fb.color_attachments@.len() == 0,
            fb.live_frame@.len() == 0,
            fb.resolution == (0u32, 0u32),
            fb.sample_count == 1,
            fb.depth_stencil_format is None,
            fb.depth_stencil_view is None,
            fb.depth_store == StorePolicy::Discard,
            fb.depth_load_op == DepthLoad::Clear(DEPTH_CLEAR_FAR_BITS),
    {
        Framebuffer {
            resolution: (0, 0),
            sample_count: 1,
            color_attachments: Vec::new(),
            depth_stencil_format: None,
            depth_stencil_view: None,
            live_frame: Vec::new(),
            present_mode: crate::gpu::default_present_mode(),
            depth_store: StorePolicy::Discard,
            depth_load_op: DepthLoad::Clear(DEPTH_CLEAR_FAR_BITS),
            dirty: true,
        }
    }

    /// Creates a new manager whose single color attachment renders to the
    /// given presentable surface.
    pub fn new_from_surface(surface: S, color_format: wgpu::TextureFormat) -> (fb: Framebuffer<
        S,
        T,
        V,
        F,
    >)
        ensures
            fb.wf(),
            fb.dirty,
            fb.color_attachments@.len() == 1,
            fb.color_attachments@[0].data == (ColorAttachmentData::Surface::<S, T> { surface }),
            fb.color_attachments@[0].color_format == color_format,
            fb.color_attachments@[0].configured is None,
            fb.live_frame@.len() == 0,
            fb.resolution == (0u32, 0u32),
            fb.sample_count == 1,
            fb.depth_stencil_format is None,
            fb.depth_stencil_view is None,
            fb.depth_store == StorePolicy::Discard,
            fb.depth_load_op == DepthLoad::Clear(DEPTH_CLEAR_FAR_BITS),
    {
        let mut fb: Framebuffer<S, T, V, F> = Framebuffer::new();
        fb.add_surface_attachment(surface, color_format);
        fb
    }

    /// Creates a new manager whose single color attachment renders to an
    /// offscreen texture, allocated on the next `configure`.
    pub fn new_with_texture(color_format: wgpu::TextureFormat) -> (fb: Framebuffer<S, T, V, F>)
        ensures
            fb.wf(),
            fb.dirty,
            fb.color_attachments@.len() == 1,
            fb.color_attachments@[0].data == (ColorAttachmentData::Texture::<S, T> {
                color_texture: None,
            }),
            fb.color_attachments@[0].color_format == color_format,
            fb.color_attachments@[0].configured is None,
            fb.live_frame@.len() == 0,
            fb.resolution == (0u32, 0u32),
            fb.sample_count == 1,
            fb.depth_stencil_format is None,
            fb.depth_stencil_view is None,
            fb.depth_store == StorePolicy::Discard,
            fb.depth_load_op == DepthLoad::Clear(DEPTH_CLEAR_FAR_BITS),
    {
        let mut fb: Framebuffer<S, T, V, F> = Framebuffer::new();
        fb.add_texture_attachment(color_format);
        fb
    }

    /// Adds a color attachment that renders to the given presentable
    /// surface, with a transparent default clear color; marks the manager
    /// dirty and discards every allocated view: the declared configuration
    /// diverged from the allocated one, so nothing assembled may be reused
    /// before the next `configure`.
    pub fn add_surface_attachment(&mut self, surface: S, color_format: wgpu::TextureFormat)
        requires
            old(self).wf(),
        ensures
            final(self).color_attachments@.len() == old(self).color_attachments@.len() + 1,
            forall|i: int|
                0 <= i < old(self).color_attachments@.len() ==> #[trigger] final(self).color_attachments@[i] == (ColorAttachment {
                    configured: None,
                    ..old(self).color_attachments@[i]
                }),
            final(self).color_attachments@.last().data == (ColorAttachmentData::Surface::<S, T> {
                surface,
            }),
            final(self).color_attachments@.last().color_format == color_format,
            final(self).color_attachments@.last().configured is None,
            final(self).dirty,
            final(self).depth_stencil_view is None,
            final(self).resolution == old(self).resolution,
            final(self).sample_count == old(self).sample_count,
            final(self).depth_stencil_format == old(self).depth_stencil_format,
            final(self).live_frame == old(self).live_frame,
            final(self).present_mode == old(self).present_mode,
            final(self).depth_store == old(self).depth_store,
            final(self).depth_load_op == old(self).depth_load_op,
            final(self).wf(),
    {
        self.invalidate_resources();
        self.color_attachments.push(
            ColorAttachment {
                data: ColorAttachmentData::Surface { surface },
                color_format,
                configured: None,
                clear_color: crate::gpu::default_clear_color(),
            },
        );
        self.dirty = true;
    }

    /// Adds a color attachment that renders to an offscreen texture
    /// (allocated on the next `configure`), with a transparent default
    /// clear color; marks the manager dirty and discards every allocated
    /// view: the declared configuration diverged from the allocated one, so
    /// nothing assembled may be reused before the next `configure`.
    pub fn add_texture_attachment(&mut self, color_format: wgpu::TextureFormat)
        requires
            old(self).wf(),
        ensures
            final(self).color_attachments@.len() == old(self).color_attachments@.len() + 1,
            forall|i: int|
                0 <= i < old(self).color_attachments@.len() ==> #[trigger] final(self).color_attachments@[i] == (ColorAttachment {
                    configured: None,
                    ..old(self).color_attachments@[i]
                }),
            final(self).color_attachments@.last().data == (ColorAttachmentData::Texture::<S, T> {
                color_texture: None,
            }),
            final(self).color_attachments@.last().color_format == color_format,
            final(self).color_attachments@.last().configured is None,
            final(self).dirty,
            final(self).depth_stencil_view is None,
            final(self).resolution == old(self).resolution,
            final(self).sample_count == old(self).sample_count,
            final(self).depth_stencil_format == old(self).depth_stencil_format,
            final(self).live_frame == old(self).live_frame,
            final(self).present_mode == old(self).present_mode,
            final(self).depth_store == old(self).depth_store,
            final(self).depth_load_op == old(self).depth_load_op,
            final(self).wf(),
    {
        self.invalidate_resources();
        self.color_attachments.push(
            ColorAttachment {
                data: ColorAttachmentData::Texture { color_texture: None },
                color_format,
                configured: None,
                clear_color: crate::gpu::default_clear_color(),
            },
        );
        self.dirty = true;
    }

    /// Returns the number of color attachments bound to the manager.
    pub fn color_attachment_count(&self) -> (n: usize)
        ensures
            n == self.color_attachments@.len(),
    {
        self.color_attachments.len()
    }

    /// Declares the present mode of every surface-backed attachment, marks
    /// the manager dirty and discards every allocated view: the declared
    /// configuration diverged from the allocated one, so nothing assembled
    /// may be reused before the next `configure`.
    pub fn set_present_mode(&mut self, present_mode: wgpu::PresentMode)
        requires
            old(self).wf(),
        ensures
            final(self).present_mode == present_mode,
            final(self).dirty,
            attachments_invalidated(old(self).color_attachments@, final(self).color_attachments@),
            final(self).depth_stencil_view is None,
            final(self).resolution == old(self).resolution,
            final(self).sample_count == old(self).sample_count,
            final(self).depth_stencil_format == old(self).depth_stencil_format,
            final(self).live_frame == old(self).live_frame,
            final(self).depth_store == old(self).depth_store,
            final(self).depth_load_op == old(self).depth_load_op,
            final(self).wf(),
    {
        self.present_mode = present_mode;
        self.dirty = true;
        self.invalidate_resources();
    }

    /// Sets the clear color of every color attachment. A clear color only
    /// affects the next render pass's clear operation, so this never marks
    /// the manager dirty and never discards resources.
    pub fn set_clear_color(&mut self, clear_color: wgpu::Color)
        ensures
            final(self).color_attachments@.len() == old(self).color_attachments@.len(),
            forall|i: int|
                0 <= i < old(self).color_attachments@.len() ==> #[trigger] final(self).color_attachments@[i] == (ColorAttachment {
                    clear_color,
                    ..old(self).color_attachments@[i]
                }),
            final(self).dirty == old(self).dirty,
            final(self).resolution == old(self).resolution,
            final(self).sample_count == old(self).sample_count,
            final(self).depth_stencil_format == old(self).depth_stencil_format,
            final(self).depth_stencil_view == old(self).depth_stencil_view,
            final(self).live_frame == old(self).live_frame,
            final(self).present_mode == old(self).present_mode,
            final(self).depth_store == old(self).depth_store,
            final(self).depth_load_op == old(self).depth_load_op,
            old(self).wf() ==> final(self).wf(),
    {
        let n: usize = self.color_attachments.len();
        let mut i: usize = 0;
        while i < n
            invariant
                n == self.color_attachments@.len(),
                i <= n,
                forall|j: int|
                    0 <= j < i ==> #[trigger] self.color_attachments@[j] == (ColorAttachment {
                        clear_color,
                        ..old(self).color_attachments@[j]
                    }),
                forall|j: int|
                    i <= j < n ==> #[trigger] self.color_attachments@[j] == old(self).color_attachments@[j],
                self.resolution == old(self).resolution,
                self.sample_count == old(self).sample_count,
                self.depth_stencil_format == old(self).depth_stencil_format,
                self.depth_stencil_view == old(self).depth_stencil_view,
                self.live_frame == old(self).live_frame,
                self.present_mode == old(self).present_mode,
                self.depth_store == old(self).depth_store,
                self.depth_load_op == old(self).depth_load_op,
                self.dirty == old(self).dirty,
            decreases n - i,
        {
            self.color_attachments[i].clear_color = clear_color;
            i = i + 1;
        }
    }

    /// Declares the sample count (one for no multisampling), marks the
    /// manager dirty and discards every allocated view: multisample targets
    /// are sized to the sample count, so none of them may be reused.
    pub fn set_sample_count(&mut self, sample_count: u32)
        requires
            sample_count >= 1,
        ensures
            final(self).sample_count == sample_count,
            final(self).dirty,
            attachments_invalidated(old(self).color_attachments@, final(self).color_attachments@),
            final(self).depth_stencil_view is None,
            final(self).resolution == old(self).resolution,
            final(self).depth_stencil_format == old(self).depth_stencil_format,
            final(self).live_frame == old(self).live_frame,
            final(self).present_mode == old(self).present_mode,
            final(self).depth_store == old(self).depth_store,
            final(self).depth_load_op == old(self).depth_load_op,
            final(self).wf(),
    {
        self.sample_count = sample_count;
        self.dirty = true;
        self.invalidate_resources();
    }

    /// Declares the depth-stencil format, or none when no depth testing is
    /// wanted; marks the manager dirty and discards every allocated view,
    /// attachment and depth-stencil alike: the declared configuration
    /// diverged from the allocated one, so nothing assembled may be reused
    /// before the next `configure`.
    pub fn set_depth_stencil_format(&mut self, format: Option<wgpu::TextureFormat>)
        requires
            old(self).wf(),
        ensures
            final(self).depth_stencil_format == format,
            final(self).dirty,
            attachments_invalidated(old(self).color_attachments@, final(self).color_attachments@),
            final(self).depth_stencil_view is None,
            final(self).resolution == old(self).resolution,
            final(self).sample_count == old(self).sample_count,
            final(self).live_frame == old(self).live_frame,
            final(self).present_mode == old(self).present_mode,
            final(self).depth_store == old(self).depth_store,
            final(self).depth_load_op == old(self).depth_load_op,
            final(self).wf(),
    {
        self.depth_stencil_format = format;
        self.dirty = true;
        self.invalidate_resources();
    }

    /// Returns the declared sample count, one meaning no multisampling.
    pub fn sample_count(&self) -> (n: u32)
        ensures
            n == self.sample_count,
    {
        self.sample_count
    }

    /// Returns the declared width.
    pub fn width(&self) -> (w: u32)
        ensures
            w == self.resolution.0,
    {
        self.resolution.0
    }

    /// Returns the declared height.
    pub fn height(&self) -> (h: u32)
        ensures
            h == self.resolution.1,
    {
        self.resolution.1
    }

    /// Declares the resolution shared by every attachment and the depth
    /// slot, marks the manager dirty and discards every allocated view:
    /// views allocated at another size must never be reused.
    pub fn set_resolution(&mut self, width: u32, height: u32)
        requires
            old(self).wf(),
        ensures
            final(self).resolution == (width, height),
            final(self).dirty,
            attachments_invalidated(old(self).color_attachments@, final(self).color_attachments@),
            final(self).depth_stencil_view is None,
            final(self).sample_count == old(self).sample_count,
            final(self).depth_stencil_format == old(self).depth_stencil_format,
            final(self).live_frame == old(self).live_frame,
            final(self).present_mode == old(self).present_mode,
            final(self).depth_store == old(self).depth_store,
            final(self).depth_load_op == old(self).depth_load_op,
            final(self).wf(),
    {
        self.resolution = (width, height);
        self.dirty = true;
        self.invalidate_resources();
    }

    /// Chooses whether the depth attachment's contents are written back at
    /// the end of a render pass (else they are discarded once the pass is
    /// over). A render-pass policy only: the manager is not marked dirty.
    pub fn set_depth_store(&mut self, store: bool)
        ensures
            *final(self) == (Framebuffer {
                depth_store: if store {
                    StorePolicy::Store
                } else {
                    StorePolicy::Discard
                },
                ..*old(self)
            }),
            old(self).wf() ==> final(self).wf(),
    {
        self.depth_store = if store {
            StorePolicy::Store
        } else {
            StorePolicy::Discard
        };
    }

    /// Chooses the depth attachment's load operation for the next render
    /// pass. A render-pass policy only: the manager is not marked dirty.
    pub fn set_depth_load_op(&mut self, load_op: DepthLoad)
        ensures
            *final(self) == (Framebuffer { depth_load_op: load_op, ..*old(self) }),
            old(self).wf() ==> final(self).wf(),
    {
        self.depth_load_op = load_op;
    }

    /// Returns the externally visible view of attachment `idx`: the resolve
    /// target if one exists, else the direct target; nothing while
    /// unconfigured, out of range, or for a surface-backed attachment
    /// without multisampling.
    pub fn attachment_view(&self, idx: usize) -> (r: Option<&V>)
        ensures
            r is Some <==> self.spec_attachment_view(idx as int) is Some,
            r matches Some(v) ==> self.spec_attachment_view(idx as int) == Some(*v),
    {
        if idx >= self.color_attachments.len() {
            return None;
        }
        match &self.color_attachments[idx].configured {
            Some(c) => match &c.direct_view {
                Some(v) => Some(v),
                None => match &c.msaa_view {
                    Some(v) => Some(v),
                    None => None,
                },
            },
            None => None,
        }
    }

    /// Returns the offscreen texture backing attachment `idx`: always
    /// nothing for surface-backed attachments, whose backing image belongs
    /// to the presentation engine.
    pub fn attachment_texture(&self, idx: usize) -> (r: Option<&T>)
        ensures
            r is Some <==> self.spec_attachment_texture(idx as int) is Some,
            r matches Some(t) ==> self.spec_attachment_texture(idx as int) == Some(*t),
    {
        if idx >= self.color_attachments.len() {
            return None;
        }
        match &self.color_attachments[idx].data {
            ColorAttachmentData::Surface { .. } => None,
            ColorAttachmentData::Texture { color_texture } => match color_texture {
                Some(t) => Some(t),
                None => None,
            },
        }
    }

    /// True when a configuration-affecting setter has run since the last
    /// `configure`: resources are stale and `configure` must run before the
    /// next render pass.
    pub fn needs_configure(&self) -> (b: bool)
        ensures
            b == self.dirty,
    {
        self.dirty
    }

    /// True when presentable frames have been acquired by
    /// `begin_render_pass` and not yet handed back via `present`.
    pub fn needs_present(&self) -> (b: bool)
        ensures
            b == (self.live_frame@.len() > 0),
    {
        !self.live_frame.is_empty()
    }

    /// Discards every attachment's allocated views.
    fn invalidate_color_attachments(&mut self)
        ensures
            attachments_invalidated(old(self).color_attachments@, final(self).color_attachments@),
            final(self).resolution == old(self).resolution,
            final(self).sample_count == old(self).sample_count,
            final(self).depth_stencil_format == old(self).depth_stencil_format,
            final(self).depth_stencil_view == old(self).depth_stencil_view,
            final(self).live_frame == old(self).live_frame,
            final(self).present_mode == old(self).present_mode,
            final(self).depth_store == old(self).depth_store,
            final(self).depth_load_op == old(self).depth_load_op,
            final(self).dirty == old(self).dirty,
    {
        let n: usize = self.color_attachments.len();
        let mut i: usize = 0;
        while i < n
            invariant
                n == self.color_attachments@.len(),
                i <= n,
                forall|j: int|
                    0 <= j < i ==> #[trigger] self.color_attachments@[j] == (ColorAttachment {
                        configured: None,
                        ..old(self).color_attachments@[j]
                    }),
                forall|j: int|
                    i <= j < n ==> #[trigger] self.color_attachments@[j] == old(self).color_attachments@[j],
                self.resolution == old(self).resolution,
                self.sample_count == old(self).sample_count,
                self.depth_stencil_format == old(self).depth_stencil_format,
                self.depth_stencil_view == old(self).depth_stencil_view,
                self.live_frame == old(self).live_frame,
                self.present_mode == old(self).present_mode,
                self.depth_store == old(self).depth_store,
                self.depth_load_op == old(self).depth_load_op,
                self.dirty == old(self).dirty,
            decreases n - i,
        {
            self.color_attachments[i].configured = None;
            i = i + 1;
        }
    }

    /// Discards the allocated depth-stencil view.
    fn invalidate_depth_stencil(&mut self)
        ensures
            *final(self) == (Framebuffer { depth_stencil_view: None, ..*old(self) }),
    {
        self.depth_stencil_view = None;
    }

    /// Discards every allocated view, attachment and depth-stencil alike.
    /// Stale handles are dropped before `configure` allocates replacements,
    /// so the presentation engine never sees both generations at once.
    fn invalidate_resources(&mut self)
        ensures
            attachments_invalidated(old(self).color_attachments@, final(self).color_attachments@),
            final(self).depth_stencil_view is None,
            final(self).resolution == old(self).resolution,
            final(self).sample_count == old(self).sample_count,
            final(self).depth_stencil_format == old(self).depth_stencil_format,
            final(self).live_frame == old(self).live_frame,
            final(self).present_mode == old(self).present_mode,
            final(self).depth_store == old(self).depth_store,
            final(self).depth_load_op == old(self).depth_load_op,
            final(self).dirty == old(self).dirty,
    {
        self.invalidate_color_attachments();
        self.invalidate_depth_stencil();
    }
}

/// Names one of the views held by the manager (or by its live-frame
/// registry), for use in a render-pass descriptor plan: the caller resolves
/// it against the manager via `resolve_color_source` when binding the pass.
#[derive(Clone, Copy, Debug, PartialEq, Eq, Structural)]
pub enum ColorSource {
    /// The view derived from acquired frame `k` of the live-frame registry.
    FrameView(usize),
    /// The multisample intermediate view of attachment `i`.
    MsaaView(usize),
    /// The direct single-sample texture view of attachment `i`.
    DirectView(usize),
}

/// One color-attachment descriptor of a render-pass plan: which view the
/// pass writes into, which view (if any) receives the multisample resolve,
/// the clear color loaded at the start of the pass, and whether the
/// attachment is written back at the end.
#[derive(Clone, Copy, Debug)]
pub struct ColorTarget {
    pub view: ColorSource,
    pub resolve_target: Option<ColorSource>,
    pub clear_color: wgpu::Color,
    pub store: StorePolicy,
}

/// The depth-stencil descriptor of a render-pass plan; the view it applies
/// to is the manager's depth-stencil view.
#[derive(Clone, Copy, Debug, PartialEq, Eq, Structural)]
pub struct DepthTarget {
    pub depth_load: DepthLoad,
    pub depth_store: StorePolicy,
}

/// A render-pass descriptor plan: one color descriptor per attachment, in
/// attachment order, and the depth-stencil descriptor when a depth view
/// exists.
#[derive(Debug)]
pub struct RenderPassPlan {
    pub color_attachments: Vec<ColorTarget>,
    pub depth_stencil: Option<DepthTarget>,
}

/// The resources allocated for one color attachment, handed to
/// `apply_configuration`: the fresh offscreen texture and its view for a
/// texture-backed attachment, and the multisample intermediate view when
/// multisampling is on.
pub struct AttachmentResources<T, V> {
    pub color_texture: Option<T>,
    pub direct_view: Option<V>,
    pub msaa_view: Option<V>,
}

/// The resources fit the attachment: a texture and its direct view exactly
/// for a texture-backed attachment, a multisample view exactly when the
/// sample count is above one.
pub open spec fn resources_match<S, T, V>(
    a: ColorAttachment<S, T, V>,
    r: AttachmentResources<T, V>,
    sample_count: u32,
) -> bool {
    &&& r.color_texture is Some <==> a.data is Texture
    &&& r.direct_view is Some <==> a.data is Texture
    &&& r.msaa_view is Some <==> sample_count > 1
}

impl<S, T, V, F> Framebuffer<S, T, V, F> {
    /// The color descriptor that `begin_render_pass` builds for attachment
    /// `i`. With multisampling the pass writes into the multisample view and
    /// resolves into the final image (the acquired frame's view for a
    /// surface, the direct texture view otherwise), whose contents alone
    /// matter, so the multisample attachment is discarded. Without it the
    /// pass writes the final image directly, which is stored.
    pub open spec fn spec_color_target(self, i: int) -> ColorTarget {
        let a = self.color_attachments@[i];
        let direct = if a.data is Surface {
            ColorSource::FrameView(surface_index(self.color_attachments@, i) as usize)
        } else {
            ColorSource::DirectView(i as usize)
        };
        if self.sample_count > 1 {
            ColorTarget {
                view: ColorSource::MsaaView(i as usize),
                resolve_target: Some(direct),
                clear_color: a.clear_color,
                store: StorePolicy::Discard,
            }
        } else {
            ColorTarget {
                view: direct,
                resolve_target: None,
                clear_color: a.clear_color,
                store: StorePolicy::Store,
            }
        }
    }

    /// All color descriptors, in attachment order.
    pub open spec fn spec_color_targets(self) -> Seq<ColorTarget> {
        Seq::new(self.color_attachments@.len(), |i: int| self.spec_color_target(i))
    }

    /// The depth-stencil descriptor: present exactly when a depth-stencil
    /// view is allocated, carrying the declared load and store policies.
    pub open spec fn spec_depth_target(self) -> Option<DepthTarget> {
        if self.depth_stencil_view is Some {
            Some(DepthTarget { depth_load: self.depth_load_op, depth_store: self.depth_store })
        } else {
            None
        }
    }

    /// The view a color source of a render-pass plan names, if it is
    /// currently held by the manager.
    pub open spec fn spec_resolve(self, src: ColorSource) -> Option<V> {
        match src {
            ColorSource::FrameView(k) => if k < self.live_frame@.len() {
                Some(self.live_frame@[k as int].view)
            } else {
                None
            },
            ColorSource::MsaaView(i) => if i < self.color_attachments@.len()
                && self.color_attachments@[i as int].configured is Some {
                self.color_attachments@[i as int].configured->0.msaa_view
            } else {
                None
            },
            ColorSource::DirectView(i) => if i < self.color_attachments@.len()
                && self.color_attachments@[i as int].configured is Some {
                self.color_attachments@[i as int].configured->0.direct_view
            } else {
                None
            },
        }
    }

    /// Resolves a color source of a render-pass plan to the view it names.
    pub fn resolve_color_source(&self, src: ColorSource) -> (r: Option<&V>)
        ensures
            r is Some <==> self.spec_resolve(src) is Some,
            r matches Some(v) ==> self.spec_resolve(src) == Some(*v),
    {
        match src {
            ColorSource::FrameView(k) => {
                if k < self.live_frame.len() {
                    Some(&self.live_frame[k].view)
                } else {
                    None
                }
            },
            ColorSource::MsaaView(i) => {
                if i < self.color_attachments.len() {
                    match &self.color_attachments[i].configured {
                        Some(c) => match &c.msaa_view {
                            Some(v) => Some(v),
                            None => None,
                        },
                        None => None,
                    }
                } else {
                    None
                }
            },
            ColorSource::DirectView(i) => {
                if i < self.color_attachments.len() {
                    match &self.color_attachments[i].configured {
                        Some(c) => match &c.direct_view {
                            Some(v) => Some(v),
                            None => None,
                        },
                        None => None,
                    }
                } else {
                    None
                }
            },
        }
    }

    /// Returns the allocated depth-stencil view, if any.
    pub fn depth_stencil_view(&self) -> (r: Option<&V>)
        ensures
            r is Some <==> self.depth_stencil_view is Some,
            r matches Some(v) ==> self.depth_stencil_view == Some(*v),
    {
        match &self.depth_stencil_view {
            Some(v) => Some(v),
            None => None,
        }
    }

    /// Installs the resources allocated for the declared configuration: per
    /// attachment its fresh texture and views, and the depth-stencil view
    /// exactly when a depth format is declared. Every attachment becomes
    /// configured and the manager is clean afterwards. The configuration is
    /// applied to every attachment and the depth slot together: no partial
    /// application is ever visible.
    ///
    /// This installs bookkeeping only. At the wgpu handle types it is
    /// `configure` that performs the collaborator calls, reconfiguring each
    /// presentable surface along the way; a caller that installs resources
    /// here without reconfiguring its surfaces leaves them in whatever state
    /// the presentation engine last saw, and acquiring a frame from a
    /// never-configured surface aborts there.
    pub fn apply_configuration(
        &mut self,
        resources: Vec<AttachmentResources<T, V>>,
        depth_view: Option<V>,
    )
        requires
            old(self).wf(),
            old(self).live_frame@.len() == 0,
            resources@.len() == old(self).color_attachments@.len(),
            forall|i: int|
                0 <= i < resources@.len() ==> resources_match(
                    old(self).color_attachments@[i],
                    #[trigger] resources@[i],
                    old(self).sample_count,
                ),
            depth_view is Some <==> old(self).depth_stencil_format is Some,
        ensures
            final(self).wf(),
            !final(self).dirty,
            final(self).color_attachments@.len() == old(self).color_attachments@.len(),
            forall|i: int|
                0 <= i < old(self).color_attachments@.len() ==> #[trigger] final(self).color_attachments@[i] == (ColorAttachment {
                    data: if old(self).color_attachments@[i].data is Texture {
                        ColorAttachmentData::Texture { color_texture: resources@[i].color_texture }
                    } else {
                        old(self).color_attachments@[i].data
                    },
                    configured: Some(
                        ConfiguredViews {
                            msaa_view: resources@[i].msaa_view,
                            direct_view: resources@[i].direct_view,
                        },
                    ),
                    ..old(self).color_attachments@[i]
                }),
            final(self).depth_stencil_view == depth_view,
            final(self).resolution == old(self).resolution,
            final(self).sample_count == old(self).sample_count,
            final(self).depth_stencil_format == old(self).depth_stencil_format,
            final(self).live_frame@ == old(self).live_frame@,
            final(self).present_mode == old(self).present_mode,
            final(self).depth_store == old(self).depth_store,
            final(self).depth_load_op == old(self).depth_load_op,
    {
        let ghost all_resources = resources@;
        let mut rs = resources;
        let n: usize = self.color_attachments.len();
        let mut i: usize = 0;
        while i < n
            invariant
                n == self.color_attachments@.len(),
                i <= n,
                all_resources.len() == n,
                rs@ == all_resources.skip(i as int),
                forall|j: int|
                    0 <= j < i ==> #[trigger] self.color_attachments@[j] == (ColorAttachment {
                        data: if old(self).color_attachments@[j].data is Texture {
                            ColorAttachmentData::Texture {
                                color_texture: all_resources[j].color_texture,
                            }
                        } else {
                            old(self).color_attachments@[j].data
                        },
                        configured: Some(
                            ConfiguredViews {
                                msaa_view: all_resources[j].msaa_view,
                                direct_view: all_resources[j].direct_view,
                            },
                        ),
                        ..old(self).color_attachments@[j]
                    }),
                forall|j: int|
                    i <= j < n ==> #[trigger] self.color_attachments@[j] == old(self).color_attachments@[j],
                self.resolution == old(self).resolution,
                self.sample_count == old(self).sample_count,
                self.depth_stencil_format == old(self).depth_stencil_format,
                self.depth_stencil_view == old(self).depth_stencil_view,
                self.live_frame == old(self).live_frame,
                self.present_mode == old(self).present_mode,
                self.depth_store == old(self).depth_store,
                self.depth_load_op == old(self).depth_load_op,
                self.dirty == old(self).dirty,
            decreases n - i,
        {
            let r = rs.remove(0);
            proof {
                assert(rs@ =~= all_resources.skip(i + 1));
            }
            let is_texture = matches!(
                &self.color_attachments[i].data,
                ColorAttachmentData::Texture { .. }
            );
            if is_texture {
                self.color_attachments[i].data = ColorAttachmentData::Texture {
                    color_texture: r.color_texture,
                };
            }
            self.color_attachments[i].configured = Some(
                ConfiguredViews { msaa_view: r.msaa_view, direct_view: r.direct_view },
            );
            i = i + 1;
        }
        self.depth_stencil_view = depth_view;
        self.dirty = false;
    }

    /// Records the presentable frames acquired for this render cycle, one
    /// per surface attachment, in attachment order. The manager must be
    /// clean and must hold no earlier frame.
    pub fn register_frames(&mut self, frames: Vec<LiveFrame<V, F>>)
        requires
            !old(self).dirty,
            old(self).live_frame@.len() == 0,
            frames@.len() == spec_surface_count(old(self).color_attachments@),
        ensures
            *final(self) == (Framebuffer { live_frame: frames, ..*old(self) }),
    {
        self.live_frame = frames;
    }

    /// Hands back every acquired-but-unpresented frame, in acquisition
    /// order, leaving the registry empty. A frame handed out this way still
    /// references its surface until it is presented or dropped: the
    /// presentation engine rejects reconfiguring a surface whose frame is
    /// alive, a state this manager can no longer see once the registry is
    /// drained.
    pub fn take_live_frames(&mut self) -> (frames: Vec<LiveFrame<V, F>>)
        ensures
            frames@ == old(self).live_frame@,
            final(self).live_frame@.len() == 0,
            final(self).color_attachments == old(self).color_attachments,
            final(self).resolution == old(self).resolution,
            final(self).sample_count == old(self).sample_count,
            final(self).depth_stencil_format == old(self).depth_stencil_format,
            final(self).depth_stencil_view == old(self).depth_stencil_view,
            final(self).present_mode == old(self).present_mode,
            final(self).depth_store == old(self).depth_store,
            final(self).depth_load_op == old(self).depth_load_op,
            final(self).dirty == old(self).dirty,
    {
        let mut out: Vec<LiveFrame<V, F>> = Vec::new();
        core::mem::swap(&mut self.live_frame, &mut out);
        out
    }

    /// Assembles the render-pass descriptor plan for the current cycle: one
    /// color descriptor per attachment, in attachment order, and the
    /// depth-stencil descriptor when a depth view exists. The manager must
    /// be clean, with a frame registered per surface attachment.
    pub fn render_pass_plan(&self) -> (plan: RenderPassPlan)
        requires
            self.wf(),
            !self.dirty,
            self.live_frame@.len() == spec_surface_count(self.color_attachments@),
        ensures
            plan.color_attachments@ == self.spec_color_targets(),
            plan.depth_stencil == self.spec_depth_target(),
    {
        let n: usize = self.color_attachments.len();
        let mut colors: Vec<ColorTarget> = Vec::new();
        let mut k: usize = 0;
        let mut i: usize = 0;
        while i < n
            invariant
                n == self.color_attachments@.len(),
                i <= n,
                k == surface_index(self.color_attachments@, i as int),
                k <= i,
                colors@.len() == i,
                forall|j: int| 0 <= j < i ==> colors@[j] == #[trigger] self.spec_color_target(j),
                self.sample_count >= 1,
            decreases n - i,
        {
            let multisampled = self.sample_count > 1;
            let a = &self.color_attachments[i];
            let direct: ColorSource;
            let advance: bool;
            match &a.data {
                ColorAttachmentData::Surface { .. } => {
                    direct = ColorSource::FrameView(k);
                    advance = true;
                },
                ColorAttachmentData::Texture { .. } => {
                    direct = ColorSource::DirectView(i);
                    advance = false;
                },
            }
            if multisampled {
                colors.push(
                    ColorTarget {
                        view: ColorSource::MsaaView(i),
                        resolve_target: Some(direct),
                        clear_color: a.clear_color,
                        store: StorePolicy::Discard,
                    },
                );
            } else {
                colors.push(
                    ColorTarget {
                        view: direct,
                        resolve_target: None,
                        clear_color: a.clear_color,
                        store: StorePolicy::Store,
                    },
                );
            }
            if advance {
                k = k + 1;
            }
            i = i + 1;
        }
        proof {
            assert(colors@ =~= self.spec_color_targets());
        }
        let depth_stencil: Option<DepthTarget> = match &self.depth_stencil_view {
            Some(_) => Some(
                DepthTarget { depth_load: self.depth_load_op, depth_store: self.depth_store },
            ),
            None => None,
        };
        RenderPassPlan { color_attachments: colors, depth_stencil }
    }

    /// Assembles a render-pass descriptor plan with no color attachments at
    /// all: only the depth-stencil descriptor, when a depth view exists.
    pub fn begin_depth_pass(&self) -> (plan: RenderPassPlan)
        ensures
            plan.color_attachments@.len() == 0,
            plan.depth_stencil == self.spec_depth_target(),
    {
        let depth_stencil: Option<DepthTarget> = match &self.depth_stencil_view {
            Some(_) => Some(
                DepthTarget { depth_load: self.depth_load_op, depth_store: self.depth_store },
            ),
            None => None,
        };
        RenderPassPlan { color_attachments: Vec::new(), depth_stencil }
    }
}

/// Acquiring a presentable frame from a surface failed, for example because
/// the presentation engine timed out or the window's swapchain is outdated.
/// A recoverable condition: skip the frame and retry on the next tick.
#[derive(Debug)]
pub struct FrameAcquireError {
    pub cause: wgpu::SurfaceError,
}

/// The sample counts the device capability accepts for a texture: one, or a
/// power of two up to sixteen.
pub open spec fn valid_sample_count(n: u32) -> bool {
    n == 1 || n == 2 || n == 4 || n == 8 || n == 16
}

impl<S, T, V, F> Framebuffer<S, T, V, F> {
    /// How `configure` rebuilds one attachment: its declaration (kind,
    /// format, clear color, surface handle) is kept, a texture-backed
    /// attachment holds a fresh texture, and the allocated views match the
    /// kind and the sample count.
    pub open spec fn attachment_configured(
        pre: ColorAttachment<S, T, V>,
        post: ColorAttachment<S, T, V>,
        sample_count: u32,
    ) -> bool {
        &&& post.color_format == pre.color_format
        &&& post.clear_color == pre.clear_color
        &&& pre.data is Surface ==> post.data == pre.data
        &&& pre.data is Texture ==> post.data is Texture && post.data->color_texture is Some
        &&& post.configured matches Some(c) && (c.msaa_view is Some <==> sample_count > 1) && (
        c.direct_view is Some <==> pre.data is Texture)
    }

    /// What `configure` does: nothing at all when the manager is clean;
    /// otherwise it keeps the declared configuration and the acquired-frame
    /// registry (empty on entry), rebuilds every attachment's resources,
    /// allocates a depth-stencil view exactly when a depth format is
    /// declared, and leaves the manager clean.
    pub open spec fn configure_transition(pre: Self, post: Self) -> bool {
        &&& !post.dirty
        &&& !pre.dirty ==> post == pre
        &&& post.resolution == pre.resolution
        &&& post.sample_count == pre.sample_count
        &&& post.depth_stencil_format == pre.depth_stencil_format
        &&& post.live_frame@ == pre.live_frame@
        &&& post.present_mode == pre.present_mode
        &&& post.depth_store == pre.depth_store
        &&& post.depth_load_op == pre.depth_load_op
        &&& post.color_attachments@.len() == pre.color_attachments@.len()
        &&& forall|i: int|
            0 <= i < pre.color_attachments@.len() ==> Self::attachment_configured(
                pre.color_attachments@[i],
                #[trigger] post.color_attachments@[i],
                pre.sample_count,
            )
        &&& post.depth_stencil_view is Some <==> pre.depth_stencil_format is Some
    }

    /// The two managers agree on everything except the acquired-frame
    /// registry.
    pub open spec fn frames_only_changed(pre: Self, post: Self) -> bool {
        &&& post.resolution == pre.resolution
        &&& post.sample_count == pre.sample_count
        &&& post.color_attachments == pre.color_attachments
        &&& post.depth_stencil_format == pre.depth_stencil_format
        &&& post.depth_stencil_view == pre.depth_stencil_view
        &&& post.present_mode == pre.present_mode
        &&& post.depth_store == pre.depth_store
        &&& post.depth_load_op == pre.depth_load_op
        &&& post.dirty == pre.dirty
    }
}

impl Framebuffer<wgpu::Surface<'static>, wgpu::Texture, wgpu::TextureView, wgpu::SurfaceTexture> {
    /// (Re)creates all the resources for the declared configuration: a
    /// no-op while the manager is clean; otherwise every surface attachment
    /// is reconfigured at the declared resolution, format and present mode,
    /// every texture attachment gets a fresh texture and view, a
    /// multisample intermediate is allocated per attachment when the sample
    /// count is above one, and a depth-stencil view is allocated when a
    /// depth format is declared. Either the whole configuration is applied
    /// and the manager becomes clean, or (should the device capability
    /// fail) nothing externally visible changes and the manager stays
    /// dirty.
    ///
    /// Must not run while an acquired frame is unpresented: reconfiguring a
    /// surface whose frame is checked out is undefined behavior in the
    /// presentation engine. The device capability rejects empty extents and
    /// sample counts it does not support, so a dirty manager must declare a
    /// nonzero resolution (when it has anything to allocate) and a
    /// power-of-two sample count.
    pub fn configure(&mut self, device: &wgpu::Device)
        requires
            old(self).wf(),
            old(self).live_frame@.len() == 0,
            old(self).dirty && (old(self).color_attachments@.len() > 0 || old(
                self,
            ).depth_stencil_format is Some) ==> old(self).resolution.0 > 0 && old(
                self,
            ).resolution.1 > 0,
            old(self).dirty ==> valid_sample_count(old(self).sample_count),
        ensures
            final(self).wf(),
            Self::configure_transition(*old(self), *final(self)),
    {
        if !self.dirty {
            return;
        }
        let n: usize = self.color_attachments.len();
        let mut resources: Vec<AttachmentResources<wgpu::Texture, wgpu::TextureView>> =
            Vec::new();
        let mut i: usize = 0;
        while i < n
            invariant
                *self == *old(self),
                old(self).wf(),
                self.dirty,
                n == self.color_attachments@.len(),
                i <= n,
                resources@.len() == i,
                n > 0 ==> self.resolution.0 > 0 && self.resolution.1 > 0,
                valid_sample_count(self.sample_count),
                forall|j: int|
                    0 <= j < i ==> resources_match(
                        self.color_attachments@[j],
                        #[trigger] resources@[j],
                        self.sample_count,
                    ),
            decreases n - i,
        {
            let a = &self.color_attachments[i];
            let mut color_texture: Option<wgpu::Texture> = None;
            let mut direct_view: Option<wgpu::TextureView> = None;
            match &a.data {
                ColorAttachmentData::Surface { surface } => {
                    crate::gpu::configure_surface(
                        surface,
                        device,
                        self.resolution.0,
                        self.resolution.1,
                        a.color_format,
                        self.present_mode,
                    );
                },
                ColorAttachmentData::Texture { .. } => {
                    let texture = crate::gpu::create_render_texture(
                        device,
                        self.resolution.0,
                        self.resolution.1,
                        a.color_format,
                        1,
                        true,
                    );
                    direct_view = Some(crate::gpu::create_texture_view(&texture));
                    color_texture = Some(texture);
                },
            }
            let msaa_view: Option<wgpu::TextureView> = if self.sample_count > 1 {
                let msaa_texture = crate::gpu::create_render_texture(
                    device,
                    self.resolution.0,
                    self.resolution.1,
                    a.color_format,
                    self.sample_count,
                    false,
                );
                Some(crate::gpu::create_texture_view(&msaa_texture))
            } else {
                None
            };
            resources.push(AttachmentResources { color_texture, direct_view, msaa_view });
            i = i + 1;
        }
        let depth_view: Option<wgpu::TextureView> = match &self.depth_stencil_format {
            Some(depth_format) => {
                let depth_texture = crate::gpu::create_render_texture(
                    device,
                    self.resolution.0,
                    self.resolution.1,
                    *depth_format,
                    self.sample_count,
                    false,
                );
                Some(crate::gpu::create_texture_view(&depth_texture))
            },
            None => None,
        };
        self.apply_configuration(resources, depth_view);
    }

    /// Begins a render cycle: acquires a presentable frame from every
    /// surface attachment, in attachment order, records them in the
    /// live-frame registry, and assembles the render-pass descriptor plan.
    /// The caller binds the plan to a command encoder, submits the
    /// recorded commands, and then calls `present`.
    ///
    /// The manager must be clean (`configure` has run since the last
    /// configuration change) and must hold no unpresented frame. When the
    /// presentation engine cannot hand out a frame, the error is returned,
    /// any frames already acquired this cycle are released, and the manager
    /// is unchanged: the caller may simply retry on the next tick.
    pub fn begin_render_pass(&mut self) -> (r: Result<RenderPassPlan, FrameAcquireError>)
        requires
            old(self).wf(),
            !old(self).dirty,
            old(self).live_frame@.len() == 0,
        ensures
            final(self).wf(),
            r matches Ok(plan) ==> {
                &&& Self::frames_only_changed(*old(self), *final(self))
                &&& final(self).live_frame@.len() == spec_surface_count(
                    old(self).color_attachments@,
                )
                &&& plan.color_attachments@ == final(self).spec_color_targets()
                &&& plan.depth_stencil == final(self).spec_depth_target()
            },
            r is Err ==> *final(self) == *old(self),
            spec_surface_count(old(self).color_attachments@) == 0 ==> r is Ok,
    {
        let n: usize = self.color_attachments.len();
        let mut frames: Vec<LiveFrame<wgpu::TextureView, wgpu::SurfaceTexture>> = Vec::new();
        let mut i: usize = 0;
        while i < n
            invariant
                *self == *old(self),
                old(self).wf(),
                !self.dirty,
                self.live_frame@.len() == 0,
                n == self.color_attachments@.len(),
                i <= n,
                frames@.len() == surface_index(self.color_attachments@, i as int),
            decreases n - i,
        {
            match &self.color_attachments[i].data {
                ColorAttachmentData::Surface { surface } => {
                    match crate::gpu::acquire_frame(surface) {
                        Ok(frame) => {
                            let view = crate::gpu::surface_frame_view(&frame);
                            frames.push(LiveFrame { view, frame });
                        },
                        Err(cause) => {
                            proof {
                                lemma_surface_index_monotone(self.color_attachments@, 0, i as int);
                                lemma_surface_index_monotone(
                                    self.color_attachments@,
                                    i + 1,
                                    n as int,
                                );
                            }
                            return Err(FrameAcquireError { cause });
                        },
                    }
                },
                ColorAttachmentData::Texture { .. } => {},
            }
            i = i + 1;
        }
        self.register_frames(frames);
        Ok(self.render_pass_plan())
    }

    /// Presents every acquired frame of this render cycle to its surface,
    /// in acquisition order, and empties the live-frame registry. Must be
    /// called after the command buffer using the render pass has been
    /// submitted, and before the next `begin_render_pass`; calling it with
    /// no live frame is a contract violation.
    pub fn present(&mut self)
        requires
            old(self).live_frame@.len() > 0,
        ensures
            final(self).live_frame@.len() == 0,
            Self::frames_only_changed(*old(self), *final(self)),
            old(self).wf() ==> final(self).wf(),
    {
        let mut frames = self.take_live_frames();
        while frames.len() > 0
            invariant
                Self::frames_only_changed(*old(self), *self),
                self.live_frame@.len() == 0,
            decreases frames@.len(),
        {
            let f = frames.remove(0);
            crate::gpu::present_frame(f.frame);
        }
    }
}

impl<S, T, V, F> Default for Framebuffer<S, T, V, F> {
    /// Same as `Framebuffer::new`.
    fn default() -> (fb: Self)
        ensures
            fb.wf(),
            fb.dirty,
            fb.color_attachments@.len() == 0,
            fb.live_frame@.len() == 0,
            fb.resolution == (0u32, 0u32),
            fb.sample_count == 1,
            fb.depth_stencil_format is None,
            fb.depth_stencil_view is None,
            fb.depth_store == StorePolicy::Discard,
            fb.depth_load_op == DepthLoad::Clear(DEPTH_CLEAR_FAR_BITS),
    {
        Framebuffer::new()
    }
}

} // verus!
