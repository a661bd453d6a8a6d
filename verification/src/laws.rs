//! Laws of the manager's lifecycle, stated over the spec-level transitions
//! that the executable functions' contracts establish.

use vstd::prelude::*;

use crate::framebuffer::ColorSource;
use crate::framebuffer::Framebuffer;
use crate::framebuffer::LiveFrame;
use crate::framebuffer::StorePolicy;

verus! {

/// `configure` is idempotent when the manager is clean: a configure run
/// leaves the manager clean, and a configure run on a clean manager changes
/// nothing, so of two consecutive runs with no setter in between only the
/// first performs any work.
pub proof fn lemma_configure_idempotent<S, T, V, F>(
    pre: Framebuffer<S, T, V, F>,
    mid: Framebuffer<S, T, V, F>,
    post: Framebuffer<S, T, V, F>,
)
    requires
        Framebuffer::configure_transition(pre, mid),
        Framebuffer::configure_transition(mid, post),
    ensures
        post == mid,
{
}

/// After `configure`, the offscreen texture of an attachment is available
/// exactly for texture-backed attachments, and the externally visible
/// attachment view is available for every texture-backed attachment and,
/// under multisampling, for every attachment. (A surface-backed attachment
/// without multisampling has no persistent view of its own: its render
/// target only exists per acquired frame.)
pub proof fn lemma_views_after_configure<S, T, V, F>(
    pre: Framebuffer<S, T, V, F>,
    post: Framebuffer<S, T, V, F>,
)
    requires
        pre.wf(),
        Framebuffer::configure_transition(pre, post),
    ensures
        forall|i: int|
            0 <= i < post.color_attachments@.len() ==> (post.spec_attachment_texture(i) is Some
                <==> (#[trigger] post.color_attachments@[i]).data is Texture),
        forall|i: int|
            0 <= i < post.color_attachments@.len() && ((
            #[trigger] post.color_attachments@[i]).data is Texture || post.sample_count > 1)
                ==> post.spec_attachment_view(i) is Some,
{
    assert forall|i: int| 0 <= i < post.color_attachments@.len() implies (
    post.spec_attachment_texture(i) is Some <==> (
    #[trigger] post.color_attachments@[i]).data is Texture) by {
        if pre.dirty {
            assert(Framebuffer::<S, T, V, F>::attachment_configured(
                pre.color_attachments@[i],
                post.color_attachments@[i],
                pre.sample_count,
            ));
        } else {
            assert(post.color_attachments@[i].views_wf(post.sample_count));
            assert(post.color_attachments@[i].configured is Some);
        }
    }
    assert forall|i: int|
        0 <= i < post.color_attachments@.len() && ((
        #[trigger] post.color_attachments@[i]).data is Texture || post.sample_count > 1) implies
        post.spec_attachment_view(i) is Some by {
        if pre.dirty {
            assert(Framebuffer::<S, T, V, F>::attachment_configured(
                pre.color_attachments@[i],
                post.color_attachments@[i],
                pre.sample_count,
            ));
        } else {
            assert(post.color_attachments@[i].views_wf(post.sample_count));
            assert(post.color_attachments@[i].configured is Some);
        }
    }
}

/// The resolve-and-store rule of every color descriptor the manager builds:
/// without multisampling a descriptor has no resolve target and stores its
/// attachment; with multisampling it writes the multisample view, resolves
/// into the final image, and discards the multisample attachment, whose
/// contents no longer matter after the resolve.
pub proof fn lemma_color_targets_resolve_policy<S, T, V, F>(fb: Framebuffer<S, T, V, F>)
    ensures
        fb.sample_count == 1 ==> forall|i: int|
            0 <= i < fb.spec_color_targets().len() ==> (#[trigger] fb.spec_color_targets()[i])
                .resolve_target is None && fb.spec_color_targets()[i].store == StorePolicy::Store,
        fb.sample_count > 1 ==> forall|i: int|
            0 <= i < fb.spec_color_targets().len() ==> (#[trigger] fb.spec_color_targets()[i])
                .resolve_target is Some && fb.spec_color_targets()[i].store
                == StorePolicy::Discard && fb.spec_color_targets()[i].view == ColorSource::MsaaView(
                i as usize,
            ),
{
}

/// `present` drains exactly the frames that the preceding render cycle
/// acquired, in acquisition order, and afterwards no frame awaits
/// presentation: registering the cycle's frames into an empty registry and
/// then draining the registry hands back those very frames.
pub proof fn lemma_present_drains_registered<S, T, V, F>(
    pre: Framebuffer<S, T, V, F>,
    mid: Framebuffer<S, T, V, F>,
    post: Framebuffer<S, T, V, F>,
    frames: Seq<LiveFrame<V, F>>,
    drained: Seq<LiveFrame<V, F>>,
)
    requires
        pre.live_frame@.len() == 0,
        Framebuffer::frames_only_changed(pre, mid),
        mid.live_frame@ == frames,
        Framebuffer::frames_only_changed(mid, post),
        drained == mid.live_frame@,
        post.live_frame@.len() == 0,
    ensures
        drained == frames,
        post.live_frame@.len() == 0,
{
}

} // verus!
