use vstd::prelude::*;

verus! {

/// The uniforms of one ray-march pass: the view and projection that the
/// pass renders from, the reference pair that it compares against, and
/// whether it samples the captured frame.
#[derive(Clone, Copy, Debug)]
pub struct FrameUniforms<M> {
    pub view: M,
    pub proj: M,
    pub prev_view: M,
    pub prev_proj: M,
    pub show_texture: bool,
}

/// The uniforms of a plain render from `(view, proj)`: the reference pair
/// is the current one and the captured frame is not shown.
pub open spec fn plain_uniforms<M>(view: M, proj: M) -> FrameUniforms<M> {
    FrameUniforms { view, proj, prev_view: view, prev_proj: proj, show_texture: false }
}

/// The abstract state of the freeze toggle: whether rendering is frozen,
/// and the reference view/projection pair.
pub struct FreezeModel<M> {
    pub frozen: bool,
    pub prev_view: M,
    pub prev_proj: M,
}

impl<M> FreezeModel<M> {
    /// The state after the toggle action, with the camera at `(view, proj)`:
    /// entering the frozen state captures that pair; leaving it keeps the
    /// pair, which is no longer read.
    pub open spec fn toggled(self, view: M, proj: M) -> FreezeModel<M> {
        if self.frozen {
            FreezeModel { frozen: false, prev_view: self.prev_view, prev_proj: self.prev_proj }
        } else {
            FreezeModel { frozen: true, prev_view: view, prev_proj: proj }
        }
    }

    /// The state after one frame rendered with the camera at `(view, proj)`:
    /// live rendering tracks the camera, frozen rendering holds the pair.
    pub open spec fn after_frame(self, view: M, proj: M) -> FreezeModel<M> {
        if self.frozen {
            self
        } else {
            FreezeModel { frozen: false, prev_view: view, prev_proj: proj }
        }
    }

    /// The uniforms of a frame rendered with the camera at `(view, proj)`.
    pub open spec fn uniforms(self, view: M, proj: M) -> FrameUniforms<M> {
        if self.frozen {
            FrameUniforms {
                view,
                proj,
                prev_view: self.prev_view,
                prev_proj: self.prev_proj,
                show_texture: true,
            }
        } else {
            plain_uniforms(view, proj)
        }
    }
}

/// The state after rendering one frame from each camera pair of `frames`.
pub open spec fn run_frames<M>(m: FreezeModel<M>, frames: Seq<(M, M)>) -> FreezeModel<M>
    decreases frames.len(),
{
    if frames.len() == 0 {
        m
    } else {
        run_frames(m.after_frame(frames[0].0, frames[0].1), frames.drop_first())
    }
}

/// Sequences the live and frozen modes of rendering. It holds the
/// reference view/projection pair, which is written only while live and at
/// the instant of freezing.
pub struct RenderCoordinator<M> {
    frozen: bool,
    prev_view: M,
    prev_proj: M,
}

impl<M> View for RenderCoordinator<M> {
    type V = FreezeModel<M>;

    closed spec fn view(&self) -> FreezeModel<M> {
        FreezeModel { frozen: self.frozen, prev_view: self.prev_view, prev_proj: self.prev_proj }
    }
}

/// The uniforms of a plain render from `(view, proj)`, as used for the
/// capture into the cached frame.
pub fn capture_uniforms<M: Copy>(view: M, proj: M) -> (r: FrameUniforms<M>)
    ensures
        r == plain_uniforms(view, proj),
{
    FrameUniforms { view, proj, prev_view: view, prev_proj: proj, show_texture: false }
}

impl<M: Copy> RenderCoordinator<M> {
    /// Live rendering, with the camera now at `(view, proj)`.
    pub fn new(view: M, proj: M) -> (r: RenderCoordinator<M>)
        ensures
            r@ == (FreezeModel { frozen: false, prev_view: view, prev_proj: proj }),
    {
        RenderCoordinator { frozen: false, prev_view: view, prev_proj: proj }
    }

    pub fn is_frozen(&self) -> (r: bool)
        ensures
            r == self@.frozen,
    {
        self.frozen
    }

    /// The reference view/projection pair.
    pub fn reference(&self) -> (r: (M, M))
        ensures
            r == (self@.prev_view, self@.prev_proj),
    {
        (self.prev_view, self.prev_proj)
    }

    /// The toggle action with the camera at `(view, proj)`. On entering the
    /// frozen state it returns the uniforms of the one capture pass to draw
    /// into the cached frame; on leaving it, `None`.
    pub fn toggle(&mut self, view: M, proj: M) -> (r: Option<FrameUniforms<M>>)
        ensures
            final(self)@ == old(self)@.toggled(view, proj),
            r == if old(self)@.frozen {
                None
            } else {
                Some(plain_uniforms(view, proj))
            },
    {
        if self.frozen {
            self.frozen = false;
            None
        } else {
            self.frozen = true;
            self.prev_view = view;
            self.prev_proj = proj;
            Some(capture_uniforms(view, proj))
        }
    }

    /// The uniforms of this frame's pass with the camera at `(view, proj)`;
    /// while live the reference pair follows the camera.
    pub fn frame(&mut self, view: M, proj: M) -> (r: FrameUniforms<M>)
        ensures
            r == old(self)@.uniforms(view, proj),
            final(self)@ == old(self)@.after_frame(view, proj),
    {
        if self.frozen {
            FrameUniforms {
                view,
                proj,
                prev_view: self.prev_view,
                prev_proj: self.prev_proj,
                show_texture: true,
            }
        } else {
            self.prev_view = view;
            self.prev_proj = proj;
            capture_uniforms(view, proj)
        }
    }
}

/// Frames rendered while frozen leave the state, and so the reference
/// pair, as it was.
pub proof fn lemma_frozen_frames_hold<M>(m: FreezeModel<M>, frames: Seq<(M, M)>)
    requires
        m.frozen,
    ensures
        run_frames(m, frames) == m,
    decreases frames.len(),
{
    if frames.len() > 0 {
        lemma_frozen_frames_hold(m, frames.drop_first());
    }
}

/// Freezing with the camera at `(view, proj)` pins the reference pair:
/// whatever the camera does in the frames that follow, each frozen frame
/// compares against exactly that pair.
pub proof fn lemma_capture_pins_reference<M>(
    m: FreezeModel<M>,
    view: M,
    proj: M,
    frames: Seq<(M, M)>,
    now_view: M,
    now_proj: M,
)
    requires
        !m.frozen,
    ensures
        run_frames(m.toggled(view, proj), frames).uniforms(now_view, now_proj) == (FrameUniforms {
            view: now_view,
            proj: now_proj,
            prev_view: view,
            prev_proj: proj,
            show_texture: true,
        }),
{
    lemma_frozen_frames_hold(m.toggled(view, proj), frames);
}

/// Freezing a second time captures the camera as it is at that second
/// transition; nothing of the first capture remains.
pub proof fn lemma_refreeze_captures_anew<M>(
    m: FreezeModel<M>,
    first: (M, M),
    frozen_frames: Seq<(M, M)>,
    unfreeze: (M, M),
    live_frames: Seq<(M, M)>,
    second: (M, M),
)
    requires
        !m.frozen,
    ensures
        run_frames(
            run_frames(m.toggled(first.0, first.1), frozen_frames).toggled(unfreeze.0, unfreeze.1),
            live_frames,
        ).toggled(second.0, second.1) == (FreezeModel {
            frozen: true,
            prev_view: second.0,
            prev_proj: second.1,
        }),
{
    let m1 = m.toggled(first.0, first.1);
    lemma_frozen_frames_hold(m1, frozen_frames);
    lemma_live_frames_stay_live(m1.toggled(unfreeze.0, unfreeze.1), live_frames);
}

/// Frames rendered while live keep the state live.
pub proof fn lemma_live_frames_stay_live<M>(m: FreezeModel<M>, frames: Seq<(M, M)>)
    requires
        !m.frozen,
    ensures
        !run_frames(m, frames).frozen,
    decreases frames.len(),
{
    if frames.len() > 0 {
        lemma_live_frames_stay_live(m.after_frame(frames[0].0, frames[0].1), frames.drop_first());
    }
}

} // verus!
