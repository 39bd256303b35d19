//! The renderer's frame state: the configured surface size and whether the
//! picture on screen is stale.
//!
//! Every operation of the renderer that changes what would be drawn marks the
//! state as needing an update; a frame is only drawn while it is marked, and a
//! presented frame clears the mark.

use vstd::prelude::*;

verus! {

/// The abstract state: the surface size and the "needs update" mark.
pub struct RenderStateView {
    pub width: u32,
    pub height: u32,
    pub needs_update: bool,
}

/// What a call of [`RenderState::render`] asks the GPU side to do.
#[derive(PartialEq, Eq, Structural, Debug, Clone, Copy)]
pub enum FramePlan {
    /// Nothing changed, or there is nothing to draw: present nothing.
    Skip,
    /// Update the camera for a `width` x `height` target, draw and present.
    Draw { width: u32, height: u32 },
}

/// The surface size and the staleness mark of a renderer.
pub struct RenderState {
    width: u32,
    height: u32,
    needs_update: bool,
}

/// The surface size is never zero.
pub open spec fn state_inv(v: RenderStateView) -> bool {
    v.width >= 1 && v.height >= 1
}

/// The state with the "needs update" mark set.
pub open spec fn marked(v: RenderStateView) -> RenderStateView {
    RenderStateView { needs_update: true, ..v }
}

/// The state after a frame was presented.
pub open spec fn presented(v: RenderStateView) -> RenderStateView {
    RenderStateView { needs_update: false, ..v }
}

/// The state after a resize request: a request with a zero dimension is ignored.
pub open spec fn resized(v: RenderStateView, new_width: u32, new_height: u32) -> RenderStateView {
    if new_width > 0 && new_height > 0 {
        RenderStateView { width: new_width, height: new_height, needs_update: true }
    } else {
        v
    }
}

/// The state after an update that only applies when `applies` holds.
pub open spec fn marked_if(v: RenderStateView, applies: bool) -> RenderStateView {
    if applies {
        marked(v)
    } else {
        v
    }
}

/// What a render request does in state `v`.
pub open spec fn frame_plan(v: RenderStateView, has_viewer: bool, has_camera: bool) -> FramePlan {
    if v.needs_update && has_viewer && has_camera {
        FramePlan::Draw { width: v.width, height: v.height }
    } else {
        FramePlan::Skip
    }
}

/// The larger of `x` and 1.
pub open spec fn at_least_one(x: u32) -> u32 {
    if x == 0 {
        1
    } else {
        x
    }
}

impl View for RenderState {
    type V = RenderStateView;

    closed spec fn view(&self) -> RenderStateView {
        RenderStateView { width: self.width, height: self.height, needs_update: self.needs_update }
    }
}

impl RenderState {
    #[verifier::type_invariant]
    closed spec fn wf(self) -> bool {
        state_inv(self@)
    }

    /// A new state for a surface configured from the canvas size: a zero
    /// dimension is raised to 1, and the first frame has to be drawn.
    pub fn new(canvas_width: u32, canvas_height: u32) -> (s: Self)
        ensures
            s@ == (RenderStateView {
                width: at_least_one(canvas_width),
                height: at_least_one(canvas_height),
                needs_update: true,
            }),
            state_inv(s@),
    {
        let width = if canvas_width == 0 { 1 } else { canvas_width };
        let height = if canvas_height == 0 { 1 } else { canvas_height };
        RenderState { width, height, needs_update: true }
    }

    /// Resize the surface. A request with a zero dimension is ignored;
    /// otherwise the surface has to be reconfigured at the new size and the
    /// picture redrawn. Returns whether the surface has to be reconfigured.
    pub fn resize(&mut self, new_width: u32, new_height: u32) -> (reconfigure: bool)
        ensures
            reconfigure == (new_width > 0 && new_height > 0),
            final(self)@ == resized(old(self)@, new_width, new_height),
            state_inv(final(self)@),
    {
        proof {
            use_type_invariant(&*self);
        }
        if new_width > 0 && new_height > 0 {
            self.width = new_width;
            self.height = new_height;
            self.needs_update = true;
            true
        } else {
            false
        }
    }

    /// Record that a model was loaded (its viewer and camera exist now): the
    /// picture has to be redrawn.
    pub fn load_model(&mut self)
        ensures
            final(self)@ == marked(old(self)@),
            state_inv(final(self)@),
    {
        proof {
            use_type_invariant(&*self);
        }
        self.needs_update = true;
    }

    /// Decide what a render request does: draw only when the picture is stale
    /// and both a viewer and a camera exist.
    pub fn render(&self, has_viewer: bool, has_camera: bool) -> (plan: FramePlan)
        ensures
            plan == frame_plan(self@, has_viewer, has_camera),
    {
        if !self.needs_update {
            return FramePlan::Skip;
        }
        if has_viewer && has_camera {
            FramePlan::Draw { width: self.width, height: self.height }
        } else {
            FramePlan::Skip
        }
    }

    /// Record that a drawn frame was presented: the picture is up to date.
    pub fn frame_presented(&mut self)
        ensures
            final(self)@ == presented(old(self)@),
            state_inv(final(self)@),
    {
        proof {
            use_type_invariant(&*self);
        }
        self.needs_update = false;
    }

    /// A camera movement applies only when a camera exists; it then marks the
    /// picture stale. Returns whether the movement applies.
    pub fn move_camera(&mut self, has_camera: bool) -> (applies: bool)
        ensures
            applies == has_camera,
            final(self)@ == marked_if(old(self)@, applies),
            state_inv(final(self)@),
    {
        self.mark_if(has_camera)
    }

    /// A camera pose update that is ignored when the pose has not `moved`
    /// beyond the thresholds; otherwise it applies when a camera exists.
    /// Returns whether the pose is applied (and remembered as the last pose).
    pub fn set_camera_with_threshold(&mut self, moved: bool, has_camera: bool) -> (applies: bool)
        ensures
            applies == (moved && has_camera),
            final(self)@ == marked_if(old(self)@, applies),
            state_inv(final(self)@),
    {
        self.mark_if(moved && has_camera)
    }

    /// A camera pose update without threshold: applies when a camera exists.
    pub fn set_camera(&mut self, has_camera: bool) -> (applies: bool)
        ensures
            applies == has_camera,
            final(self)@ == marked_if(old(self)@, applies),
            state_inv(final(self)@),
    {
        self.mark_if(has_camera)
    }

    /// A model transform update: applies when a viewer exists.
    pub fn set_model_transform(&mut self, has_viewer: bool) -> (applies: bool)
        ensures
            applies == has_viewer,
            final(self)@ == marked_if(old(self)@, applies),
            state_inv(final(self)@),
    {
        self.mark_if(has_viewer)
    }

    /// New stereo camera matrices always mark the picture stale.
    pub fn set_stereo_cameras(&mut self)
        ensures
            final(self)@ == marked(old(self)@),
            state_inv(final(self)@),
    {
        proof {
            use_type_invariant(&*self);
        }
        self.needs_update = true;
    }

    /// The configured surface width.
    pub fn width(&self) -> (w: u32)
        ensures
            w == self@.width,
            w >= 1,
    {
        proof {
            use_type_invariant(self);
        }
        self.width
    }

    /// The configured surface height.
    pub fn height(&self) -> (h: u32)
        ensures
            h == self@.height,
            h >= 1,
    {
        proof {
            use_type_invariant(self);
        }
        self.height
    }

    /// Whether the picture on screen is stale.
    pub fn needs_update(&self) -> (b: bool)
        ensures
            b == self@.needs_update,
    {
        self.needs_update
    }

    fn mark_if(&mut self, applies: bool) -> (r: bool)
        ensures
            r == applies,
            final(self)@ == marked_if(old(self)@, applies),
            state_inv(final(self)@),
    {
        proof {
            use_type_invariant(&*self);
        }
        if applies {
            self.needs_update = true;
        }
        applies
    }
}

/// A new state keeps a positive canvas dimension as it is and raises a zero
/// one to 1; the first frame is always due.
pub proof fn lemma_new_state_size(canvas_width: u32, canvas_height: u32)
    ensures
        canvas_width >= 1 ==> at_least_one(canvas_width) == canvas_width,
        canvas_height >= 1 ==> at_least_one(canvas_height) == canvas_height,
        at_least_one(0) == 1,
        at_least_one(canvas_width) >= 1,
        at_least_one(canvas_width) >= canvas_width,
        frame_plan(
            RenderStateView {
                width: at_least_one(canvas_width),
                height: at_least_one(canvas_height),
                needs_update: true,
            },
            true,
            true,
        ) == (FramePlan::Draw {
            width: at_least_one(canvas_width),
            height: at_least_one(canvas_height),
        }),
{
}

/// An update that applies (a camera movement or pose with a camera, a model
/// transform with a viewer) leaves the surface size alone and the picture
/// stale, whatever it was before, so the next render request with a viewer
/// and a camera draws at the unchanged size. One that does not apply changes
/// nothing.
pub proof fn lemma_applied_update_is_drawn(v: RenderStateView, applies: bool)
    ensures
        marked_if(v, applies).width == v.width,
        marked_if(v, applies).height == v.height,
        marked_if(v, applies).needs_update == (applies || v.needs_update),
        applies ==> marked_if(v, applies).needs_update,
        applies ==> frame_plan(marked_if(v, applies), true, true) == (FramePlan::Draw {
            width: v.width,
            height: v.height,
        }),
        marked(v).width == v.width && marked(v).height == v.height && marked(v).needs_update,
        marked_if(marked_if(v, applies), applies) == marked_if(v, applies),
{
}

/// A render request draws exactly when the picture is stale and both a
/// viewer and a camera exist, and then at the surface size; a presented frame
/// keeps the surface size and clears the mark.
pub proof fn lemma_frame_plan(v: RenderStateView, has_viewer: bool, has_camera: bool)
    ensures
        (frame_plan(v, has_viewer, has_camera) == FramePlan::Skip) <==> !(v.needs_update
            && has_viewer && has_camera),
        (v.needs_update && has_viewer && has_camera) ==> frame_plan(v, has_viewer, has_camera)
            == (FramePlan::Draw { width: v.width, height: v.height }),
        presented(v).width == v.width && presented(v).height == v.height
            && !presented(v).needs_update,
{
}

/// Every operation keeps the surface size positive.
pub proof fn lemma_operations_keep_size_positive(v: RenderStateView, w: u32, h: u32, applies: bool)
    requires
        state_inv(v),
    ensures
        state_inv(resized(v, w, h)),
        state_inv(marked(v)),
        state_inv(marked_if(v, applies)),
        state_inv(presented(v)),
{
}

/// A frame is drawn only while the picture is stale and both a viewer and a
/// camera exist, and it is drawn at the configured surface size.
pub proof fn lemma_draw_only_when_stale(v: RenderStateView, has_viewer: bool, has_camera: bool)
    ensures
        frame_plan(v, has_viewer, has_camera) != FramePlan::Skip ==> {
            &&& v.needs_update
            &&& has_viewer
            &&& has_camera
            &&& frame_plan(v, has_viewer, has_camera) == (FramePlan::Draw {
                width: v.width,
                height: v.height,
            })
        },
{
}

/// Once a frame was presented, further render requests draw nothing until
/// something changes.
pub proof fn lemma_presented_frame_not_redrawn(
    v: RenderStateView,
    has_viewer: bool,
    has_camera: bool,
)
    ensures
        frame_plan(presented(v), has_viewer, has_camera) == FramePlan::Skip,
        presented(presented(v)) == presented(v),
{
}

/// Any change that marks the picture stale makes the next render request draw
/// at the current surface size, as soon as a viewer and a camera exist.
pub proof fn lemma_change_forces_redraw(v: RenderStateView)
    ensures
        frame_plan(marked(v), true, true) == (FramePlan::Draw { width: v.width, height: v.height }),
        frame_plan(presented(marked(v)), true, true) == FramePlan::Skip,
{
}

/// A resize with a zero dimension changes nothing; any other resize makes the
/// next frame be drawn at the new size.
pub proof fn lemma_resize(v: RenderStateView, w: u32, h: u32)
    ensures
        (w == 0 || h == 0) ==> resized(v, w, h) == v,
        (w > 0 && h > 0) ==> resized(v, w, h).width == w && resized(v, w, h).height == h
            && resized(v, w, h).needs_update,
        (w > 0 && h > 0) ==> frame_plan(resized(v, w, h), true, true) == (FramePlan::Draw {
            width: w,
            height: h,
        }),
{
}

/// An update that does not apply (no camera, no viewer, or a pose within the
/// thresholds) leaves the state as it was.
pub proof fn lemma_inapplicable_update_changes_nothing(v: RenderStateView)
    ensures
        marked_if(v, false) == v,
{
}

} // verus!
