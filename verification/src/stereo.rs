//! Side-by-side stereo frames: both eyes are drawn into one offscreen texture
//! of half the surface width, which is copied into the left and the right
//! half of the surface in turn.

use vstd::prelude::*;

use crate::render_state::{RenderState, RenderStateView};

verus! {

/// Where the two eye images of a stereo frame go.
#[derive(PartialEq, Eq, Structural, Debug, Clone, Copy)]
pub struct StereoLayout {
    /// Width of each eye image, and of the offscreen texture.
    pub eye_width: u32,
    /// Height of each eye image, and of the offscreen texture.
    pub eye_height: u32,
    /// Whether the offscreen texture has to be (re)created at the eye size.
    pub recreate_offscreen: bool,
    /// Horizontal offset of the left eye image in the surface.
    pub left_origin_x: u32,
    /// Horizontal offset of the right eye image in the surface.
    pub right_origin_x: u32,
}

/// What a stereo render request asks the GPU side to do.
#[derive(PartialEq, Eq, Structural, Debug, Clone, Copy)]
pub enum StereoPlan {
    /// Nothing changed, or there is no viewer: present nothing.
    Skip,
    /// Draw both eyes as laid out, copy them into the surface and present.
    Draw(StereoLayout),
}

/// The layout of a stereo frame for surface state `v`, given the size of the
/// offscreen texture kept from an earlier frame, if any.
pub open spec fn stereo_layout(v: RenderStateView, offscreen: Option<(u32, u32)>) -> StereoLayout {
    let half_width = (v.width / 2) as u32;
    StereoLayout {
        eye_width: half_width,
        eye_height: v.height,
        recreate_offscreen: offscreen != Some((half_width, v.height)),
        left_origin_x: 0,
        right_origin_x: half_width,
    }
}

/// What a stereo render request does in state `v`.
pub open spec fn stereo_plan(v: RenderStateView, has_viewer: bool, offscreen: Option<(u32, u32)>) -> StereoPlan {
    if v.needs_update && has_viewer {
        StereoPlan::Draw(stereo_layout(v, offscreen))
    } else {
        StereoPlan::Skip
    }
}

impl RenderState {
    /// Decide what a stereo render request does: draw only when the picture
    /// is stale and a viewer exists. `offscreen` is the size of the offscreen
    /// texture kept from an earlier stereo frame, if there is one.
    pub fn render_stereo(&self, has_viewer: bool, offscreen: Option<(u32, u32)>) -> (plan: StereoPlan)
        ensures
            plan == stereo_plan(self@, has_viewer, offscreen),
    {
        if !self.needs_update() {
            return StereoPlan::Skip;
        }
        if !has_viewer {
            return StereoPlan::Skip;
        }
        let half_width = self.width() / 2;
        let height = self.height();
        let recreate_offscreen = match offscreen {
            None => true,
            Some((w, h)) => w != half_width || h != height,
        };
        StereoPlan::Draw(
            StereoLayout {
                eye_width: half_width,
                eye_height: height,
                recreate_offscreen,
                left_origin_x: 0,
                right_origin_x: half_width,
            },
        )
    }
}

/// A stereo request draws exactly when the picture is stale and a viewer
/// exists. Each eye is then half the surface width (rounded down) by the
/// surface height; the left eye is copied to the left edge and the right eye
/// right after it, the two images do not overlap and both lie inside the
/// surface; and the offscreen texture is recreated exactly when there is none
/// or its width or its height differs from the eye size.
pub proof fn lemma_stereo_frame(v: RenderStateView, has_viewer: bool, offscreen: Option<(u32, u32)>)
    ensures
        (stereo_plan(v, has_viewer, offscreen) == StereoPlan::Skip) <==> !(v.needs_update
            && has_viewer),
        (v.needs_update && has_viewer) ==> (stereo_plan(v, has_viewer, offscreen) matches StereoPlan::Draw(l)
            && {
            &&& l.eye_width == v.width / 2
            &&& l.eye_height == v.height
            &&& l.left_origin_x == 0
            &&& l.right_origin_x == v.width / 2
            &&& l.left_origin_x + l.eye_width <= l.right_origin_x
            &&& l.right_origin_x + l.eye_width <= v.width
            &&& (l.recreate_offscreen <==> match offscreen {
                None => true,
                Some((w, h)) => w != v.width / 2 || h != v.height,
            })
        }),
{
}

/// A stereo frame that keeps the offscreen texture it made for the eye size
/// does not recreate it on the next stereo frame of the same surface.
pub proof fn lemma_stereo_offscreen_kept(v: RenderStateView)
    requires
        v.needs_update,
    ensures
        stereo_plan(v, true, Some(((v.width / 2) as u32, v.height))) matches StereoPlan::Draw(l)
            && !l.recreate_offscreen,
        stereo_plan(v, true, None) matches StereoPlan::Draw(l) && l.recreate_offscreen,
{
}

/// The two eye images do not overlap, both lie inside the surface, and both
/// have the size of the offscreen texture they are copied from.
pub proof fn lemma_eyes_disjoint_inside_surface(v: RenderStateView, offscreen: Option<(u32, u32)>)
    ensures
        ({
            let l = stereo_layout(v, offscreen);
            &&& l.left_origin_x + l.eye_width <= l.right_origin_x
            &&& l.right_origin_x + l.eye_width <= v.width
            &&& l.eye_height == v.height
            &&& 2 * l.eye_width <= v.width <= 2 * l.eye_width + 1
        }),
{
}

/// The offscreen texture is recreated exactly when there is none or its size
/// differs from the eye size; once created at the eye size it is reused by
/// every later stereo frame of the same surface size.
pub proof fn lemma_offscreen_reused(v: RenderStateView, offscreen: Option<(u32, u32)>)
    ensures
        stereo_layout(v, offscreen).recreate_offscreen <==> (offscreen is None || offscreen
            != Some((stereo_layout(v, offscreen).eye_width, stereo_layout(v, offscreen).eye_height))),
        ({
            let l = stereo_layout(v, offscreen);
            !stereo_layout(v, Some((l.eye_width, l.eye_height))).recreate_offscreen
        }),
{
}

} // verus!
