//! Panel input state: an accumulated drag offset and a zoom level.
//!
//! The offset is stored in ticks of one hundredth of a logical unit: a drag
//! of `d` screen units moves the offset by `d` ticks, which is the
//! `d * 0.01` logical units the panel applies per frame. The zoom level is
//! an unsigned counter; a decrement at zero wraps around to `u32::MAX`,
//! which the contracts state explicitly rather than hide.

use vstd::prelude::*;

verus! {

/// Number of stored offset ticks in one logical unit of drag offset.
pub const OFFSET_TICKS_PER_UNIT: i64 = 100;

/// The state a frame's paint call is parameterized by.
pub struct RenderState {
    /// Accumulated horizontal drag, in hundredths of a logical unit.
    pub offset_x: i64,
    /// Accumulated vertical drag, in hundredths of a logical unit.
    pub offset_y: i64,
    /// Current zoom level.
    pub zoom: u32,
}

/// The zoom level after a decrement: one less, except that zero wraps
/// around to `u32::MAX` (the stored counter is unsigned and unclamped).
pub open spec fn zoom_after_decrement(z: int) -> int {
    if z == 0 {
        u32::MAX as int
    } else {
        z - 1
    }
}

/// Sum of the horizontal components of a sequence of drag deltas.
pub open spec fn total_dx(ds: Seq<(int, int)>) -> int
    decreases ds.len(),
{
    if ds.len() == 0 {
        0
    } else {
        total_dx(ds.drop_last()) + ds.last().0
    }
}

/// Sum of the vertical components of a sequence of drag deltas.
pub open spec fn total_dy(ds: Seq<(int, int)>) -> int
    decreases ds.len(),
{
    if ds.len() == 0 {
        0
    } else {
        total_dy(ds.drop_last()) + ds.last().1
    }
}

/// The offset reached by applying a sequence of drag deltas, one frame
/// after another in event order, starting from `(x0, y0)` — the
/// mathematical form of iterating [`RenderState::apply_drag`].
pub open spec fn offset_after_drags(x0: int, y0: int, ds: Seq<(int, int)>) -> (int, int)
    decreases ds.len(),
{
    if ds.len() == 0 {
        (x0, y0)
    } else {
        let p = offset_after_drags(x0, y0, ds.drop_last());
        (p.0 + ds.last().0, p.1 + ds.last().1)
    }
}

/// For every sequence of drags, the accumulated offset equals the
/// starting offset plus the sum of the per-frame deltas, in event order.
pub proof fn lemma_drag_accumulation(x0: int, y0: int, ds: Seq<(int, int)>)
    ensures
        offset_after_drags(x0, y0, ds).0 == x0 + total_dx(ds),
        offset_after_drags(x0, y0, ds).1 == y0 + total_dy(ds),
    decreases ds.len(),
{
    if ds.len() == 0 {
    } else {
        lemma_drag_accumulation(x0, y0, ds.drop_last());
    }
}

impl RenderState {
    /// The state the panel starts in: no offset, zoom level one.
    pub fn new() -> (s: Self)
        ensures
            s.offset_x == 0,
            s.offset_y == 0,
            s.zoom == 1,
    {
        RenderState { offset_x: 0, offset_y: 0, zoom: 1 }
    }

    /// Accumulate one frame's drag delta into the offset, in event order.
    /// The zoom level is untouched.
    pub fn apply_drag(&mut self, dx: i32, dy: i32)
        requires
            i64::MIN <= old(self).offset_x + dx <= i64::MAX,
            i64::MIN <= old(self).offset_y + dy <= i64::MAX,
        ensures
            final(self).offset_x == old(self).offset_x + dx,
            final(self).offset_y == old(self).offset_y + dy,
            final(self).zoom == old(self).zoom,
    {
        self.offset_x = self.offset_x + dx as i64;
        self.offset_y = self.offset_y + dy as i64;
    }

    /// A primary-button click on the canvas raises the zoom level by
    /// exactly one. The offset is untouched.
    pub fn primary_click(&mut self)
        requires
            old(self).zoom < u32::MAX,
        ensures
            final(self).zoom == old(self).zoom + 1,
            final(self).offset_x == old(self).offset_x,
            final(self).offset_y == old(self).offset_y,
    {
        self.zoom = self.zoom + 1;
    }

    /// A secondary-button click on the canvas lowers the zoom level by
    /// exactly one; at zero it wraps around to `u32::MAX`. The offset is
    /// untouched.
    pub fn secondary_click(&mut self)
        ensures
            final(self).zoom as int == zoom_after_decrement(old(self).zoom as int),
            final(self).offset_x == old(self).offset_x,
            final(self).offset_y == old(self).offset_y,
    {
        if self.zoom == 0 {
            self.zoom = u32::MAX;
        } else {
            self.zoom = self.zoom - 1;
        }
    }

    /// The toolbar button labeled "smaller" raises the zoom level by
    /// exactly one — the same action as the "larger" button; the label
    /// does not match the action, and the contract records the behavior
    /// as it is.
    pub fn smaller_button_click(&mut self)
        requires
            old(self).zoom < u32::MAX,
        ensures
            final(self).zoom == old(self).zoom + 1,
            final(self).offset_x == old(self).offset_x,
            final(self).offset_y == old(self).offset_y,
    {
        self.zoom = self.zoom + 1;
    }

    /// The toolbar button labeled "larger" raises the zoom level by
    /// exactly one.
    pub fn larger_button_click(&mut self)
        requires
            old(self).zoom < u32::MAX,
        ensures
            final(self).zoom == old(self).zoom + 1,
            final(self).offset_x == old(self).offset_x,
            final(self).offset_y == old(self).offset_y,
    {
        self.zoom = self.zoom + 1;
    }

    /// One frame of canvas input: the frame's drag delta is accumulated
    /// first, then a discrete primary click raises the zoom level by one,
    /// else a discrete secondary click lowers it by one (wrapping at
    /// zero). A frame without clicks leaves the zoom level unchanged.
    pub fn frame_input(&mut self, dx: i32, dy: i32, primary_clicked: bool, secondary_clicked: bool)
        requires
            i64::MIN <= old(self).offset_x + dx <= i64::MAX,
            i64::MIN <= old(self).offset_y + dy <= i64::MAX,
            primary_clicked ==> old(self).zoom < u32::MAX,
        ensures
            final(self).offset_x == old(self).offset_x + dx,
            final(self).offset_y == old(self).offset_y + dy,
            final(self).zoom as int == (if primary_clicked {
                old(self).zoom + 1
            } else if secondary_clicked {
                zoom_after_decrement(old(self).zoom as int)
            } else {
                old(self).zoom as int
            }),
    {
        self.apply_drag(dx, dy);
        if primary_clicked {
            self.primary_click();
        } else if secondary_clicked {
            self.secondary_click();
        }
    }
}

} // verus!
