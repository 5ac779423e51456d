//! The externally-steered target point every behaviour works relative to.

use vstd::prelude::*;

use crate::keyboard::dir_sum;
use crate::keyboard::DirPressedStatus;
use crate::keyboard::Direction;
use crate::vec2::scale_exact_pair;
use crate::vec2::Vector2;
use crate::vec2::COORD_LIMIT;
use crate::TARGET_SPEED;

verus! {

/// One coordinate saturated into the working range.
pub open spec fn sat_coord(c: int) -> int {
    if c < -COORD_LIMIT {
        -COORD_LIMIT as int
    } else if c > COORD_LIMIT {
        COORD_LIMIT as int
    } else {
        c
    }
}

/// The shared target: a position, moved by held direction keys or warped
/// by a click.
#[derive(Debug, Clone, Copy, PartialEq, Eq, Structural)]
pub struct Target {
    pub pos: Vector2,
    pub dir_pressed: DirPressedStatus,
}

/// One keyboard tick of the target: the held-direction sum, normalized to
/// `TARGET_SPEED`, is added to the position, each coordinate saturating at
/// the working range.
pub open spec fn target_step(pre: Target, post: Target) -> bool {
    let d = dir_sum(pre.dir_pressed);
    let step = scale_exact_pair(d.0, d.1, TARGET_SPEED as int);
    &&& post.dir_pressed == pre.dir_pressed
    &&& post.pos.x == sat_coord(pre.pos.x + step.0)
    &&& post.pos.y == sat_coord(pre.pos.y + step.1)
}

impl Target {
    /// Position within the working coordinate range.
    pub open spec fn wf(self) -> bool {
        self.pos.bounded(COORD_LIMIT as int)
    }

    /// A target at `pos` with no key held.
    pub fn new(pos: Vector2) -> (t: Target)
        ensures
            t.pos == pos,
            t.dir_pressed.0 == 0,
    {
        Target { pos, dir_pressed: DirPressedStatus::new() }
    }

    /// Move one tick in the direction the held keys sum to, at
    /// `TARGET_SPEED`; still with no key held, nothing moves.
    pub fn update(&mut self)
        requires
            old(self).wf(),
        ensures
            target_step(*old(self), *final(self)),
            final(self).wf(),
    {
        let dir = self.dir_pressed.dir_vector();
        let step = dir.clamp_length_exact(TARGET_SPEED);
        let nx = self.pos.x + step.x;
        let ny = self.pos.y + step.y;
        let cx = if nx < -COORD_LIMIT {
            -COORD_LIMIT
        } else if nx > COORD_LIMIT {
            COORD_LIMIT
        } else {
            nx
        };
        let cy = if ny < -COORD_LIMIT {
            -COORD_LIMIT
        } else if ny > COORD_LIMIT {
            COORD_LIMIT
        } else {
            ny
        };
        self.pos = Vector2 { x: cx, y: cy };
    }

    /// A mouse press: the left button warps the target to the click
    /// point, any other button does nothing.
    pub fn mouse_button_down_event(&mut self, left_button: bool, x: i64, y: i64)
        requires
            -COORD_LIMIT <= x <= COORD_LIMIT,
            -COORD_LIMIT <= y <= COORD_LIMIT,
        ensures
            left_button ==> final(self).pos.x == x && final(self).pos.y == y,
            !left_button ==> final(self).pos == old(self).pos,
            final(self).dir_pressed == old(self).dir_pressed,
            old(self).wf() ==> final(self).wf(),
    {
        if left_button {
            self.pos = Vector2 { x, y };
        }
    }

    /// A direction key went down.
    pub fn on_dir_key_pressed(&mut self, d: Direction)
        ensures
            final(self).pos == old(self).pos,
            final(self).dir_pressed.is_pressed(d),
            forall|e: Direction| e != d ==> final(self).dir_pressed.is_pressed(e) == old(
                self,
            ).dir_pressed.is_pressed(e),
    {
        self.dir_pressed.press(d);
    }

    /// A direction key came back up.
    pub fn on_dir_key_released(&mut self, d: Direction)
        ensures
            final(self).pos == old(self).pos,
            !final(self).dir_pressed.is_pressed(d),
            forall|e: Direction| e != d ==> final(self).dir_pressed.is_pressed(e) == old(
                self,
            ).dir_pressed.is_pressed(e),
    {
        self.dir_pressed.release(d);
    }
}

} // verus!
