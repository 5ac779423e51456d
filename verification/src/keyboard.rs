//! Direction keys steering the target: the four directions and the 4-bit
//! pressed-state they toggle.

use vstd::prelude::*;

use crate::vec2::Vector2;
use crate::SCALE;

verus! {

/// One of the four target-steering directions.
#[derive(Debug, Clone, Copy, PartialEq, Eq, Structural)]
pub enum Direction {
    Up,
    Right,
    Down,
    Left,
}

impl Direction {
    /// Bit index of the direction in the pressed mask.
    pub open spec fn spec_index(self) -> usize {
        match self {
            Direction::Up => 0,
            Direction::Right => 1,
            Direction::Down => 2,
            Direction::Left => 3,
        }
    }

    /// Bit index of the direction in the pressed mask.
    pub fn index(&self) -> (i: usize)
        ensures
            i == self.spec_index(),
            i < 4,
    {
        match *self {
            Direction::Up => 0,
            Direction::Right => 1,
            Direction::Down => 2,
            Direction::Left => 3,
        }
    }

    /// The one-pixel vector of the direction; the screen's y axis grows
    /// downward.
    pub fn unit_vector(&self) -> (v: Vector2)
        ensures
            v.x == match *self {
                Direction::Up => 0int,
                Direction::Right => SCALE as int,
                Direction::Down => 0int,
                Direction::Left => -SCALE as int,
            },
            v.y == match *self {
                Direction::Up => -SCALE as int,
                Direction::Right => 0int,
                Direction::Down => SCALE as int,
                Direction::Left => 0int,
            },
    {
        match *self {
            Direction::Up => Vector2 { x: 0, y: -SCALE },
            Direction::Right => Vector2 { x: SCALE, y: 0 },
            Direction::Down => Vector2 { x: 0, y: SCALE },
            Direction::Left => Vector2 { x: -SCALE, y: 0 },
        }
    }
}

/// The 4-bit pressed-state of the direction keys: bit `i` is set while the
/// direction of index `i` is held.
#[derive(Debug, Clone, Copy, PartialEq, Eq, Structural)]
pub struct DirPressedStatus(pub usize);

/// The componentwise sum of the one-pixel vectors of all held directions.
pub open spec fn dir_sum(s: DirPressedStatus) -> (int, int) {
    (
        (if s.is_pressed(Direction::Right) {
            SCALE as int
        } else {
            0
        }) - (if s.is_pressed(Direction::Left) {
            SCALE as int
        } else {
            0
        }),
        (if s.is_pressed(Direction::Down) {
            SCALE as int
        } else {
            0
        }) - (if s.is_pressed(Direction::Up) {
            SCALE as int
        } else {
            0
        }),
    )
}

impl DirPressedStatus {
    /// The direction's bit is set.
    pub open spec fn is_pressed(self, d: Direction) -> bool {
        (self.0 >> d.spec_index()) & 1 == 1
    }

    /// No key held.
    pub fn new() -> (s: DirPressedStatus)
        ensures
            s.0 == 0,
            forall|d: Direction| !s.is_pressed(d),
    {
        let s = DirPressedStatus(0);
        proof {
            assert forall|d: Direction| !s.is_pressed(d) by {
                let i = d.spec_index();
                assert((0usize >> i) & 1 == 0) by (bit_vector);
            }
        }
        s
    }

    /// Whether the direction is currently held.
    pub fn pressed(&self, d: Direction) -> (b: bool)
        ensures
            b == self.is_pressed(d),
    {
        let i = d.index();
        (self.0 >> i) & 1 == 1
    }

    /// Record the direction as held, leaving the other three bits alone.
    pub fn press(&mut self, d: Direction)
        ensures
            final(self).is_pressed(d),
            forall|e: Direction| e != d ==> final(self).is_pressed(e) == old(self).is_pressed(e),
    {
        let i = d.index();
        let mask: usize = 1usize << i;
        let v = self.0;
        self.0 = v | mask;
        proof {
            assert(((v | (1usize << i)) >> i) & 1 == 1) by (bit_vector)
                requires
                    i < 4,
            ;
            assert forall|e: Direction| e != d implies final(self).is_pressed(e) == old(
                self,
            ).is_pressed(e) by {
                let j = e.spec_index();
                assert(((v | (1usize << i)) >> j) & 1 == (v >> j) & 1) by (bit_vector)
                    requires
                        i < 4,
                        j < 4,
                        i != j,
                ;
            }
        }
    }

    /// Record the direction as released, leaving the other three bits
    /// alone.
    pub fn release(&mut self, d: Direction)
        ensures
            !final(self).is_pressed(d),
            forall|e: Direction| e != d ==> final(self).is_pressed(e) == old(self).is_pressed(e),
    {
        let i = d.index();
        let mask: usize = !(1usize << i);
        let v = self.0;
        self.0 = v & mask;
        proof {
            assert(((v & !(1usize << i)) >> i) & 1 == 0) by (bit_vector)
                requires
                    i < 4,
            ;
            assert forall|e: Direction| e != d implies final(self).is_pressed(e) == old(
                self,
            ).is_pressed(e) by {
                let j = e.spec_index();
                assert(((v & !(1usize << i)) >> j) & 1 == (v >> j) & 1) by (bit_vector)
                    requires
                        i < 4,
                        j < 4,
                        i != j,
                ;
            }
        }
    }

    /// Sum of the one-pixel vectors of all held directions; opposite keys
    /// cancel.
    pub fn dir_vector(&self) -> (v: Vector2)
        ensures
            v.x == dir_sum(*self).0,
            v.y == dir_sum(*self).1,
            v.bounded(SCALE as int),
    {
        let mut v = Vector2::zero();
        if self.pressed(Direction::Up) {
            v = v.plus(Direction::Up.unit_vector());
        }
        if self.pressed(Direction::Right) {
            v = v.plus(Direction::Right.unit_vector());
        }
        if self.pressed(Direction::Down) {
            v = v.plus(Direction::Down.unit_vector());
        }
        if self.pressed(Direction::Left) {
            v = v.plus(Direction::Left.unit_vector());
        }
        v
    }
}

} // verus!
