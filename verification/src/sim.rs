//! The simulation state and its two-pass tick: first every bot computes
//! its update from the same pre-tick snapshot, then the target moves and
//! every bot applies its update. No bot's integration can leak into
//! another bot's same-tick computation.

use vstd::prelude::*;

use crate::behaviour::SteeringBehaviour;
use crate::behaviour::WanderProps;
use crate::behaviour::ARRIVE_RADIUS;
use crate::behaviour::FLEE_TRIGGER_RADIUS;
use crate::behaviour::WANDER_CENTER;
use crate::behaviour::WANDER_INTERVAL_MS;
use crate::behaviour::WANDER_RADIUS;
use crate::bot::bot_ticked;
use crate::bot::computed_for;
use crate::bot::update_step;
use crate::math::div_trunc;
use crate::vec2::lemma_mul_within;
use crate::bot::Bot;
use crate::bot::StateUpdate;
use crate::target::target_step;
use crate::target::Target;
use crate::vec2::Vector2;
use crate::vec2::COORD_LIMIT;
use crate::SCALE;

verus! {

/// Number of bots the simulation starts with.
pub const NUM_BOTS: usize = 4;

/// Both starting coordinates of the target (pixel 500).
pub const TARGET_START_COORD: i64 = 500 * SCALE;

/// The whole simulation: the shared target, the bots, the window
/// resolution the layout was computed for, and the active behaviour.
#[derive(Debug)]
pub struct MainState {
    pub target: Target,
    pub bots: Vec<Bot>,
    pub resolution: Vector2,
    pub steering_behaviour: SteeringBehaviour,
    pub x: usize,
}

/// The behaviour a number key selects; any other key leaves the current
/// one in place.
pub open spec fn behaviour_for_key(key_number: u8, current: SteeringBehaviour) -> SteeringBehaviour {
    match key_number {
        1u8 => SteeringBehaviour::SimpleSeek,
        2u8 => SteeringBehaviour::SimpleFlee,
        3u8 => SteeringBehaviour::SeekAndArrive(ARRIVE_RADIUS),
        4u8 => SteeringBehaviour::Wander(
            WanderProps { radius: WANDER_RADIUS, center: WANDER_CENTER, interval: WANDER_INTERVAL_MS },
        ),
        5u8 => SteeringBehaviour::Flee(FLEE_TRIGGER_RADIUS),
        _ => current,
    }
}

impl MainState {
    /// Target and bots within range, every bot's kinematics capped, the
    /// behaviour's parameters in range.
    pub open spec fn wf(self) -> bool {
        &&& self.target.wf()
        &&& self.steering_behaviour.wf()
        &&& forall|i: int| 0 <= i < self.bots@.len() ==> (#[trigger] self.bots@[i]).wf()
    }

    /// Every bot's wander timestamp is no later than `now`.
    pub open spec fn clock_consistent(self, now: u64) -> bool {
        forall|i: int| 0 <= i < self.bots@.len() ==> (#[trigger] self.bots@[i]).last_wander <= now
    }

    /// The starting state for a window of resolution `res`: four bots at
    /// rest, stacked vertically at seven tenths of the width, only the
    /// first enabled; the target at pixel (500, 500); simple seek active.
    pub fn new(res: Vector2) -> (s: MainState)
        requires
            0 <= res.x <= COORD_LIMIT,
            0 <= res.y <= COORD_LIMIT,
        ensures
            s.wf(),
            s.clock_consistent(0),
            s.bots@.len() == NUM_BOTS,
            forall|i: int| 0 <= i < s.bots@.len() ==> (#[trigger] s.bots@[i]).pos.x == (res.x as int
                * 7) / 10,
            forall|i: int| 0 <= i < s.bots@.len() ==> (#[trigger] s.bots@[i]).pos.y == 100 * SCALE
                + div_trunc(res.y - 200 * SCALE, 5) * (i + 1),
            forall|i: int| 0 <= i < s.bots@.len() ==> (#[trigger] s.bots@[i]).speed.is_zero(),
            forall|i: int| 0 <= i < s.bots@.len() ==> (#[trigger] s.bots@[i]).desired_speed.is_zero(),
            forall|i: int| 0 <= i < s.bots@.len() ==> (#[trigger] s.bots@[i]).last_wander == 0,
            forall|i: int| 0 <= i < s.bots@.len() ==> ((#[trigger] s.bots@[i]).disabled <==> i != 0),
            s.target.pos == (Vector2 { x: TARGET_START_COORD, y: TARGET_START_COORD }),
            s.target.dir_pressed.0 == 0,
            s.steering_behaviour == SteeringBehaviour::SimpleSeek,
            s.resolution == res,
            s.x == 1,
    {
        let x = (res.x * 7) / 10;
        let gap = (res.y - 200 * SCALE) / 5;
        assert(0 <= x <= COORD_LIMIT);
        assert(-40_000 <= gap && gap <= 200_000_000);
        let mut bots: Vec<Bot> = Vec::new();
        let mut i: usize = 0;
        while i < NUM_BOTS
            invariant
                i <= NUM_BOTS,
                bots@.len() == i,
                0 <= x <= COORD_LIMIT,
                -40_000 <= gap <= 200_000_000,
                gap == div_trunc(res.y - 200 * SCALE, 5),
                x == (res.x as int * 7) / 10,
                forall|k: int| 0 <= k < i ==> (#[trigger] bots@[k]).pos.x == x,
                forall|k: int| 0 <= k < i ==> (#[trigger] bots@[k]).pos.y == 100 * SCALE + gap * (k
                    + 1),
                forall|k: int| 0 <= k < i ==> (#[trigger] bots@[k]).speed.is_zero(),
                forall|k: int| 0 <= k < i ==> (#[trigger] bots@[k]).desired_speed.is_zero(),
                forall|k: int| 0 <= k < i ==> (#[trigger] bots@[k]).last_wander == 0,
                forall|k: int| 0 <= k < i ==> ((#[trigger] bots@[k]).disabled <==> k != 0),
                forall|k: int| 0 <= k < i ==> (#[trigger] bots@[k]).wf(),
            decreases NUM_BOTS - i,
        {
            let mut b = Bot::default();
            proof {
                lemma_mul_within(gap as int, i as int + 1, 200_000_000, 4);
            }
            let offset = gap * ((i as i64) + 1);
            b.pos = Vector2 { x, y: 100 * SCALE + offset };
            b.disabled = i != 0;
            bots.push(b);
            i = i + 1;
        }
        MainState {
            target: Target::new(Vector2 { x: TARGET_START_COORD, y: TARGET_START_COORD }),
            steering_behaviour: SteeringBehaviour::SimpleSeek,
            bots,
            resolution: res,
            x: 1,
        }
    }

    /// One fixed tick: every bot's update is computed from the same
    /// pre-tick snapshot (read-only pass), then the target moves one
    /// keyboard step, then every bot applies its own update (mutating
    /// pass). Each bot's new state is a function of the pre-tick snapshot
    /// alone, so the result does not depend on the order bots are visited;
    /// a disabled bot comes out exactly as it went in.
    pub fn update(&mut self, now: u64, view_width: i64, view_height: i64)
        requires
            old(self).wf(),
            old(self).clock_consistent(now),
            0 <= view_width <= COORD_LIMIT,
            0 <= view_height <= COORD_LIMIT,
        ensures
            final(self).wf(),
            final(self).clock_consistent(now),
            final(self).bots@.len() == old(self).bots@.len(),
            forall|i: int|
                0 <= i < old(self).bots@.len() && (#[trigger] old(self).bots@[i]).disabled
                    ==> final(self).bots@[i] == old(self).bots@[i],
            forall|i: int|
                0 <= i < old(self).bots@.len() ==> bot_ticked(
                    (#[trigger] old(self).bots@[i]),
                    old(self).target.pos,
                    old(self).steering_behaviour,
                    now,
                    view_width as int,
                    view_height as int,
                    final(self).bots@[i],
                ),
            forall|i: int|
                0 <= i < final(self).bots@.len() ==> (#[trigger] final(self).bots@[i]).speed.norm_sq() <= crate::MAX_SPEED * crate::MAX_SPEED,
            forall|i: int|
                0 <= i < final(self).bots@.len() && !(#[trigger] final(self).bots@[i]).disabled
                    && !old(self).bots@[i].disabled ==> 0 <= final(self).bots@[i].pos.x
                    <= view_width && 0 <= final(self).bots@[i].pos.y <= view_height,
            target_step(old(self).target, final(self).target),
            final(self).steering_behaviour == old(self).steering_behaviour,
            final(self).resolution == old(self).resolution,
            final(self).x == old(self).x,
    {
        let ghost pre = *self;
        let n = self.bots.len();
        let mut updates: Vec<StateUpdate> = Vec::new();
        let mut i: usize = 0;
        while i < n
            invariant
                *self == pre,
                pre.wf(),
                pre.clock_consistent(now),
                n == pre.bots@.len(),
                i <= n,
                updates@.len() == i,
                forall|k: int| 0 <= k < i ==> (#[trigger] updates@[k]).wf(),
                forall|k: int|
                    0 <= k < i ==> match (#[trigger] updates@[k]).last_wander {
                        Some(t) => t == now,
                        None => true,
                    },
                forall|k: int|
                    0 <= k < i ==> #[trigger] computed_for(
                        updates@[k],
                        pre.bots@[k],
                        pre.target.pos,
                        pre.steering_behaviour,
                        now,
                    ),
            decreases n - i,
        {
            let b = self.bots[i];
            let su = b.calculate_steering_impulse(&*self, now);
            updates.push(su);
            i = i + 1;
        }
        self.target.update();
        let ghost mid_target = self.target;
        let mut j: usize = 0;
        while j < n
            invariant
                j <= n,
                n == pre.bots@.len(),
                self.bots@.len() == n,
                updates@.len() == n,
                self.target == mid_target,
                target_step(pre.target, mid_target),
                self.target.wf(),
                self.steering_behaviour == pre.steering_behaviour,
                self.resolution == pre.resolution,
                self.x == pre.x,
                pre.wf(),
                pre.clock_consistent(now),
                0 <= view_width <= COORD_LIMIT,
                0 <= view_height <= COORD_LIMIT,
                forall|k: int| 0 <= k < n ==> (#[trigger] updates@[k]).wf(),
                forall|k: int|
                    0 <= k < n ==> match (#[trigger] updates@[k]).last_wander {
                        Some(t) => t == now,
                        None => true,
                    },
                forall|k: int|
                    0 <= k < n ==> #[trigger] computed_for(
                        updates@[k],
                        pre.bots@[k],
                        pre.target.pos,
                        pre.steering_behaviour,
                        now,
                    ),
                forall|k: int| j <= k < n ==> self.bots@[k] == pre.bots@[k],
                forall|k: int|
                    0 <= k < j ==> update_step(
                        pre.bots@[k],
                        updates@[k],
                        view_width as int,
                        view_height as int,
                        (#[trigger] self.bots@[k]),
                    ),
                forall|k: int| 0 <= k < j ==> (#[trigger] self.bots@[k]).wf(),
                forall|k: int| 0 <= k < j ==> (#[trigger] self.bots@[k]).last_wander <= now,
                forall|k: int|
                    0 <= k < j && !(#[trigger] self.bots@[k]).disabled
                        && !pre.bots@[k].disabled ==> 0 <= self.bots@[k].pos.x <= view_width
                        && 0 <= self.bots@[k].pos.y <= view_height,
            decreases n - j,
        {
            let su = updates[j];
            let mut b = self.bots[j];
            proof {
                assert(self.bots@[j as int] == pre.bots@[j as int]);
                assert(pre.bots@[j as int].wf());
                assert(pre.bots@[j as int].last_wander <= now);
                assert(match updates@[j as int].last_wander {
                    Some(t) => t == now,
                    None => true,
                });
            }
            b.update(view_width, view_height, &su);
            self.bots.set(j, b);
            j = j + 1;
        }
        proof {
            assert forall|i2: int| 0 <= i2 < pre.bots@.len() implies bot_ticked(
                pre.bots@[i2],
                pre.target.pos,
                pre.steering_behaviour,
                now,
                view_width as int,
                view_height as int,
                self.bots@[i2],
            ) by {
                let su = updates@[i2];
                assert(computed_for(su, pre.bots@[i2], pre.target.pos, pre.steering_behaviour, now));
                assert(update_step(
                    pre.bots@[i2],
                    su,
                    view_width as int,
                    view_height as int,
                    self.bots@[i2],
                ));
            }
        }
    }

    /// Select the behaviour the pressed number key stands for. Switching
    /// never touches a bot or the target: only later computations change.
    pub fn key_down_event(&mut self, key_number: u8)
        ensures
            final(self).steering_behaviour == behaviour_for_key(
                key_number,
                old(self).steering_behaviour,
            ),
            final(self).bots == old(self).bots,
            final(self).target == old(self).target,
            final(self).resolution == old(self).resolution,
            final(self).x == old(self).x,
            old(self).wf() ==> final(self).wf(),
    {
        let opt: Option<SteeringBehaviour> = match key_number {
            1u8 => Some(SteeringBehaviour::SimpleSeek),
            2u8 => Some(SteeringBehaviour::SimpleFlee),
            3u8 => Some(SteeringBehaviour::SeekAndArrive(ARRIVE_RADIUS)),
            4u8 => Some(SteeringBehaviour::Wander(WanderProps::default())),
            5u8 => Some(SteeringBehaviour::Flee(FLEE_TRIGGER_RADIUS)),
            _ => None,
        };
        if let Some(sb) = opt {
            self.steering_behaviour = sb;
        }
    }
}

} // verus!

