//! The steering core: a bot's kinematic state, the per-tick behaviour
//! computation, and the integration of a computed update into position and
//! velocity under the speed and impulse caps.

use vstd::prelude::*;

use crate::behaviour::SteeringBehaviour;
use crate::behaviour::WanderProps;
use crate::sim::MainState;
use crate::extensions::unit_like;
use crate::extensions::RandNonZero;
use crate::math::div_trunc;
use crate::math::sqrt_floor;
use crate::vec2::clamp_max_pair;
use crate::vec2::lemma_frac_pair;
use crate::vec2::lemma_mul_within;
use crate::vec2::lemma_norm_component_bound;
use crate::vec2::lemma_scale_exact_nonzero;
use crate::vec2::nsq;
use crate::vec2::scale_exact_pair;
use crate::vec2::Vector2;
use crate::vec2::COORD_LIMIT;
use crate::vec2::OP_LIMIT;
use crate::FRICTION_DEN;
use crate::FRICTION_NUM;
use crate::MAX_IMPULSE;
use crate::MAX_SPEED;
use crate::NEAR_ZERO_NORM_SQ;
use crate::PARAM_LIMIT;
use crate::RADIUS_DIVISOR;
use crate::SIMPLE_FLEE_RADIUS;

verus! {

/// The update one tick computes for one bot: the velocity the behaviour
/// wants, the bounded impulse toward it, and — for wander — the timestamp
/// to persist.
#[derive(Debug, Clone, Copy, PartialEq, Eq, Structural)]
pub struct StateUpdate {
    pub desired_speed: Vector2,
    pub steering_impulse: Vector2,
    pub last_wander: Option<u64>,
}

impl StateUpdate {
    /// Every computed update obeys the physical caps: desired velocity
    /// within `MAX_SPEED`, impulse within `MAX_IMPULSE`.
    pub open spec fn wf(self) -> bool {
        &&& self.desired_speed.norm_sq() <= MAX_SPEED * MAX_SPEED
        &&& self.steering_impulse.norm_sq() <= MAX_IMPULSE * MAX_IMPULSE
    }
}

impl Default for StateUpdate {
    /// The no-op update: nothing desired, no impulse, no new timestamp.
    fn default() -> (u: StateUpdate)
        ensures
            u.desired_speed.is_zero(),
            u.steering_impulse.is_zero(),
            u.last_wander is None,
            u.wf(),
    {
        StateUpdate {
            desired_speed: Vector2 { x: 0, y: 0 },
            steering_impulse: Vector2 { x: 0, y: 0 },
            last_wander: None,
        }
    }
}

/// An autonomous agent: its kinematic state and the timestamp of its last
/// wander re-randomization. A disabled bot is skipped entirely but keeps
/// its slot, so indices stay stable.
#[derive(Debug, Clone, Copy, PartialEq, Eq, Structural)]
pub struct Bot {
    pub pos: Vector2,
    pub speed: Vector2,
    pub desired_speed: Vector2,
    pub last_wander: u64,
    pub disabled: bool,
    pub id: usize,
}

impl Default for Bot {
    /// A bot at rest at the origin, enabled, with id zero.
    fn default() -> (b: Bot)
        ensures
            b.pos.is_zero(),
            b.speed.is_zero(),
            b.desired_speed.is_zero(),
            b.last_wander == 0,
            !b.disabled,
            b.id == 0,
            b.wf(),
    {
        Bot {
            pos: Vector2 { x: 0, y: 0 },
            speed: Vector2 { x: 0, y: 0 },
            desired_speed: Vector2 { x: 0, y: 0 },
            last_wander: 0,
            disabled: false,
            id: 0,
        }
    }
}

/// One coordinate clamped into `[0, hi]`.
pub open spec fn clamp_coord(c: int, hi: int) -> int {
    if c < 0 {
        0
    } else if c > hi {
        hi
    } else {
        c
    }
}

/// The velocity after integrating an impulse: the sum is clamped to
/// `MAX_SPEED`, then scaled down by the friction fraction.
pub open spec fn integrated_speed(speed: Vector2, impulse: Vector2) -> (int, int) {
    let sx = speed.x + impulse.x;
    let sy = speed.y + impulse.y;
    let c = clamp_max_pair(sx, sy, MAX_SPEED as int);
    (
        div_trunc(c.0 * FRICTION_NUM, FRICTION_DEN as int),
        div_trunc(c.1 * FRICTION_NUM, FRICTION_DEN as int),
    )
}

/// How one `update` call transforms a bot: a disabled bot is left alone;
/// an enabled one records the desired velocity, integrates the impulse
/// into its velocity under cap and friction, moves by the new velocity,
/// and is clamped into the view rectangle.
pub open spec fn update_step(pre: Bot, su: StateUpdate, w: int, h: int, post: Bot) -> bool {
    if pre.disabled {
        post == pre
    } else {
        let ns = integrated_speed(pre.speed, su.steering_impulse);
        &&& post.id == pre.id
        &&& post.disabled == pre.disabled
        &&& post.desired_speed == su.desired_speed
        &&& post.last_wander == (match su.last_wander {
            Some(t) => t,
            None => pre.last_wander,
        })
        &&& (post.speed.x as int, post.speed.y as int) == ns
        &&& post.pos.x == clamp_coord(pre.pos.x + ns.0, w)
        &&& post.pos.y == clamp_coord(pre.pos.y + ns.1, h)
    }
}

/// Desired velocity and steering impulse of seek-and-arrive: head for the
/// target at full speed, capped at `MAX_SPEED`; within `radius` of it,
/// ramp the speed down linearly with the remaining distance. A radius of
/// zero never ramps and gives plain seek.
pub open spec fn seek_arrive_pair(pos: Vector2, speed: Vector2, tgt: Vector2, radius: int) -> (
    (int, int),
    (int, int),
) {
    let dx = tgt.x - pos.x;
    let dy = tgt.y - pos.y;
    let n = nsq(dx, dy);
    let c = clamp_max_pair(dx, dy, MAX_SPEED as int);
    let desired = if n < radius * radius {
        (
            div_trunc(c.0 * sqrt_floor(n), radius),
            div_trunc(c.1 * sqrt_floor(n), radius),
        )
    } else {
        c
    };
    let impulse = clamp_max_pair(desired.0 - speed.x, desired.1 - speed.y, MAX_IMPULSE as int);
    (desired, impulse)
}

/// Desired velocity and steering impulse of flee: out of trigger range the
/// update is all zero; in range, run away from the target at exactly top
/// speed, substituting the random direction when the two points (nearly)
/// coincide.
pub open spec fn flee_pair(
    pos: Vector2,
    speed: Vector2,
    tgt: Vector2,
    radius: int,
    rand: Vector2,
) -> ((int, int), (int, int)) {
    let dx = pos.x - tgt.x;
    let dy = pos.y - tgt.y;
    let n = nsq(dx, dy);
    if n > radius * radius {
        ((0, 0), (0, 0))
    } else {
        let sx = if n < NEAR_ZERO_NORM_SQ {
            rand.x as int
        } else {
            dx
        };
        let sy = if n < NEAR_ZERO_NORM_SQ {
            rand.y as int
        } else {
            dy
        };
        let desired = scale_exact_pair(sx, sy, MAX_SPEED as int);
        (
            desired,
            clamp_max_pair(desired.0 - speed.x, desired.1 - speed.y, MAX_IMPULSE as int),
        )
    }
}

/// The steering impulse of a firing wander step: the current heading (or
/// the first random direction at rest) scaled to `center`, plus the second
/// random direction scaled to `radius`, is the new desired velocity; the
/// impulse toward it is capped as always.
pub open spec fn wander_impulse_pair(
    speed: Vector2,
    props: WanderProps,
    ra: Vector2,
    rb: Vector2,
) -> (int, int) {
    let base = if speed.is_zero() {
        ra
    } else {
        speed
    };
    let heading = scale_exact_pair(base.x as int, base.y as int, props.center as int);
    let offset = scale_exact_pair(rb.x as int, rb.y as int, props.radius as int);
    clamp_max_pair(
        heading.0 + offset.0 - speed.x,
        heading.1 + offset.1 - speed.y,
        MAX_IMPULSE as int,
    )
}

/// Impulse and timestamp of a wander step: rate-limited to once per
/// `interval`, a no-op in between.
pub open spec fn wander_pair(
    speed: Vector2,
    last_wander: u64,
    now: u64,
    props: WanderProps,
    ra: Vector2,
    rb: Vector2,
) -> ((int, int), Option<u64>) {
    if now - last_wander < props.interval {
        ((0, 0), None)
    } else {
        (wander_impulse_pair(speed, props, ra, rb), Some(now))
    }
}

/// The update the active behaviour computes from a bot's state, the shared
/// target, the clock, and the two random directions drawn this tick.
/// Desired velocity, impulse, and the wander timestamp.
pub open spec fn steering_pair(
    pos: Vector2,
    speed: Vector2,
    last_wander: u64,
    tgt: Vector2,
    behaviour: SteeringBehaviour,
    now: u64,
    ra: Vector2,
    rb: Vector2,
) -> ((int, int), (int, int), Option<u64>) {
    match behaviour {
        SteeringBehaviour::SimpleSeek => {
            let p = seek_arrive_pair(pos, speed, tgt, 0);
            (p.0, p.1, None)
        },
        SteeringBehaviour::SimpleFlee => {
            let p = flee_pair(pos, speed, tgt, SIMPLE_FLEE_RADIUS as int, ra);
            (p.0, p.1, None)
        },
        SteeringBehaviour::SeekAndArrive(radius) => {
            let p = seek_arrive_pair(pos, speed, tgt, radius as int);
            (p.0, p.1, None)
        },
        SteeringBehaviour::Wander(props) => {
            let p = wander_pair(speed, last_wander, now, props, ra, rb);
            ((0, 0), p.0, p.1)
        },
        SteeringBehaviour::Flee(radius) => {
            let p = flee_pair(pos, speed, tgt, radius as int, ra);
            (p.0, p.1, None)
        },
        SteeringBehaviour::SeekSquad(target_radius, _flee_radius) => {
            let p = flee_pair(pos, speed, tgt, target_radius as int, ra);
            (p.0, p.1, None)
        },
    }
}

/// The update `su` is one the active behaviour can compute for bot `b`
/// this tick: under some pair of pixel-length random directions it is
/// exactly what `steering_pair` gives.
pub open spec fn computed_for(
    su: StateUpdate,
    b: Bot,
    tgt: Vector2,
    behaviour: SteeringBehaviour,
    now: u64,
) -> bool {
    exists|ra: Vector2, rb: Vector2|
        unit_like(ra) && unit_like(rb) && #[trigger] matches_steering(
            su,
            steering_pair(b.pos, b.speed, b.last_wander, tgt, behaviour, now, ra, rb),
        )
}

/// The bot `post` is `pre` one whole tick later: some update that the
/// active behaviour computes for `pre` — under some pair of pixel-length
/// random directions — was integrated into it.
pub open spec fn bot_ticked(
    pre: Bot,
    tgt: Vector2,
    behaviour: SteeringBehaviour,
    now: u64,
    w: int,
    h: int,
    post: Bot,
) -> bool {
    exists|su: StateUpdate|
        {
            &&& su.wf()
            &&& #[trigger] computed_for(su, pre, tgt, behaviour, now)
            &&& #[trigger] update_step(pre, su, w, h, post)
        }
}

/// A chain of updates applied in order, each by one `update` call.
pub open spec fn runs_updates(pre: Bot, sus: Seq<StateUpdate>, w: int, h: int, post: Bot) -> bool
    decreases sus.len(),
{
    if sus.len() == 0 {
        post == pre
    } else {
        exists|mid: Bot|
            #[trigger] update_step(pre, sus[0], w, h, mid) && runs_updates(
                mid,
                sus.drop_first(),
                w,
                h,
                post,
            )
    }
}

/// A disabled bot is frozen: however many updates are applied, one after
/// the other, position, velocity, desired velocity and timestamp are left
/// exactly as they were.
pub proof fn lemma_disabled_bot_frozen(pre: Bot, sus: Seq<StateUpdate>, w: int, h: int, post: Bot)
    requires
        pre.disabled,
        runs_updates(pre, sus, w, h, post),
    ensures
        post == pre,
    decreases sus.len(),
{
    if sus.len() > 0 {
        let mid = choose|mid: Bot|
            #[trigger] update_step(pre, sus[0], w, h, mid) && runs_updates(
                mid,
                sus.drop_first(),
                w,
                h,
                post,
            );
        lemma_disabled_bot_frozen(mid, sus.drop_first(), w, h, post);
    }
}

/// Seek-and-arrive with an arrival radius of zero is simple seek: on every
/// state, target, clock and pair of random draws the two behaviours
/// compute the same update.
pub proof fn lemma_simple_seek_is_arrive_zero(
    pos: Vector2,
    speed: Vector2,
    last_wander: u64,
    tgt: Vector2,
    now: u64,
    ra: Vector2,
    rb: Vector2,
)
    ensures
        steering_pair(pos, speed, last_wander, tgt, SteeringBehaviour::SimpleSeek, now, ra, rb)
            == steering_pair(
            pos,
            speed,
            last_wander,
            tgt,
            SteeringBehaviour::SeekAndArrive(0),
            now,
            ra,
            rb,
        ),
{
}

/// With bot and target coincident, flee's desired velocity is a nonzero
/// vector whose length is exactly the top speed up to rounding: its
/// squared norm lies between `(MAX_SPEED - 50)^2` and `MAX_SPEED^2`,
/// whatever pixel-length random direction was drawn.
pub proof fn lemma_flee_coincident_nonzero(
    pos: Vector2,
    speed: Vector2,
    tgt: Vector2,
    radius: int,
    rand: Vector2,
)
    requires
        pos == tgt,
        0 <= radius,
        unit_like(rand),
    ensures
        !(flee_pair(pos, speed, tgt, radius, rand).0 == (0int, 0int)),
        nsq(
            flee_pair(pos, speed, tgt, radius, rand).0.0,
            flee_pair(pos, speed, tgt, radius, rand).0.1,
        ) <= MAX_SPEED * MAX_SPEED,
        nsq(
            flee_pair(pos, speed, tgt, radius, rand).0.0,
            flee_pair(pos, speed, tgt, radius, rand).0.1,
        ) >= (MAX_SPEED - 50) * (MAX_SPEED - 50),
{
    let dx = pos.x - tgt.x;
    let dy = pos.y - tgt.y;
    assert(dx == 0 && dy == 0);
    assert(nsq(0, 0) == 0);
    lemma_mul_within(radius, radius, radius, radius);
    let n = nsq(rand.x as int, rand.y as int);
    assert(n >= crate::SCALE * crate::SCALE - 2 * crate::SCALE);
    lemma_scale_exact_nonzero(rand.x as int, rand.y as int, MAX_SPEED as int);
    crate::math::lemma_sqrt_ceil(n);
    let d = crate::math::sqrt_ceil(n);
    crate::vec2::lemma_scale_div_bounds(rand.x as int, rand.y as int, MAX_SPEED as int, d);
    crate::vec2::lemma_scale_exact_unit_lower(rand.x as int, rand.y as int);
}

/// The update holds exactly the desired velocity, impulse and timestamp of
/// the given triple.
pub open spec fn matches_steering(su: StateUpdate, t: ((int, int), (int, int), Option<u64>)) -> bool {
    &&& su.desired_speed.x == t.0.0
    &&& su.desired_speed.y == t.0.1
    &&& su.steering_impulse.x == t.1.0
    &&& su.steering_impulse.y == t.1.1
    &&& su.last_wander == t.2
}

impl Bot {
    /// Position within coordinate range, velocity and recorded desired
    /// velocity within the speed cap.
    pub open spec fn wf(self) -> bool {
        &&& self.pos.bounded(COORD_LIMIT as int)
        &&& self.speed.norm_sq() <= MAX_SPEED * MAX_SPEED
        &&& self.desired_speed.norm_sq() <= MAX_SPEED * MAX_SPEED
    }

    /// Visual radius of a bot: a fixed fraction of the view height.
    pub fn get_radius(&self, view_height: i64) -> (r: i64)
        requires
            0 <= view_height,
        ensures
            r == view_height as int / RADIUS_DIVISOR as int,
    {
        view_height / RADIUS_DIVISOR
    }

    /// Clamp the position componentwise into `[0, w] x [0, h]`. A hard
    /// containment, not a bounce: the velocity is left unchanged, so an
    /// agent slides along the boundary.
    pub fn enforce_pos_inside_view(&mut self, view_width: i64, view_height: i64)
        requires
            old(self).pos.bounded(OP_LIMIT as int),
            0 <= view_width <= COORD_LIMIT,
            0 <= view_height <= COORD_LIMIT,
        ensures
            final(self).pos.x == clamp_coord(old(self).pos.x as int, view_width as int),
            final(self).pos.y == clamp_coord(old(self).pos.y as int, view_height as int),
            0 <= final(self).pos.x <= view_width,
            0 <= final(self).pos.y <= view_height,
            final(self).speed == old(self).speed,
            final(self).desired_speed == old(self).desired_speed,
            final(self).last_wander == old(self).last_wander,
            final(self).disabled == old(self).disabled,
            final(self).id == old(self).id,
    {
        let inside = 0 <= self.pos.x && self.pos.x <= view_width && 0 <= self.pos.y
            && self.pos.y <= view_height;
        if !inside {
            let cx = if self.pos.x < 0 {
                0
            } else if self.pos.x > view_width {
                view_width
            } else {
                self.pos.x
            };
            let cy = if self.pos.y < 0 {
                0
            } else if self.pos.y > view_height {
                view_height
            } else {
                self.pos.y
            };
            self.pos = Vector2 { x: cx, y: cy };
        }
    }

    /// Apply one precomputed update: a no-op for a disabled bot, otherwise
    /// the capped, friction-damped integration followed by viewport
    /// containment.
    pub fn update(&mut self, view_width: i64, view_height: i64, state_update: &StateUpdate)
        requires
            old(self).wf(),
            state_update.wf(),
            0 <= view_width <= COORD_LIMIT,
            0 <= view_height <= COORD_LIMIT,
        ensures
            update_step(
                *old(self),
                *state_update,
                view_width as int,
                view_height as int,
                *final(self),
            ),
            old(self).disabled ==> *final(self) == *old(self),
            final(self).wf(),
            final(self).speed.norm_sq() <= MAX_SPEED * MAX_SPEED,
            !old(self).disabled ==> 0 <= final(self).pos.x <= view_width,
            !old(self).disabled ==> 0 <= final(self).pos.y <= view_height,
    {
        if self.disabled {
            return ;
        }
        if let Some(t) = state_update.last_wander {
            self.last_wander = t;
        }
        self.desired_speed = state_update.desired_speed;
        proof {
            lemma_norm_component_bound(old(self).speed, MAX_SPEED as int);
            lemma_norm_component_bound(state_update.steering_impulse, MAX_IMPULSE as int);
        }
        let summed = self.speed.plus(state_update.steering_impulse);
        let capped = summed.clamp_length_max(MAX_SPEED);
        self.speed = capped.scaled_frac(FRICTION_NUM, FRICTION_DEN);
        proof {
            lemma_norm_component_bound(self.speed, MAX_SPEED as int);
        }
        self.pos = self.pos.plus(self.speed);
        self.enforce_pos_inside_view(view_width, view_height);
    }

    /// Seek-and-arrive toward `target_pos`, ramping down within `radius`.
    fn calculate_seek_and_arrive(&self, target_pos: Vector2, radius: i64) -> (su: StateUpdate)
        requires
            self.pos.bounded(COORD_LIMIT as int),
            self.speed.norm_sq() <= MAX_SPEED * MAX_SPEED,
            target_pos.bounded(COORD_LIMIT as int),
            0 <= radius <= PARAM_LIMIT,
        ensures
            matches_steering(
                su,
                (
                    seek_arrive_pair(self.pos, self.speed, target_pos, radius as int).0,
                    seek_arrive_pair(self.pos, self.speed, target_pos, radius as int).1,
                    None::<u64>,
                ),
            ),
            su.wf(),
    {
        proof {
            lemma_norm_component_bound(self.speed, MAX_SPEED as int);
            lemma_mul_within(radius as int, radius as int, PARAM_LIMIT as int, PARAM_LIMIT as int);
        }
        let distance_vector = target_pos.minus(self.pos);
        let mut desired_speed = distance_vector.clamp_length_max(MAX_SPEED);
        let n = distance_vector.length_squared();
        if n < radius * radius {
            let distance = distance_vector.length();
            proof {
                assert(distance < radius) by (nonlinear_arith)
                    requires
                        distance * distance <= n,
                        n < radius * radius,
                        distance >= 0,
                        radius >= 0,
                ;
                lemma_mul_within(
                    desired_speed.x as int,
                    distance as int,
                    MAX_SPEED as int,
                    PARAM_LIMIT as int,
                );
                lemma_mul_within(
                    desired_speed.y as int,
                    distance as int,
                    MAX_SPEED as int,
                    PARAM_LIMIT as int,
                );
                lemma_frac_pair(
                    desired_speed.x as int,
                    desired_speed.y as int,
                    distance as int,
                    radius as int,
                );
            }
            desired_speed = Vector2 {
                x: (desired_speed.x * distance) / radius,
                y: (desired_speed.y * distance) / radius,
            };
        }
        proof {
            lemma_norm_component_bound(desired_speed, MAX_SPEED as int);
        }
        let steering_impulse = desired_speed.minus(self.speed).clamp_length_max(MAX_IMPULSE);
        StateUpdate { desired_speed, steering_impulse, last_wander: None }
    }

    /// Flee from `target_pos` while within `radius` of it; `rand_vec`
    /// supplies the direction when bot and target coincide.
    fn calculate_flee(&self, target_pos: Vector2, radius: i64, rand_vec: Vector2) -> (su:
        StateUpdate)
        requires
            self.pos.bounded(COORD_LIMIT as int),
            self.speed.norm_sq() <= MAX_SPEED * MAX_SPEED,
            target_pos.bounded(COORD_LIMIT as int),
            0 <= radius <= PARAM_LIMIT,
            rand_vec.bounded(crate::SCALE as int),
        ensures
            matches_steering(
                su,
                (
                    flee_pair(self.pos, self.speed, target_pos, radius as int, rand_vec).0,
                    flee_pair(self.pos, self.speed, target_pos, radius as int, rand_vec).1,
                    None::<u64>,
                ),
            ),
            su.wf(),
            nsq(
                self.pos.x - target_pos.x,
                self.pos.y - target_pos.y,
            ) > radius * radius ==> su.desired_speed.is_zero() && su.steering_impulse.is_zero(),
            nsq(self.pos.x - target_pos.x, self.pos.y - target_pos.y) <= radius * radius
                && unit_like(rand_vec) ==> !su.desired_speed.is_zero(),
    {
        proof {
            lemma_norm_component_bound(self.speed, MAX_SPEED as int);
            lemma_mul_within(radius as int, radius as int, PARAM_LIMIT as int, PARAM_LIMIT as int);
        }
        let diff = self.pos.minus(target_pos);
        let n = diff.length_squared();
        if n > radius * radius {
            return StateUpdate {
                desired_speed: Vector2::zero(),
                steering_impulse: Vector2::zero(),
                last_wander: None,
            };
        }
        let safe_diff = if n < NEAR_ZERO_NORM_SQ {
            rand_vec
        } else {
            diff
        };
        let desired_speed = safe_diff.clamp_length_exact(MAX_SPEED);
        proof {
            if unit_like(rand_vec) || n >= NEAR_ZERO_NORM_SQ {
                assert(!(safe_diff.x == 0 && safe_diff.y == 0)) by (nonlinear_arith)
                    requires
                        nsq(safe_diff.x as int, safe_diff.y as int) >= 1,
                ;
                lemma_scale_exact_nonzero(safe_diff.x as int, safe_diff.y as int, MAX_SPEED as int);
            }
            lemma_norm_component_bound(desired_speed, MAX_SPEED as int);
        }
        let steering_impulse = desired_speed.minus(self.speed).clamp_length_max(MAX_IMPULSE);
        StateUpdate { desired_speed, steering_impulse, last_wander: None }
    }

    /// Wander: at most once per `interval`, steer toward a point on a
    /// circle of `radius` offset `center` ahead along the current heading.
    fn calculate_wander(&self, now: u64, props: WanderProps, rand_a: Vector2, rand_b: Vector2) -> (
        su: StateUpdate)
        requires
            self.speed.norm_sq() <= MAX_SPEED * MAX_SPEED,
            now >= self.last_wander,
            props.wf(),
            rand_a.bounded(crate::SCALE as int),
            rand_b.bounded(crate::SCALE as int),
        ensures
            matches_steering(
                su,
                (
                    (0, 0),
                    wander_pair(self.speed, self.last_wander, now, props, rand_a, rand_b).0,
                    wander_pair(self.speed, self.last_wander, now, props, rand_a, rand_b).1,
                ),
            ),
            su.wf(),
            now - self.last_wander < props.interval ==> su.steering_impulse.is_zero()
                && su.last_wander is None,
            now - self.last_wander >= props.interval ==> su.last_wander == Some(now),
    {
        let desired_speed = Vector2::zero();
        let elapsed = now - self.last_wander;
        if elapsed < props.interval {
            return StateUpdate {
                desired_speed,
                steering_impulse: Vector2::zero(),
                last_wander: None,
            };
        }
        proof {
            lemma_norm_component_bound(self.speed, MAX_SPEED as int);
        }
        let base = if self.speed.x == 0 && self.speed.y == 0 {
            rand_a
        } else {
            self.speed
        };
        let heading = base.clamp_length_exact(props.center);
        let offset = rand_b.clamp_length_exact(props.radius);
        let new_desired = heading.plus(offset);
        let steering_impulse = new_desired.minus(self.speed).clamp_length_max(MAX_IMPULSE);
        StateUpdate { desired_speed, steering_impulse, last_wander: Some(now) }
    }

    /// Dispatch on the active behaviour with the two random directions
    /// given explicitly, so a caller can substitute a deterministic source
    /// and the result is an exact function of the arguments.
    pub fn calculate_steering_impulse_seeded(
        &self,
        target_pos: Vector2,
        behaviour: &SteeringBehaviour,
        now: u64,
        rand_a: Vector2,
        rand_b: Vector2,
    ) -> (su: StateUpdate)
        requires
            self.pos.bounded(COORD_LIMIT as int),
            self.speed.norm_sq() <= MAX_SPEED * MAX_SPEED,
            target_pos.bounded(COORD_LIMIT as int),
            behaviour.wf(),
            now >= self.last_wander,
            rand_a.bounded(crate::SCALE as int),
            rand_b.bounded(crate::SCALE as int),
        ensures
            matches_steering(
                su,
                steering_pair(
                    self.pos,
                    self.speed,
                    self.last_wander,
                    target_pos,
                    *behaviour,
                    now,
                    rand_a,
                    rand_b,
                ),
            ),
            su.wf(),
            match *behaviour {
                SteeringBehaviour::Flee(radius) => unit_like(rand_a) && nsq(
                    self.pos.x - target_pos.x,
                    self.pos.y - target_pos.y,
                ) <= radius * radius ==> !su.desired_speed.is_zero(),
                SteeringBehaviour::SimpleFlee => unit_like(rand_a) && nsq(
                    self.pos.x - target_pos.x,
                    self.pos.y - target_pos.y,
                ) <= SIMPLE_FLEE_RADIUS * SIMPLE_FLEE_RADIUS ==> !su.desired_speed.is_zero(),
                SteeringBehaviour::SeekSquad(target_radius, _flee_radius) => unit_like(rand_a)
                    && nsq(
                    self.pos.x - target_pos.x,
                    self.pos.y - target_pos.y,
                ) <= target_radius * target_radius ==> !su.desired_speed.is_zero(),
                _ => true,
            },
    {
        match *behaviour {
            SteeringBehaviour::SimpleSeek => self.calculate_seek_and_arrive(target_pos, 0),
            SteeringBehaviour::SimpleFlee => self.calculate_flee(
                target_pos,
                SIMPLE_FLEE_RADIUS,
                rand_a,
            ),
            SteeringBehaviour::SeekAndArrive(radius) => self.calculate_seek_and_arrive(
                target_pos,
                radius,
            ),
            SteeringBehaviour::Wander(props) => self.calculate_wander(now, props, rand_a, rand_b),
            SteeringBehaviour::Flee(radius) => self.calculate_flee(target_pos, radius, rand_a),
            SteeringBehaviour::SeekSquad(target_radius, _flee_radius) => self.calculate_flee(
                target_pos,
                target_radius,
                rand_a,
            ),
        }
    }

    /// Compute this tick's update from the shared state: a pure read-only
    /// pass over the bot's own state, the target's position, the active
    /// behaviour and the clock, with two fresh random directions drawn
    /// inside. Whatever was drawn, the impulse stays within `MAX_IMPULSE`,
    /// an out-of-range flee computes an all-zero update, a rate-limited
    /// wander step is a no-op, and a firing one carries the new timestamp.
    pub fn calculate_steering_impulse(&self, state: &MainState, now: u64) -> (su: StateUpdate)
        requires
            self.pos.bounded(COORD_LIMIT as int),
            self.speed.norm_sq() <= MAX_SPEED * MAX_SPEED,
            state.target.pos.bounded(COORD_LIMIT as int),
            state.steering_behaviour.wf(),
            now >= self.last_wander,
        ensures
            computed_for(su, *self, state.target.pos, state.steering_behaviour, now),
            su.wf(),
            match su.last_wander {
                Some(t) => t == now,
                None => true,
            },
            match state.steering_behaviour {
                SteeringBehaviour::Wander(props) => (now - self.last_wander < props.interval
                    ==> su.desired_speed.is_zero() && su.steering_impulse.is_zero()
                    && su.last_wander is None) && (now - self.last_wander >= props.interval
                    ==> su.last_wander == Some(now)),
                _ => su.last_wander is None,
            },
            match state.steering_behaviour {
                SteeringBehaviour::Flee(radius) => nsq(
                    self.pos.x - state.target.pos.x,
                    self.pos.y - state.target.pos.y,
                ) > radius * radius ==> su.desired_speed.is_zero()
                    && su.steering_impulse.is_zero(),
                _ => true,
            },
            match state.steering_behaviour {
                SteeringBehaviour::Flee(radius) => nsq(
                    self.pos.x - state.target.pos.x,
                    self.pos.y - state.target.pos.y,
                ) <= radius * radius ==> !su.desired_speed.is_zero(),
                SteeringBehaviour::SimpleFlee => nsq(
                    self.pos.x - state.target.pos.x,
                    self.pos.y - state.target.pos.y,
                ) <= SIMPLE_FLEE_RADIUS * SIMPLE_FLEE_RADIUS ==> !su.desired_speed.is_zero(),
                _ => true,
            },
    {
        let rand_a = Vector2::rand_unitary();
        let rand_b = Vector2::rand_unitary();
        proof {
            lemma_norm_component_bound(rand_a, crate::SCALE as int);
            lemma_norm_component_bound(rand_b, crate::SCALE as int);
        }
        let su = self.calculate_steering_impulse_seeded(
            state.target.pos,
            &state.steering_behaviour,
            now,
            rand_a,
            rand_b,
        );
        proof {
            assert(unit_like(rand_a) && unit_like(rand_b) && matches_steering(
                su,
                steering_pair(
                    self.pos,
                    self.speed,
                    self.last_wander,
                    state.target.pos,
                    state.steering_behaviour,
                    now,
                    rand_a,
                    rand_b,
                ),
            ));
        }
        su
    }
}

} // verus!
