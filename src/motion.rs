//! The player's motion integrator: input intents, wall bounces, jumping and
//! falling, applied in a fixed order each tick.
use vstd::prelude::*;

use crate::game::Game;
use crate::geometry::{BoundingBox, Hit};
use crate::grid::{closest_ground, closest_side, ground_at, side_at};
use crate::scene::{Direction, Player, Point, Scene};
use crate::map::MapTile;
use crate::units::{cell_of, in_rate, in_span, POS_LIMIT, RATE_LIMIT};

verus! {

/// Largest value accepted for any physical constant: the range of rates
/// over which one tick's arithmetic provably stays within `i64`.
pub const MAX_RATE: i64 = RATE_LIMIT;

/// Tunable physical constants of the player, in sub-units per tick.
#[derive(Clone, Copy, Debug, PartialEq, Eq, Structural)]
pub struct Physics {
    pub move_acceleration: i64,
    pub max_move_speed: i64,
    pub max_fall_speed: i64,
    pub max_jump_speed: i64,
    pub gravity_acceleration: i64,
}

/// Why a set of physical constants was refused.
#[derive(Clone, Copy, Debug, PartialEq, Eq, Structural)]
pub enum ConfigError {
    /// The named constant is zero or negative.
    NotPositive,
    /// The named constant exceeds [`MAX_RATE`].
    TooLarge,
}

pub open spec fn rate_ok(v: i64) -> bool {
    0 < v <= MAX_RATE
}

impl Physics {
    pub open spec fn wf(self) -> bool {
        &&& rate_ok(self.move_acceleration)
        &&& rate_ok(self.max_move_speed)
        &&& rate_ok(self.max_fall_speed)
        &&& rate_ok(self.max_jump_speed)
        &&& rate_ok(self.gravity_acceleration)
    }

    /// The constants the game is tuned with.
    pub fn standard() -> (r: Physics)
        ensures
            r.wf(),
            r == (Physics {
                move_acceleration: 300,
                max_move_speed: 1000,
                max_fall_speed: 2000,
                max_jump_speed: 5000,
                gravity_acceleration: 30,
            }),
    {
        Physics {
            move_acceleration: 300,
            max_move_speed: 1000,
            max_fall_speed: 2000,
            max_jump_speed: 5000,
            gravity_acceleration: 30,
        }
    }

    /// Checks a set of constants: each must be positive and at most
    /// [`MAX_RATE`]. A negative or zero constant is reported before a too
    /// large one; nothing is clamped.
    pub fn new(
        move_acceleration: i64,
        max_move_speed: i64,
        max_fall_speed: i64,
        max_jump_speed: i64,
        gravity_acceleration: i64,
    ) -> (r: Result<Physics, ConfigError>)
        ensures
            r matches Ok(p) ==> p == (Physics {
                move_acceleration,
                max_move_speed,
                max_fall_speed,
                max_jump_speed,
                gravity_acceleration,
            }),
            r is Ok <==> (rate_ok(move_acceleration) && rate_ok(max_move_speed) && rate_ok(
                max_fall_speed,
            ) && rate_ok(max_jump_speed) && rate_ok(gravity_acceleration)),
            r == Err::<Physics, ConfigError>(ConfigError::NotPositive) <==> (move_acceleration <= 0
                || max_move_speed <= 0 || max_fall_speed <= 0 || max_jump_speed <= 0
                || gravity_acceleration <= 0),
    {
        if move_acceleration <= 0 || max_move_speed <= 0 || max_fall_speed <= 0 || max_jump_speed
            <= 0 || gravity_acceleration <= 0 {
            Err(ConfigError::NotPositive)
        } else if move_acceleration > MAX_RATE || max_move_speed > MAX_RATE || max_fall_speed
            > MAX_RATE || max_jump_speed > MAX_RATE || gravity_acceleration > MAX_RATE {
            Err(ConfigError::TooLarge)
        } else {
            Ok(
                Physics {
                    move_acceleration,
                    max_move_speed,
                    max_fall_speed,
                    max_jump_speed,
                    gravity_acceleration,
                },
            )
        }
    }
}

/// The player's intents for one tick, as the input layer reports them.
#[derive(Clone, Copy, Debug, PartialEq, Eq, Structural)]
pub struct Intents {
    pub move_left: bool,
    pub move_right: bool,
    pub jump: bool,
    pub interact: bool,
}

/// `v` accelerated by `a` toward `top`, never past it.
pub open spec fn toward_top(v: i64, a: i64, top: i64) -> i64 {
    if v + a < top {
        (v + a) as i64
    } else {
        top
    }
}

/// `v` accelerated by `a` toward `-top`, never past it.
pub open spec fn toward_bottom(v: i64, a: i64, top: i64) -> i64 {
    if v - a > -top {
        (v - a) as i64
    } else {
        (-top) as i64
    }
}

/// Step 1: horizontal intents. Each pressed direction turns the player and
/// accelerates it toward the top speed in that direction, without passing
/// it; with neither pressed the player stops.
pub open spec fn steer(p: Player, ph: Physics, input: Intents) -> Player {
    let right = if input.move_right {
        Player {
            direction: Direction::Forward,
            move_velocity: toward_top(p.move_velocity, ph.move_acceleration, ph.max_move_speed),
            ..p
        }
    } else {
        p
    };
    let left = if input.move_left {
        Player {
            direction: Direction::Backward,
            move_velocity: toward_bottom(right.move_velocity, ph.move_acceleration, ph.max_move_speed),
            ..right
        }
    } else {
        right
    };
    if !input.move_left && !input.move_right {
        Player { move_velocity: 0, ..left }
    } else {
        left
    }
}

/// Step 2: against the side tile, a `Left` or `Right` contact reverses
/// the horizontal velocity and a `Top` or `Bottom` one stops the rise.
pub open spec fn bounce(p: Player, side: Option<BoundingBox>) -> Player {
    match side {
        Some(b) => match p.body().collision(b) {
            Some((Hit::Left, _)) => Player { move_velocity: (-p.move_velocity) as i64, ..p },
            Some((Hit::Right, _)) => Player { move_velocity: (-p.move_velocity) as i64, ..p },
            Some((_, _)) => Player { jump_velocity: 0, ..p },
            None => p,
        },
        None => p,
    }
}

/// Step 3: a jump intent while able to jump sets the rise to its top
/// speed; a rise that is not negative moves the player up.
pub open spec fn jump(p: Player, ph: Physics, input: Intents) -> Player {
    let primed = if input.jump && p.can_jump {
        Player { jump_velocity: ph.max_jump_speed, ..p }
    } else {
        p
    };
    if primed.jump_velocity >= 0 {
        Player { position: Point { y: (primed.position.y - primed.jump_velocity) as i64, ..primed.position }, ..primed }
    } else {
        primed
    }
}

/// Step 4: on the ground the vertical rates reset and the player may jump.
/// In the air, while below its top speed, the fall speeds up by the gravity
/// acceleration (never past the top speed) and the new fall speed eats into
/// the rise; then the fall moves the player down.
pub open spec fn fall(p: Player, ph: Physics, grounded: bool) -> Player {
    if grounded {
        Player { fall_velocity: 0, jump_velocity: 0, can_jump: true, ..p }
    } else {
        let sped = if p.fall_velocity < ph.max_fall_speed {
            let fv = toward_top(p.fall_velocity, ph.gravity_acceleration, ph.max_fall_speed);
            Player { fall_velocity: fv, jump_velocity: (p.jump_velocity - fv) as i64, ..p }
        } else {
            p
        };
        Player {
            position: Point { y: (sped.position.y + sped.fall_velocity) as i64, ..sped.position },
            can_jump: false,
            ..sped
        }
    }
}

/// Step 5: the horizontal velocity moves the player.
pub open spec fn advance(p: Player) -> Player {
    Player { position: Point { x: (p.position.x + p.move_velocity) as i64, ..p.position }, ..p }
}

/// The player after one tick of the motion integrator over `tiles`.
pub open spec fn player_after(ph: Physics, p: Player, tiles: Seq<MapTile>, input: Intents) -> Player {
    let s = steer(p, ph, input);
    let b = bounce(s, side_at(tiles, cell_of(p.position.x as int), cell_of(p.position.y as int)));
    let j = jump(b, ph, input);
    let f = fall(
        j,
        ph,
        ground_at(tiles, cell_of(j.position.x as int) + 1, cell_of(j.position.y as int) + 1) is Some,
    );
    advance(f)
}

/// A rate within twice the accepted range.
pub open spec fn in_double_rate(v: i64) -> bool {
    -2 * RATE_LIMIT <= v <= 2 * RATE_LIMIT
}

fn steer_exec(p: Player, ph: Physics, input: &Intents) -> (r: Player)
    requires
        ph.wf(),
        in_rate(p.move_velocity),
    ensures
        r == steer(p, ph, *input),
        in_double_rate(r.move_velocity),
{
    let mut p = p;
    if input.move_right {
        p.direction = Direction::Forward;
        p.move_velocity = if p.move_velocity + ph.move_acceleration < ph.max_move_speed {
            p.move_velocity + ph.move_acceleration
        } else {
            ph.max_move_speed
        };
    }
    if input.move_left {
        p.direction = Direction::Backward;
        p.move_velocity = if p.move_velocity - ph.move_acceleration > -ph.max_move_speed {
            p.move_velocity - ph.move_acceleration
        } else {
            -ph.max_move_speed
        };
    }
    if !input.move_left && !input.move_right {
        p.move_velocity = 0;
    }
    p
}

fn bounce_exec(p: Player, side: Option<BoundingBox>) -> (r: Player)
    requires
        p.position.wf(),
        in_double_rate(p.move_velocity),
        side matches Some(b) ==> b.wf(),
    ensures
        r == bounce(p, side),
        in_double_rate(r.move_velocity),
{
    let mut p = p;
    if let Some(b) = side {
        match p.collider().collides_with(&b) {
            Some((Hit::Left, _)) => p.move_velocity = -p.move_velocity,
            Some((Hit::Right, _)) => p.move_velocity = -p.move_velocity,
            Some((_, _)) => p.jump_velocity = 0,
            None => {},
        }
    }
    p
}

fn jump_exec(p: Player, ph: Physics, input: &Intents) -> (r: Player)
    requires
        ph.wf(),
        p.position.wf(),
        in_rate(p.jump_velocity),
    ensures
        r == jump(p, ph, *input),
        in_span(r.position.x),
        in_span(r.position.y),
        r.position.x == p.position.x,
        in_rate(r.jump_velocity),
{
    let mut p = p;
    if input.jump && p.can_jump {
        p.jump_velocity = ph.max_jump_speed;
    }
    if p.jump_velocity >= 0 {
        p.position.y = p.position.y - p.jump_velocity;
    }
    p
}

fn fall_exec(p: Player, ph: Physics, grounded: bool) -> (r: Player)
    requires
        ph.wf(),
        in_span(p.position.y),
        p.position.y <= POS_LIMIT + RATE_LIMIT,
        p.position.y >= -POS_LIMIT - RATE_LIMIT,
        in_rate(p.jump_velocity),
        in_rate(p.fall_velocity),
    ensures
        r == fall(p, ph, grounded),
        in_span(r.position.y),
        r.position.x == p.position.x,
        r.move_velocity == p.move_velocity,
{
    let mut p = p;
    if grounded {
        p.fall_velocity = 0;
        p.jump_velocity = 0;
        p.can_jump = true;
    } else {
        if p.fall_velocity < ph.max_fall_speed {
            p.fall_velocity = if p.fall_velocity + ph.gravity_acceleration < ph.max_fall_speed {
                p.fall_velocity + ph.gravity_acceleration
            } else {
                ph.max_fall_speed
            };
            p.jump_velocity = p.jump_velocity - p.fall_velocity;
        }
        p.position.y = p.position.y + p.fall_velocity;
        p.can_jump = false;
    }
    p
}

impl Game {
    /// Advances the player by one tick: steering, the side tile, jumping,
    /// the ground, then the horizontal move, in that order. Only the player
    /// changes.
    pub fn move_player(&mut self, scene: &mut Scene, input: &Intents)
        requires
            old(self).physics.wf(),
            old(scene).player.wf(),
        ensures
            *final(self) == *old(self),
            final(scene).player == player_after(
                old(self).physics,
                old(scene).player,
                old(scene).tiles@,
                *input,
            ),
            final(scene).camera == old(scene).camera,
            final(scene).entities == old(scene).entities,
            final(scene).enemies == old(scene).enemies,
            final(scene).tiles == old(scene).tiles,
            final(scene).player.body().wf(),
    {
        let ph = self.physics;
        let nearby_tiles = scene.tiles.clone();
        let p0 = scene.player;
        let steered = steer_exec(p0, ph, input);
        let side = closest_side(scene, &nearby_tiles);
        let bounced = bounce_exec(steered, side);
        let jumped = jump_exec(bounced, ph, input);
        scene.player = jumped;
        let grounded = closest_ground(scene, &nearby_tiles).is_some();
        let fallen = fall_exec(jumped, ph, grounded);
        let mut p = fallen;
        p.position.x = p.position.x + p.move_velocity;
        scene.player = p;
    }
}

/// The motion integrator keeps the speeds within their tops: a horizontal
/// speed at most `max_move_speed` in magnitude stays so, and a fall speed
/// between zero and `max_fall_speed` stays so.
pub proof fn lemma_speeds_capped(ph: Physics, p: Player, tiles: Seq<MapTile>, input: Intents)
    requires
        ph.wf(),
        p.wf(),
        -ph.max_move_speed <= p.move_velocity <= ph.max_move_speed,
        0 <= p.fall_velocity <= ph.max_fall_speed,
    ensures
        -ph.max_move_speed <= player_after(ph, p, tiles, input).move_velocity <= ph.max_move_speed,
        0 <= player_after(ph, p, tiles, input).fall_velocity <= ph.max_fall_speed,
{
}

} // verus!
