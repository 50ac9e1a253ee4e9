//! The frame coordinator: one simulation tick, the merge of the enemy
//! groups and the player's alive / dying / game-over state machine.
use vstd::prelude::*;

use crate::enemies::{
    goomba_kills, lemma_goombas_survive_or_die, all_goombas, all_koopas, all_piranhas, goomba_hits, goombas_after, koopa_after, koopa_hits,
    piranha_hits,
};
use crate::map::MapTile;
use crate::motion::{player_after, Intents, Physics};
use crate::scene::{Camera, Enemy, EnemyKind, Entity, EntityKind, Player, Point, Scene, SMALL_EXTENT};
use crate::units::{whole_units, whole_units_of, POS_LIMIT, RATE_LIMIT, SUBUNITS};

verus! {

/// Time from the lethal hit to game over, in milliseconds.
pub const GRACE_MS: u64 = 2000;

/// Half the width of the view: the camera keeps the player at this
/// distance from its left edge once the player is past it, in sub-units.
pub const HALF_VIEW: i64 = 200 * SUBUNITS;

/// Width of a pipe's opening, in whole world units.
pub const PIPE_WIDTH: u32 = 32;

/// Progress that survives between sessions; nothing is tracked yet.
#[derive(Clone, Copy, Debug, PartialEq, Eq, Structural)]
pub struct GameState {}

/// The player's life cycle. Times are in milliseconds.
#[derive(Clone, Copy, Debug, PartialEq, Eq, Structural)]
pub enum FrameState {
    Alive,
    /// Hit at time `since`; the simulation is frozen.
    Dying { since: u64 },
    /// Terminal for the session.
    GameOver,
}

/// What one tick did, for the host loop to act on.
#[derive(Clone, Copy, Debug, PartialEq, Eq, Structural)]
pub enum TickOutcome {
    /// The tick ran and the player is alive.
    Running,
    /// The player entered a pipe leading to segment `id`; the rest of the
    /// tick was skipped.
    EnterSegment { id: usize },
    /// The player took a lethal hit in this tick.
    Died,
    /// The player is dying; nothing moved.
    Frozen,
    /// The grace period is over; the session has ended.
    GameOver,
}

/// The semantic events of one tick, for a collaborator to render as sound
/// or metrics.
#[derive(Clone, Copy, Debug, PartialEq, Eq, Structural)]
pub struct TickEvents {
    /// Goombas the player landed on.
    pub enemies_killed: usize,
    /// Damaging hits on the player (saturated to `usize::MAX`).
    pub player_hits: usize,
    /// The player took a lethal hit while alive.
    pub player_died: bool,
}

/// No event.
pub open spec fn quiet() -> TickEvents {
    TickEvents { enemies_killed: 0, player_hits: 0, player_died: false }
}

/// `n`, clamped to the range of `usize`.
pub open spec fn saturated(n: int) -> usize {
    if n < 0 {
        0
    } else if n > usize::MAX {
        usize::MAX
    } else {
        n as usize
    }
}

/// What the frame coordinator keeps from one tick to the next.
#[derive(Clone, Copy, Debug, PartialEq, Eq, Structural)]
pub struct Game {
    pub physics: Physics,
    pub frame: FrameState,
    pub state: GameState,
    /// The events of the latest tick.
    pub events: TickEvents,
}

/// Milliseconds from `since` to `now`; zero when `now` is earlier.
pub open spec fn elapsed(since: u64, now: u64) -> int {
    if now >= since {
        now - since
    } else {
        0
    }
}

/// The life-cycle state after a tick at time `now` with `hits` damaging
/// hits (hits only count while alive: nothing else runs then).
pub open spec fn next_frame(frame: FrameState, hits: nat, now: u64) -> FrameState {
    match frame {
        FrameState::Alive => if hits >= 1 {
            FrameState::Dying { since: now }
        } else {
            FrameState::Alive
        },
        FrameState::Dying { since } => if elapsed(since, now) >= GRACE_MS {
            FrameState::GameOver
        } else {
            frame
        },
        FrameState::GameOver => FrameState::GameOver,
    }
}

pub open spec fn is_goomba(e: Enemy) -> bool {
    e.kind is Goomba
}

pub open spec fn is_koopa(e: Enemy) -> bool {
    e.kind is Koopa
}

pub open spec fn is_piranha(e: Enemy) -> bool {
    e.kind is Piranha
}

pub open spec fn goombas_of(es: Seq<Enemy>) -> Seq<Enemy> {
    es.filter(|e: Enemy| is_goomba(e))
}

pub open spec fn koopas_of(es: Seq<Enemy>) -> Seq<Enemy> {
    es.filter(|e: Enemy| is_koopa(e))
}

pub open spec fn piranhas_of(es: Seq<Enemy>) -> Seq<Enemy> {
    es.filter(|e: Enemy| is_piranha(e))
}

/// The merged enemy collection: goombas, then koopas, then piranhas.
pub open spec fn merged(goombas: Seq<Enemy>, koopas: Seq<Enemy>, piranhas: Seq<Enemy>) -> Seq<Enemy> {
    goombas + koopas + piranhas
}

/// The enemies after one tick of the three groups against `player` and `tiles`.
pub open spec fn enemies_after(es: Seq<Enemy>, player: Player, tiles: Seq<MapTile>, now: u64) -> Seq<
    Enemy,
> {
    merged(
        goombas_after(goombas_of(es), player, tiles),
        koopas_of(es).map_values(|k: Enemy| koopa_after(k, player, tiles, now)),
        piranhas_of(es),
    )
}

/// The damaging hits of one tick of the three groups, summed.
pub open spec fn hits_of(es: Seq<Enemy>, player: Player, now: u64) -> nat {
    goomba_hits(goombas_of(es), player) + koopa_hits(koopas_of(es), player, now) + piranha_hits(
        piranhas_of(es),
        player,
    )
}

pub open spec fn all_wf(es: Seq<Enemy>) -> bool {
    forall|i: int| 0 <= i < es.len() ==> (#[trigger] es[i]).wf()
}

impl Scene {
    /// Every entity that the tick moves is inside the world.
    pub open spec fn wf(self) -> bool {
        self.player.wf() && all_wf(self.enemies@)
    }
}

/// The player stands in the opening of the pipe entity `e`.
pub open spec fn on_pipe(e: Entity, p: Player) -> bool {
    &&& e.kind is Pipe
    &&& p.position.x >= e.position.x * SUBUNITS
    &&& p.position.x < (e.position.x + PIPE_WIDTH) * SUBUNITS
    &&& whole_units_of(p.position.y + SMALL_EXTENT) == e.position.y
}

/// The target of the first pipe of `es` that the player stands in.
pub open spec fn first_pipe(es: Seq<Entity>, p: Player) -> Option<usize>
    decreases es.len(),
{
    if es.len() == 0 {
        None
    } else if on_pipe(es[0], p) {
        match es[0].kind {
            EntityKind::Pipe { id } => Some(id),
            _ => None,
        }
    } else {
        first_pipe(es.drop_first(), p)
    }
}

/// The segment that the player enters in this tick, if any: only while
/// pressing interact.
pub open spec fn pipe_entered(es: Seq<Entity>, p: Player, input: Intents) -> Option<usize> {
    if input.interact {
        first_pipe(es, p)
    } else {
        None
    }
}

/// The camera after following the player.
pub open spec fn followed(c: Camera, p: Player) -> Camera {
    if p.position.x > HALF_VIEW {
        Camera { position: Point { x: (p.position.x - HALF_VIEW) as i64, ..c.position } }
    } else {
        c
    }
}

proof fn lemma_filter_keeps_wf(es: Seq<Enemy>, pred: spec_fn(Enemy) -> bool)
    requires
        all_wf(es),
    ensures
        forall|i: int|
            0 <= i < es.filter(pred).len() ==> (#[trigger] es.filter(pred)[i]).wf() && pred(
                es.filter(pred)[i],
            ),
    decreases es.len(),
{
    reveal(Seq::filter);
    if es.len() > 0 {
        let rest = es.drop_last();
        lemma_filter_keeps_wf(rest, pred);
        assert(all_wf(rest)) by {
            assert forall|i: int| 0 <= i < rest.len() implies (#[trigger] rest[i]).wf() by {
                assert(rest[i] == es[i]);
            }
        }
        assert(es.last() == es[es.len() - 1]);
        let out = es.filter(pred);
        assert forall|i: int| 0 <= i < out.len() implies (#[trigger] out[i]).wf() && pred(out[i]) by {
            if i < rest.filter(pred).len() {
                assert(out[i] == rest.filter(pred)[i]);
            }
        }
    }
}

proof fn lemma_groups_wf(es: Seq<Enemy>)
    requires
        all_wf(es),
    ensures
        all_goombas(goombas_of(es)),
        all_koopas(koopas_of(es)),
        all_piranhas(piranhas_of(es)),
{
    lemma_filter_keeps_wf(es, |e: Enemy| is_goomba(e));
    lemma_filter_keeps_wf(es, |e: Enemy| is_koopa(e));
    lemma_filter_keeps_wf(es, |e: Enemy| is_piranha(e));
}

/// Splits the enemies into the three archetype groups, each in the order
/// of `enemies`.
pub fn partition_enemies(enemies: &Vec<Enemy>) -> (r: (Vec<Enemy>, Vec<Enemy>, Vec<Enemy>))
    ensures
        r.0@ == goombas_of(enemies@),
        r.1@ == koopas_of(enemies@),
        r.2@ == piranhas_of(enemies@),
{
    let mut goombas: Vec<Enemy> = Vec::new();
    let mut koopas: Vec<Enemy> = Vec::new();
    let mut piranhas: Vec<Enemy> = Vec::new();
    let mut i: usize = 0;
    while i < enemies.len()
        invariant
            i <= enemies@.len(),
            goombas@ == goombas_of(enemies@.subrange(0, i as int)),
            koopas@ == koopas_of(enemies@.subrange(0, i as int)),
            piranhas@ == piranhas_of(enemies@.subrange(0, i as int)),
        decreases enemies.len() - i,
    {
        let e = enemies[i];
        let ghost prefix = enemies@.subrange(0, i + 1);
        assert(prefix.drop_last() == enemies@.subrange(0, i as int));
        assert(prefix.last() == e);
        reveal(Seq::filter);
        match e.kind {
            EnemyKind::Goomba { .. } => goombas.push(e),
            EnemyKind::Koopa { .. } => koopas.push(e),
            EnemyKind::Piranha => piranhas.push(e),
        }
        i += 1;
    }
    assert(enemies@.subrange(0, enemies@.len() as int) == enemies@);
    (goombas, koopas, piranhas)
}

/// The target of the first pipe that the player stands in, if any.
fn find_pipe(entities: &Vec<Entity>, player: &Player) -> (r: Option<usize>)
    requires
        player.body().wf(),
    ensures
        r == first_pipe(entities@, *player),
{
    let mut i: usize = 0;
    assert(entities@.subrange(0, entities@.len() as int) == entities@);
    while i < entities.len()
        invariant
            i <= entities@.len(),
            player.body().wf(),
            first_pipe(entities@, *player) == first_pipe(
                entities@.subrange(i as int, entities@.len() as int),
                *player,
            ),
        decreases entities.len() - i,
    {
        let e = entities[i];
        let ghost rest = entities@.subrange(i as int, entities@.len() as int);
        assert(rest[0] == e);
        assert(rest.drop_first() == entities@.subrange(i + 1, entities@.len() as int));
        if let EntityKind::Pipe { id } = e.kind {
            let px = player.position.x;
            if px >= e.position.x as i64 * SUBUNITS && px < (e.position.x as i64 + PIPE_WIDTH as i64)
                * SUBUNITS && whole_units(player.position.y + SMALL_EXTENT) == e.position.y {
                return Some(id);
            }
        }
        i += 1;
    }
    None
}

fn follow_camera(scene: &mut Scene)
    requires
        old(scene).player.body().wf(),
    ensures
        *final(scene) == (Scene { camera: followed(old(scene).camera, old(scene).player), ..*old(scene) }),
{
    if scene.player.position.x > HALF_VIEW {
        scene.camera.position.x = scene.player.position.x - HALF_VIEW;
    }
}

impl Game {
    /// A game with the given physical constants and a living player.
    pub fn new(physics: Physics) -> (r: Game)
        ensures
            r == (Game { physics, frame: FrameState::Alive, state: GameState {}, events: quiet() }),
    {
        Game {
            physics,
            frame: FrameState::Alive,
            state: GameState {},
            events: TickEvents { enemies_killed: 0, player_hits: 0, player_died: false },
        }
    }

    /// Checks that every entity the tick moves is inside the world.
    pub fn is_simulable(scene: &Scene) -> (r: bool)
        ensures
            r == scene.wf(),
    {
        let p = &scene.player;
        if !(-POS_LIMIT <= p.position.x && p.position.x <= POS_LIMIT && -POS_LIMIT <= p.position.y && p.position.y
            <= POS_LIMIT && -RATE_LIMIT <= p.move_velocity && p.move_velocity <= RATE_LIMIT && -RATE_LIMIT
            <= p.jump_velocity && p.jump_velocity <= RATE_LIMIT && -RATE_LIMIT <= p.fall_velocity
            && p.fall_velocity <= RATE_LIMIT) {
            return false;
        }
        let mut i: usize = 0;
        while i < scene.enemies.len()
            invariant
                i <= scene.enemies@.len(),
                forall|j: int| 0 <= j < i ==> (#[trigger] scene.enemies@[j]).wf(),
            decreases scene.enemies.len() - i,
        {
            let e = scene.enemies[i];
            if !(-POS_LIMIT <= e.position.x && e.position.x <= POS_LIMIT && -POS_LIMIT <= e.position.y
                && e.position.y <= POS_LIMIT) {
                return false;
            }
            if let EnemyKind::Goomba { from, to, .. } = e.kind {
                if !(-POS_LIMIT <= from.x && from.x <= POS_LIMIT && -POS_LIMIT <= from.y && from.y <= POS_LIMIT && -POS_LIMIT
                    <= to.x && to.x <= POS_LIMIT && -POS_LIMIT <= to.y && to.y <= POS_LIMIT) {
                    return false;
                }
            }
            i += 1;
        }
        true
    }

    /// Merges the results of the three groups into the scene's enemies
    /// (goombas, then koopas, then piranhas). Returns whether their hits add
    /// up to at least one; if so while the player is alive, the dying state
    /// starts at `now`.
    pub fn apply_enemy_groups(
        &mut self,
        scene: &mut Scene,
        goombas: (Vec<Enemy>, usize),
        koopas: (Vec<Enemy>, usize),
        piranhas: (Vec<Enemy>, usize),
        now: u64,
    ) -> (hit: bool)
        ensures
            final(scene).enemies@ == merged(goombas.0@, koopas.0@, piranhas.0@),
            *final(scene) == (Scene { enemies: final(scene).enemies, ..*old(scene) }),
            hit == (goombas.1 + koopas.1 + piranhas.1 >= 1),
            final(self).frame == (if hit && old(self).frame == FrameState::Alive {
                FrameState::Dying { since: now }
            } else {
                old(self).frame
            }),
            final(self).physics == old(self).physics,
            final(self).state == old(self).state,
            final(self).events == old(self).events,
    {
        let (mut all, g_hits) = goombas;
        let (mut ks, k_hits) = koopas;
        let (mut ps, p_hits) = piranhas;
        all.append(&mut ks);
        all.append(&mut ps);
        scene.enemies = all;
        let hit = g_hits >= 1 || k_hits >= 1 || p_hits >= 1;
        if hit && self.frame == FrameState::Alive {
            self.frame = FrameState::Dying { since: now };
        }
        hit
    }

    /// Runs the three enemy groups, one after another, against one snapshot
    /// of the player and the tiles, and merges their results as
    /// `apply_enemy_groups` does. Returns whether the groups hit the player;
    /// the result and the new enemies depend on the snapshot alone.
    pub fn update_enemies(game: &mut Game, scene: &mut Scene, now: u64) -> (hit: bool)
        requires
            old(scene).player.body().wf(),
            all_wf(old(scene).enemies@),
        ensures
            final(scene).enemies@ == enemies_after(
                old(scene).enemies@,
                old(scene).player,
                old(scene).tiles@,
                now,
            ),
            *final(scene) == (Scene { enemies: final(scene).enemies, ..*old(scene) }),
            hit == (hits_of(old(scene).enemies@, old(scene).player, now) >= 1),
            final(game).frame == (if hit && old(game).frame == FrameState::Alive {
                FrameState::Dying { since: now }
            } else {
                old(game).frame
            }),
            final(game).physics == old(game).physics,
            final(game).state == old(game).state,
            final(game).events == old(game).events,
    {
        proof {
            lemma_groups_wf(scene.enemies@);
        }
        let (goombas, koopas, piranhas) = partition_enemies(&scene.enemies);
        let player = scene.player;
        let g = Game::update_goombas(goombas, &player, scene.tiles.as_slice());
        let k = Game::update_koopas(koopas, &player, scene.tiles.as_slice(), now);
        let p = Game::update_piranhas(piranhas, &player, scene.tiles.as_slice());
        game.apply_enemy_groups(scene, g, k, p, now)
    }

    /// The part of a tick before the enemy groups, at time `now`
    /// (milliseconds). Returns the tick's outcome when it ends here, and
    /// `None` when the enemy groups must run next.
    ///
    /// While alive the player moves, and a pipe entered with the interact
    /// intent ends the tick. While dying nothing moves, and once `GRACE_MS`
    /// have passed since the hit the game is over. Game over is terminal.
    pub fn begin_tick(&mut self, scene: &mut Scene, input: &Intents, now: u64) -> (r: Option<
        TickOutcome,
    >)
        requires
            old(self).physics.wf(),
            old(scene).player.wf(),
        ensures
            final(self).physics == old(self).physics,
            final(self).state == old(self).state,
            match old(self).frame {
                FrameState::Alive => {
                    let p = player_after(old(self).physics, old(scene).player, old(scene).tiles@, *input);
                    &&& *final(scene) == (Scene { player: p, ..*old(scene) })
                    &&& final(self).frame == FrameState::Alive
                    &&& r == match pipe_entered(old(scene).entities@, p, *input) {
                        Some(id) => Some(TickOutcome::EnterSegment { id }),
                        None => None,
                    }
                },
                FrameState::Dying { since } => {
                    &&& *final(scene) == *old(scene)
                    &&& final(self).frame == next_frame(old(self).frame, 0, now)
                    &&& r == Some(
                        if final(self).frame == FrameState::GameOver {
                            TickOutcome::GameOver
                        } else {
                            TickOutcome::Frozen
                        },
                    )
                },
                FrameState::GameOver => {
                    &&& *final(scene) == *old(scene)
                    &&& final(self).frame == FrameState::GameOver
                    &&& r == Some(TickOutcome::GameOver)
                },
            },
            r is None ==> final(scene).player.body().wf(),
            final(self).events == quiet(),
    {
        self.events = TickEvents { enemies_killed: 0, player_hits: 0, player_died: false };
        match self.frame {
            FrameState::GameOver => Some(TickOutcome::GameOver),
            FrameState::Dying { since } => {
                let passed = if now >= since {
                    now - since
                } else {
                    0
                };
                if passed >= GRACE_MS {
                    self.frame = FrameState::GameOver;
                    Some(TickOutcome::GameOver)
                } else {
                    Some(TickOutcome::Frozen)
                }
            },
            FrameState::Alive => {
                self.move_player(scene, input);
                if input.interact {
                    if let Some(id) = find_pipe(&scene.entities, &scene.player) {
                        return Some(TickOutcome::EnterSegment { id });
                    }
                }
                None
            },
        }
    }

    /// The part of a tick after the enemy groups: merges their results as
    /// `apply_enemy_groups` does, lets the camera follow the player, and
    /// records the tick's events. The goombas killed are those of the scene
    /// before the merge that the goomba group did not return.
    pub fn finish_tick(
        &mut self,
        scene: &mut Scene,
        goombas: (Vec<Enemy>, usize),
        koopas: (Vec<Enemy>, usize),
        piranhas: (Vec<Enemy>, usize),
        now: u64,
    ) -> (r: TickOutcome)
        requires
            old(scene).player.body().wf(),
        ensures
            final(scene).enemies@ == merged(goombas.0@, koopas.0@, piranhas.0@),
            *final(scene) == (Scene {
                camera: followed(old(scene).camera, old(scene).player),
                enemies: final(scene).enemies,
                ..*old(scene)
            }),
            r == (if old(self).frame == FrameState::Alive && goombas.1 + koopas.1 + piranhas.1 >= 1 {
                TickOutcome::Died
            } else {
                TickOutcome::Running
            }),
            final(self).frame == (if r == TickOutcome::Died {
                FrameState::Dying { since: now }
            } else {
                old(self).frame
            }),
            final(self).physics == old(self).physics,
            final(self).state == old(self).state,
            final(self).events == (TickEvents {
                enemies_killed: saturated(
                    goombas_of(old(scene).enemies@).len() - goombas.0@.len(),
                ),
                player_hits: saturated(goombas.1 + koopas.1 + piranhas.1),
                player_died: r == TickOutcome::Died,
            }),
    {
        let before = partition_enemies(&scene.enemies).0.len();
        let after = goombas.0.len();
        let killed = if before >= after {
            before - after
        } else {
            0
        };
        let sum = if goombas.1 <= usize::MAX - koopas.1 {
            goombas.1 + koopas.1
        } else {
            usize::MAX
        };
        let player_hits = if sum <= usize::MAX - piranhas.1 {
            sum + piranhas.1
        } else {
            usize::MAX
        };
        let was_alive = self.frame == FrameState::Alive;
        let hit = self.apply_enemy_groups(scene, goombas, koopas, piranhas, now);
        follow_camera(scene);
        let died = hit && was_alive;
        self.events = TickEvents { enemies_killed: killed, player_hits, player_died: died };
        if died {
            TickOutcome::Died
        } else {
            TickOutcome::Running
        }
    }

    /// One simulation tick at time `now` (milliseconds): `begin_tick`, then,
    /// unless the tick ended there, the three enemy groups one after another
    /// against one snapshot of the player and the tiles, and `finish_tick`.
    pub fn update(&mut self, scene: &mut Scene, input: &Intents, now: u64) -> (r: TickOutcome)
        requires
            old(self).physics.wf(),
            old(scene).wf(),
        ensures
            final(self).physics == old(self).physics,
            final(self).state == old(self).state,
            match old(self).frame {
                FrameState::Alive => {
                    let p = player_after(old(self).physics, old(scene).player, old(scene).tiles@, *input);
                    match pipe_entered(old(scene).entities@, p, *input) {
                        Some(id) => {
                            &&& r == TickOutcome::EnterSegment { id }
                            &&& final(self).events == quiet()
                            &&& *final(scene) == (Scene { player: p, ..*old(scene) })
                            &&& final(self).frame == FrameState::Alive
                        },
                        None => {
                            let hits = hits_of(old(scene).enemies@, p, now);
                            &&& final(scene).enemies@ == enemies_after(old(scene).enemies@, p, old(scene).tiles@, now)
                            &&& *final(scene) == (Scene {
                                player: p,
                                camera: followed(old(scene).camera, p),
                                enemies: final(scene).enemies,
                                ..*old(scene)
                            })
                            &&& final(self).frame == next_frame(FrameState::Alive, hits, now)
                            &&& r == if hits >= 1 { TickOutcome::Died } else { TickOutcome::Running }
                            &&& final(self).events == (TickEvents {
                                enemies_killed: saturated(goomba_kills(goombas_of(old(scene).enemies@), p) as int),
                                player_hits: saturated(hits as int),
                                player_died: hits >= 1,
                            })
                        },
                    }
                },
                FrameState::Dying { since } => {
                    &&& *final(scene) == *old(scene)
                    &&& final(self).events == quiet()
                    &&& final(self).frame == next_frame(old(self).frame, 0, now)
                    &&& r == if final(self).frame == FrameState::GameOver {
                        TickOutcome::GameOver
                    } else {
                        TickOutcome::Frozen
                    }
                },
                FrameState::GameOver => {
                    &&& *final(scene) == *old(scene)
                    &&& final(self).frame == FrameState::GameOver
                    &&& final(self).events == quiet()
                    &&& r == TickOutcome::GameOver
                },
            },
    {
        proof {
            lemma_groups_wf(scene.enemies@);
        }
        if let Some(outcome) = self.begin_tick(scene, input, now) {
            return outcome;
        }
        let (goombas, koopas, piranhas) = partition_enemies(&scene.enemies);
        let player = scene.player;
        let g = Game::update_goombas(goombas, &player, scene.tiles.as_slice());
        let k = Game::update_koopas(koopas, &player, scene.tiles.as_slice(), now);
        let p = Game::update_piranhas(piranhas, &player, scene.tiles.as_slice());
        proof {
            lemma_goombas_survive_or_die(goombas_of(scene.enemies@), player, scene.tiles@);
        }
        self.finish_tick(scene, g, k, p, now)
    }
}

/// A tick with at least one hit while alive starts the dying state at that
/// tick's time; the state turns to game over at the first tick at least
/// `GRACE_MS` later, and stays dying before that whatever happens.
pub proof fn lemma_death_transition(hits: nat, hit_at: u64, later: u64, other_hits: nat)
    requires
        hits >= 1,
    ensures
        next_frame(FrameState::Alive, hits, hit_at) == (FrameState::Dying { since: hit_at }),
        later >= hit_at + GRACE_MS ==> next_frame(
            FrameState::Dying { since: hit_at },
            other_hits,
            later,
        ) == FrameState::GameOver,
        hit_at <= later < hit_at + GRACE_MS ==> next_frame(
            FrameState::Dying { since: hit_at },
            other_hits,
            later,
        ) == (FrameState::Dying { since: hit_at }),
        next_frame(FrameState::GameOver, other_hits, later) == FrameState::GameOver,
{
}

/// Each group's result is fixed by the snapshot of the player, the tiles
/// and its own enemies, so two runs of the three groups on one snapshot,
/// scheduled in any way, merge to the same enemies and the same hits, and
/// those are what the sequential update computes.
pub proof fn lemma_groups_deterministic(
    es: Seq<Enemy>,
    player: Player,
    tiles: Seq<MapTile>,
    now: u64,
    first: (Seq<Enemy>, nat, Seq<Enemy>, nat, Seq<Enemy>, nat),
    second: (Seq<Enemy>, nat, Seq<Enemy>, nat, Seq<Enemy>, nat),
)
    requires
        first.0 == goombas_after(goombas_of(es), player, tiles),
        first.1 == goomba_hits(goombas_of(es), player),
        first.2 == koopas_of(es).map_values(|k: Enemy| koopa_after(k, player, tiles, now)),
        first.3 == koopa_hits(koopas_of(es), player, now),
        first.4 == piranhas_of(es),
        first.5 == piranha_hits(piranhas_of(es), player),
        second.0 == goombas_after(goombas_of(es), player, tiles),
        second.1 == goomba_hits(goombas_of(es), player),
        second.2 == koopas_of(es).map_values(|k: Enemy| koopa_after(k, player, tiles, now)),
        second.3 == koopa_hits(koopas_of(es), player, now),
        second.4 == piranhas_of(es),
        second.5 == piranha_hits(piranhas_of(es), player),
    ensures
        merged(first.0, first.2, first.4) == merged(second.0, second.2, second.4),
        merged(first.0, first.2, first.4) == enemies_after(es, player, tiles, now),
        first.1 + first.3 + first.5 == second.1 + second.3 + second.5,
        first.1 + first.3 + first.5 == hits_of(es, player, now),
{
}

} // verus!
