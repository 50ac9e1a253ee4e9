//! Per-archetype enemy rules. Each group is updated by a pure function of
//! its enemies, the player and the tiles, which returns the updated enemies
//! and the number of damaging hits on the player.
use vstd::prelude::*;

use crate::game::Game;
use crate::geometry::{BoundingBox, Hit};
use crate::grid::{below_of, below_spec};
use crate::map::MapTile;
use crate::scene::{Direction, Enemy, EnemyKind, Player, Point, UPoint, KOOPA_HEIGHT, SMALL_EXTENT};
use crate::grid::{cell, ground_at};
use crate::map::cell_box;
use crate::units::{cell_of, in_span, in_world, whole_units_of, SUBUNITS, TILE_SIZE};
use vstd::arithmetic::div_mod::{lemma_div_denominator, lemma_fundamental_div_mod, lemma_mod_division_less_than_divisor};

verus! {

/// Fall per tick of an enemy with no ground below, in sub-units.
pub const GRAVITY: i64 = 982;

/// Patrol speed of a goomba, in sub-units per tick.
pub const GOOMBA_SPEED: i64 = 200;

/// Walking speed of a koopa, in sub-units per tick.
pub const KOOPA_SPEED: i64 = 150;

/// New `y` of `body` after one gravity step against `ground`: pushed up by
/// the penetration when it lands on the ground's top face, else one
/// `GRAVITY` lower. With `rest_on_full_tile`, a penetration of exactly one
/// tile counts as already resting.
pub open spec fn settled_y(body: BoundingBox, ground: Option<BoundingBox>, rest_on_full_tile: bool) -> int {
    match ground {
        Some(g) => match body.collision(g) {
            Some((Hit::Top, depth)) => if rest_on_full_tile && depth == TILE_SIZE {
                body.y as int
            } else {
                body.y - depth
            },
            _ => body.y + GRAVITY,
        },
        None => body.y + GRAVITY,
    }
}

/// One gravity step of `body` against `ground`; returns its new `y`.
pub fn settle(body: BoundingBox, ground: Option<BoundingBox>, rest_on_full_tile: bool) -> (r: i64)
    requires
        body.wf(),
        ground matches Some(g) ==> g.wf(),
    ensures
        r == settled_y(body, ground, rest_on_full_tile),
{
    match ground {
        Some(g) => match body.collides_with(&g) {
            Some((Hit::Top, depth)) => if rest_on_full_tile && depth == TILE_SIZE {
                body.y
            } else {
                body.y - depth
            },
            _ => body.y + GRAVITY,
        },
        None => body.y + GRAVITY,
    }
}

/// The player landed on the enemy: seen from the enemy, the contact face is
/// `Bottom`.
pub open spec fn stomped(body: BoundingBox, player: Player) -> bool {
    body.collision(player.body()) matches Some((Hit::Bottom, _))
}

/// The enemy touches the player on a face other than `Bottom`.
pub open spec fn hurts(body: BoundingBox, player: Player) -> bool {
    body.collision(player.body()) matches Some((h, _)) && h != Hit::Bottom
}

/// One patrol step: move by `GOOMBA_SPEED` along the direction, then turn
/// back when past `to_x`, forward when before `from_x`.
pub open spec fn patrol(x: int, direction: Direction, from_x: int, to_x: int) -> (int, Direction) {
    let nx = match direction {
        Direction::Forward => x + GOOMBA_SPEED,
        Direction::Backward => x - GOOMBA_SPEED,
    };
    let nd = if nx > to_x {
        Direction::Backward
    } else if nx < from_x {
        Direction::Forward
    } else {
        direction
    };
    (nx, nd)
}

/// A goomba after its patrol step, before gravity.
pub open spec fn goomba_moved(g: Enemy) -> Enemy {
    match g.kind {
        EnemyKind::Goomba { from, to, direction } => {
            let (nx, nd) = patrol(g.position.x as int, direction, from.x as int, to.x as int);
            Enemy {
                position: Point { x: nx as i64, y: g.position.y },
                kind: EnemyKind::Goomba { from, to, direction: nd },
            }
        },
        _ => g,
    }
}

/// Extent of a goomba in whole world units, for the ground probe.
pub open spec fn goomba_size() -> UPoint {
    UPoint { x: 16, y: 16 }
}

/// A surviving goomba after its full tick.
pub open spec fn goomba_after(g: Enemy, tiles: Seq<MapTile>) -> Enemy {
    let m = goomba_moved(g);
    Enemy {
        position: Point {
            x: m.position.x,
            y: settled_y(m.body(), below_spec(m.position, goomba_size(), tiles), false) as i64,
        },
        kind: m.kind,
    }
}

/// The goombas left after one tick, in order: stomped ones are dropped.
pub open spec fn goombas_after(gs: Seq<Enemy>, player: Player, tiles: Seq<MapTile>) -> Seq<Enemy>
    decreases gs.len(),
{
    if gs.len() == 0 {
        seq![]
    } else {
        let rest = goombas_after(gs.drop_last(), player, tiles);
        if stomped(gs.last().body(), player) {
            rest
        } else {
            rest.push(goomba_after(gs.last(), tiles))
        }
    }
}

/// Damaging hits of the goombas in one tick: survivors that touch the
/// player, after their patrol step, on a face other than `Bottom`.
pub open spec fn goomba_hits(gs: Seq<Enemy>, player: Player) -> nat
    decreases gs.len(),
{
    if gs.len() == 0 {
        0
    } else {
        let rest = goomba_hits(gs.drop_last(), player);
        if !stomped(gs.last().body(), player) && hurts(goomba_moved(gs.last()).body(), player) {
            rest + 1
        } else {
            rest
        }
    }
}

/// Goombas the player lands on in one tick.
pub open spec fn goomba_kills(gs: Seq<Enemy>, player: Player) -> nat
    decreases gs.len(),
{
    if gs.len() == 0 {
        0
    } else {
        goomba_kills(gs.drop_last(), player) + if stomped(gs.last().body(), player) {
            1nat
        } else {
            0nat
        }
    }
}

/// Every goomba either survives the tick or is killed by the player.
pub proof fn lemma_goombas_survive_or_die(gs: Seq<Enemy>, player: Player, tiles: Seq<MapTile>)
    ensures
        goombas_after(gs, player, tiles).len() + goomba_kills(gs, player) == gs.len(),
    decreases gs.len(),
{
    if gs.len() > 0 {
        lemma_goombas_survive_or_die(gs.drop_last(), player, tiles);
    }
}

/// All enemies are well-formed goombas.
pub open spec fn all_goombas(es: Seq<Enemy>) -> bool {
    forall|i: int| 0 <= i < es.len() ==> (#[trigger] es[i]).wf() && es[i].kind is Goomba
}

/// All enemies are well-formed koopas.
pub open spec fn all_koopas(es: Seq<Enemy>) -> bool {
    forall|i: int| 0 <= i < es.len() ==> (#[trigger] es[i]).wf() && es[i].kind is Koopa
}

/// All enemies are well-formed piranhas.
pub open spec fn all_piranhas(es: Seq<Enemy>) -> bool {
    forall|i: int| 0 <= i < es.len() ==> (#[trigger] es[i]).wf() && es[i].kind is Piranha
}

/// A koopa after the stomp check: a stomp starts the shell timer at `now`
/// unless the shell is already set.
pub open spec fn koopa_struck(k: Enemy, player: Player, now: u64) -> Enemy {
    match k.kind {
        EnemyKind::Koopa { direction, shell } => if shell is None && stomped(k.body(), player) {
            Enemy { position: k.position, kind: EnemyKind::Koopa { direction, shell: Some(now) } }
        } else {
            k
        },
        _ => k,
    }
}

pub open spec fn shelled(k: Enemy) -> bool {
    k.kind matches EnemyKind::Koopa { shell: Some(_), .. }
}

/// The collider a koopa falls with: 16 by 16 in its shell, else 16 by 24.
pub open spec fn koopa_fall_box(k: Enemy) -> BoundingBox {
    BoundingBox {
        x: k.position.x,
        y: k.position.y,
        width: SMALL_EXTENT,
        height: if shelled(k) {
            SMALL_EXTENT
        } else {
            KOOPA_HEIGHT
        },
    }
}

pub open spec fn koopa_size(k: Enemy) -> UPoint {
    UPoint {
        x: 16,
        y: if shelled(k) {
            16
        } else {
            24
        },
    }
}

/// A koopa after its full tick: stomp check, gravity, then a step
/// backward unless it is in its shell.
pub open spec fn koopa_after(k: Enemy, player: Player, tiles: Seq<MapTile>, now: u64) -> Enemy {
    let s = koopa_struck(k, player, now);
    let y = settled_y(koopa_fall_box(s), below_spec(s.position, koopa_size(s), tiles), true);
    let x = if shelled(s) {
        s.position.x as int
    } else {
        s.position.x - KOOPA_SPEED
    };
    Enemy { position: Point { x: x as i64, y: y as i64 }, kind: s.kind }
}

/// The koopa hurts the player: it is out of its shell after the stomp
/// check and touches the player on a face other than `Bottom`.
pub open spec fn koopa_hurts(k: Enemy, player: Player, now: u64) -> bool {
    let s = koopa_struck(k, player, now);
    !shelled(s) && hurts(s.body(), player)
}

pub open spec fn koopa_hits(ks: Seq<Enemy>, player: Player, now: u64) -> nat
    decreases ks.len(),
{
    if ks.len() == 0 {
        0
    } else {
        koopa_hits(ks.drop_last(), player, now) + if koopa_hurts(ks.last(), player, now) {
            1nat
        } else {
            0nat
        }
    }
}

pub open spec fn piranha_hits(ps: Seq<Enemy>, player: Player) -> nat
    decreases ps.len(),
{
    if ps.len() == 0 {
        0
    } else {
        piranha_hits(ps.drop_last(), player) + if ps.last().body().collision(player.body()) is Some {
            1nat
        } else {
            0nat
        }
    }
}

/// The patrol step of a goomba.
fn goomba_patrol(g: Enemy) -> (r: Enemy)
    requires
        g.wf(),
        g.kind is Goomba,
    ensures
        r == goomba_moved(g),
        r.position.y == g.position.y,
        in_span(r.position.x),
        in_span(r.position.y),
{
    match g.kind {
        EnemyKind::Goomba { from, to, direction } => {
            let nx = match direction {
                Direction::Forward => g.position.x + GOOMBA_SPEED,
                Direction::Backward => g.position.x - GOOMBA_SPEED,
            };
            let nd = if nx > to.x {
                Direction::Backward
            } else if nx < from.x {
                Direction::Forward
            } else {
                direction
            };
            Enemy {
                position: Point { x: nx, y: g.position.y },
                kind: EnemyKind::Goomba { from, to, direction: nd },
            }
        },
        _ => g,
    }
}

fn is_stomped(body: &BoundingBox, player: &BoundingBox) -> (r: bool)
    requires
        body.wf(),
        player.wf(),
    ensures
        r == (body.collision(*player) matches Some((Hit::Bottom, _))),
{
    match body.collides_with(player) {
        Some((Hit::Bottom, _)) => true,
        _ => false,
    }
}

fn is_hurting(body: &BoundingBox, player: &BoundingBox) -> (r: bool)
    requires
        body.wf(),
        player.wf(),
    ensures
        r == (body.collision(*player) matches Some((h, _)) && h != Hit::Bottom),
{
    match body.collides_with(player) {
        Some((h, _)) => h != Hit::Bottom,
        None => false,
    }
}

impl Game {
    /// Updates the goombas for one tick. Goombas the player landed on are
    /// removed. The others take their patrol step, count one hit when they
    /// then touch the player on a face other than `Bottom`, and settle on
    /// the ground below or fall.
    pub fn update_goombas(goombas: Vec<Enemy>, player: &Player, tiles: &[MapTile]) -> (r: (
        Vec<Enemy>,
        usize,
    ))
        requires
            all_goombas(goombas@),
            player.body().wf(),
        ensures
            r.0@ == goombas_after(goombas@, *player, tiles@),
            r.1 == goomba_hits(goombas@, *player),
    {
        let pc = player.collider();
        let mut out: Vec<Enemy> = Vec::new();
        let mut hits: usize = 0;
        let mut i: usize = 0;
        while i < goombas.len()
            invariant
                i <= goombas@.len(),
                all_goombas(goombas@),
                player.body().wf(),
                pc == player.body(),
                out@ == goombas_after(goombas@.subrange(0, i as int), *player, tiles@),
                hits == goomba_hits(goombas@.subrange(0, i as int), *player),
                hits <= i,
            decreases goombas.len() - i,
        {
            let g = goombas[i];
            assert(goombas@.subrange(0, i + 1).drop_last() == goombas@.subrange(0, i as int));
            assert(goombas@.subrange(0, i + 1).last() == g);
            if !is_stomped(&g.collider(), &pc) {
                let m = goomba_patrol(g);
                if is_hurting(&m.collider(), &pc) {
                    hits += 1;
                }
                let ground = below_of(m.position, UPoint { x: 16, y: 16 }, tiles);
                let y = settle(m.collider(), ground, false);
                out.push(Enemy { position: Point { x: m.position.x, y }, kind: m.kind });
            }
            i += 1;
        }
        assert(goombas@.subrange(0, goombas@.len() as int) == goombas@);
        (out, hits)
    }

    /// Updates the koopas for one tick at time `now` (milliseconds). A koopa
    /// the player lands on withdraws into its shell, unless it already has.
    /// Out of its shell it counts one hit when it touches the player on a
    /// face other than `Bottom`, and walks backward. Either way it settles on
    /// the ground below or falls.
    pub fn update_koopas(mut koopas: Vec<Enemy>, player: &Player, tiles: &[MapTile], now: u64) -> (r: (
        Vec<Enemy>,
        usize,
    ))
        requires
            all_koopas(koopas@),
            player.body().wf(),
        ensures
            r.0@ == koopas@.map_values(|k: Enemy| koopa_after(k, *player, tiles@, now)),
            r.1 == koopa_hits(koopas@, *player, now),
    {
        let ghost input = koopas@;
        let pc = player.collider();
        let mut hits: usize = 0;
        let mut i: usize = 0;
        while i < koopas.len()
            invariant
                koopas@.len() == input.len(),
                i <= input.len(),
                all_koopas(input),
                player.body().wf(),
                pc == player.body(),
                forall|j: int| 0 <= j < i ==> koopas@[j] == koopa_after(input[j], *player, tiles@, now),
                forall|j: int| i <= j < input.len() ==> koopas@[j] == input[j],
                hits == koopa_hits(input.subrange(0, i as int), *player, now),
                hits <= i,
            decreases input.len() - i,
        {
            let k = koopas[i];
            assert(input.subrange(0, i + 1).drop_last() == input.subrange(0, i as int));
            assert(input.subrange(0, i + 1).last() == k);
            let mut s = k;
            if let EnemyKind::Koopa { direction, shell } = k.kind {
                if shell.is_none() && is_stomped(&k.collider(), &pc) {
                    s = Enemy { position: k.position, kind: EnemyKind::Koopa { direction, shell: Some(now) } };
                }
            }
            let in_shell = match s.kind {
                EnemyKind::Koopa { shell: Some(_), .. } => true,
                _ => false,
            };
            if !in_shell && is_hurting(&s.collider(), &pc) {
                hits += 1;
            }
            let size = if in_shell {
                UPoint { x: 16, y: 16 }
            } else {
                UPoint { x: 16, y: 24 }
            };
            let height = if in_shell {
                SMALL_EXTENT
            } else {
                KOOPA_HEIGHT
            };
            let ground = below_of(s.position, size, tiles);
            let fall_box = BoundingBox { x: s.position.x, y: s.position.y, width: SMALL_EXTENT, height };
            let y = settle(fall_box, ground, true);
            let x = if in_shell {
                s.position.x
            } else {
                s.position.x - KOOPA_SPEED
            };
            koopas.set(i, Enemy { position: Point { x, y }, kind: s.kind });
            i += 1;
        }
        assert(input.subrange(0, input.len() as int) == input);
        assert(koopas@ == input.map_values(|k: Enemy| koopa_after(k, *player, tiles@, now)));
        (koopas, hits)
    }

    /// Counts the piranhas touching the player, on any face; piranhas never
    /// move.
    pub fn update_piranhas(piranhas: Vec<Enemy>, player: &Player, tiles: &[MapTile]) -> (r: (
        Vec<Enemy>,
        usize,
    ))
        requires
            all_piranhas(piranhas@),
            player.body().wf(),
        ensures
            r.0@ == piranhas@,
            r.1 == piranha_hits(piranhas@, *player),
    {
        let pc = player.collider();
        let mut hits: usize = 0;
        let mut i: usize = 0;
        while i < piranhas.len()
            invariant
                i <= piranhas@.len(),
                all_piranhas(piranhas@),
                player.body().wf(),
                pc == player.body(),
                hits == piranha_hits(piranhas@.subrange(0, i as int), *player),
                hits <= i,
            decreases piranhas.len() - i,
        {
            assert(piranhas@.subrange(0, i + 1).drop_last() == piranhas@.subrange(0, i as int));
            assert(piranhas@.subrange(0, i + 1).last() == piranhas@[i as int]);
            if piranhas[i].collider().collides_with(&pc).is_some() {
                hits += 1;
            }
            i += 1;
        }
        assert(piranhas@.subrange(0, piranhas@.len() as int) == piranhas@);
        (piranhas, hits)
    }
}

/// A goomba's patrol state that one step keeps: within one step of its
/// bounds, and headed back whenever it is past one of them.
pub open spec fn in_patrol(x: int, direction: Direction, from_x: int, to_x: int) -> bool {
    &&& from_x - GOOMBA_SPEED <= x <= to_x + GOOMBA_SPEED
    &&& x > to_x ==> direction == Direction::Backward
    &&& x < from_x ==> direction == Direction::Forward
}

/// One patrol step keeps a goomba within one step of its bounds, and it
/// turns exactly when the step takes it past one of them.
pub proof fn lemma_patrol_step(x: int, direction: Direction, from_x: int, to_x: int)
    requires
        from_x <= to_x,
        in_patrol(x, direction, from_x, to_x),
    ensures
        in_patrol(patrol(x, direction, from_x, to_x).0, patrol(x, direction, from_x, to_x).1, from_x, to_x),
        patrol(x, direction, from_x, to_x).1 != direction <==> (patrol(x, direction, from_x, to_x).0
            > to_x || patrol(x, direction, from_x, to_x).0 < from_x),
{
}

/// A surviving goomba's horizontal position and direction after its tick
/// are one patrol step from where it was.
pub proof fn lemma_goomba_patrols(g: Enemy, tiles: Seq<MapTile>)
    requires
        g.wf(),
        g.kind is Goomba,
    ensures
        match (g.kind, goomba_after(g, tiles).kind) {
            (
                EnemyKind::Goomba { from, to, direction },
                EnemyKind::Goomba { from: from2, to: to2, direction: d2 },
            ) => {
                &&& from2 == from
                &&& to2 == to
                &&& (goomba_after(g, tiles).position.x as int, d2) == patrol(
                    g.position.x as int,
                    direction,
                    from.x as int,
                    to.x as int,
                )
            },
            _ => false,
        },
{
}

/// A goomba after `n` ticks in which the player never lands on it.
pub open spec fn goomba_ticks(g: Enemy, tiles: Seq<MapTile>, n: nat) -> Enemy
    decreases n,
{
    if n == 0 {
        g
    } else {
        goomba_ticks(goomba_after(g, tiles), tiles, (n - 1) as nat)
    }
}

/// The patrol state of a goomba: its position, direction and bounds.
pub open spec fn patrols_within(g: Enemy, from_x: int, to_x: int) -> bool {
    match g.kind {
        EnemyKind::Goomba { from, to, direction } => {
            &&& from.x == from_x
            &&& to.x == to_x
            &&& in_patrol(g.position.x as int, direction, from_x, to_x)
        },
        _ => false,
    }
}

/// However many ticks a goomba lives through, its horizontal position
/// stays within one step of its patrol bounds `[from_x, to_x]`, and it is
/// headed back whenever it is past one of them.
pub proof fn lemma_goomba_patrol_bounded(g: Enemy, tiles: Seq<MapTile>, n: nat, from_x: int, to_x: int)
    requires
        in_world(from_x as i64) && from_x == from_x as i64,
        in_world(to_x as i64) && to_x == to_x as i64,
        from_x <= to_x,
        patrols_within(g, from_x, to_x),
    ensures
        patrols_within(goomba_ticks(g, tiles, n), from_x, to_x),
    decreases n,
{
    if n > 0 {
        if let EnemyKind::Goomba { from, to, direction } = g.kind {
            lemma_patrol_step(g.position.x as int, direction, from_x, to_x);
        }
        lemma_goomba_patrol_bounded(goomba_after(g, tiles), tiles, (n - 1) as nat, from_x, to_x);
    }
}

/// A goomba the player lands on is dropped from the next collection and
/// adds no hit, wherever it stands among the others (`before` and `after`
/// are the goombas on either side of it).
pub proof fn lemma_stomp_removes(
    before: Seq<Enemy>,
    g: Enemy,
    after: Seq<Enemy>,
    player: Player,
    tiles: Seq<MapTile>,
)
    requires
        stomped(g.body(), player),
    ensures
        goombas_after(before + seq![g] + after, player, tiles) == goombas_after(
            before + after,
            player,
            tiles,
        ),
        goomba_hits(before + seq![g] + after, player) == goomba_hits(before + after, player),
    decreases after.len(),
{
    let with = before + seq![g] + after;
    let without = before + after;
    if after.len() == 0 {
        assert(with.drop_last() == before);
        assert(with.last() == g);
        assert(without == before);
    } else {
        let rest = after.drop_last();
        lemma_stomp_removes(before, g, rest, player, tiles);
        assert(with.drop_last() == before + seq![g] + rest);
        assert(without.drop_last() == before + rest);
        assert(with.last() == after.last());
        assert(without.last() == after.last());
    }
}

/// A koopa in its shell never hurts the player, keeps its shell and its
/// timer, and does not walk.
pub proof fn lemma_shell_immune(k: Enemy, player: Player, tiles: Seq<MapTile>, now: u64)
    requires
        k.kind is Koopa,
        shelled(k),
    ensures
        !koopa_hurts(k, player, now),
        koopa_after(k, player, tiles, now).kind == k.kind,
        koopa_after(k, player, tiles, now).position.x == k.position.x,
{
}

/// A group of koopas all in their shells adds no hit.
pub proof fn lemma_shelled_group_harmless(ks: Seq<Enemy>, player: Player, now: u64)
    requires
        forall|i: int| 0 <= i < ks.len() ==> (#[trigger] ks[i]).kind is Koopa && shelled(ks[i]),
    ensures
        koopa_hits(ks, player, now) == 0,
    decreases ks.len(),
{
    if ks.len() > 0 {
        let rest = ks.drop_last();
        assert forall|i: int| 0 <= i < rest.len() implies (#[trigger] rest[i]).kind is Koopa
            && shelled(rest[i]) by {
            assert(rest[i] == ks[i]);
        }
        lemma_shelled_group_harmless(rest, player, now);
        lemma_shell_immune(ks.last(), player, seq![], now);
    }
}

/// A body resting exactly on the top of the ground, and touching it
/// horizontally, keeps its height under the gravity step.
pub proof fn lemma_resting_is_fixed(body: BoundingBox, ground: BoundingBox, rest_on_full_tile: bool)
    requires
        body.wf(),
        ground.wf(),
        body.y + body.height == ground.y,
        body.overlap_x2(ground) >= 0,
    ensures
        settled_y(body, Some(ground), rest_on_full_tile) == body.y,
{
}

/// After a gravity step that lands on the ground's top face, the body
/// rests exactly on it, so the next step against the same ground leaves it
/// where it is.
pub proof fn lemma_settle_idempotent(body: BoundingBox, ground: BoundingBox, rest_on_full_tile: bool)
    requires
        body.wf(),
        ground.wf(),
        body.collision(ground) matches Some((Hit::Top, _)),
    ensures
        ({
            let moved = BoundingBox { y: settled_y(body, Some(ground), rest_on_full_tile) as i64, ..body };
            settled_y(moved, Some(ground), rest_on_full_tile) == moved.y
        }),
{
}

/// A coordinate inside the tile grid: not before its first cell and not
/// past the last cell that `u32` can number.
pub open spec fn on_grid(v: int) -> bool {
    0 <= v <= SUBUNITS * u32::MAX
}

proof fn lemma_cell_of_on_grid(v: int)
    requires
        on_grid(v),
    ensures
        cell_of(v) * TILE_SIZE <= v < cell_of(v) * TILE_SIZE + TILE_SIZE,
        v % (TILE_SIZE as int) == 0 ==> cell_of(v) * TILE_SIZE == v,
        0 <= cell_of(v) <= u32::MAX,
{
    assert(whole_units_of(v) == v / 1000) by {
        if v > 0 {
            assert(v / 1000 <= u32::MAX as int) by (nonlinear_arith)
                requires
                    0 < v <= 1000 * u32::MAX,
            ;
        }
    }
    lemma_div_denominator(v, 1000, 16);
    assert(cell_of(v) == v / 16000);
    lemma_fundamental_div_mod(v, 16000);
    lemma_mod_division_less_than_divisor(v, 16000);
    assert(0 <= v / 16000 <= u32::MAX) by (nonlinear_arith)
        requires
            0 <= v <= 1000 * u32::MAX,
    ;
}

/// The body of an entity at `pos` with an extent of `size` whole world units.
pub open spec fn body_at(pos: Point, size: UPoint) -> BoundingBox {
    BoundingBox { x: pos.x, y: pos.y, width: (size.x * SUBUNITS) as i64, height: (size.y * SUBUNITS) as i64 }
}

/// A body one tile wide whose bottom edge lies exactly on the boundary
/// between two rows of the grid, with ground below it, keeps its height
/// under the gravity step.
pub proof fn lemma_body_rests_on_row(pos: Point, size: UPoint, tiles: Seq<MapTile>, rest_on_full_tile: bool)
    requires
        pos.wf(),
        size.x == 16,
        0 < size.y <= 64,
        on_grid(pos.x + SMALL_EXTENT),
        on_grid(pos.y + size.y * SUBUNITS),
        (pos.y + size.y * SUBUNITS) % (TILE_SIZE as int) == 0,
        below_spec(pos, size, tiles) is Some,
    ensures
        settled_y(body_at(pos, size), below_spec(pos, size, tiles), rest_on_full_tile) == pos.y,
{
    let x = pos.x + SMALL_EXTENT;
    let y = pos.y + size.y * SUBUNITS;
    lemma_cell_of_on_grid(x);
    lemma_cell_of_on_grid(y);
    let col = cell_of(x);
    let row = cell_of(y);
    let ground = ground_at(tiles, col, row).unwrap();
    let body = body_at(pos, size);
    assert(cell(col, row).y as int == row);
    assert(cell(col, row).x as int == col);
    if col >= 1 {
        assert(cell(col - 1, row).x as int == col - 1);
    }
    assert(ground.y == row * TILE_SIZE);
    assert(body.overlap_x2(ground) >= 0);
    lemma_resting_is_fixed(body, ground, rest_on_full_tile);
}

/// A goomba whose bottom edge, after its patrol step, lies exactly on the
/// boundary between two rows of the grid, with ground below it, keeps its
/// height through its tick: resting on a tile is a fixed point of gravity.
pub proof fn lemma_goomba_rests_on_row(g: Enemy, tiles: Seq<MapTile>)
    requires
        g.wf(),
        g.kind is Goomba,
        on_grid(goomba_moved(g).position.x + SMALL_EXTENT),
        on_grid(goomba_moved(g).position.y + SMALL_EXTENT),
        (goomba_moved(g).position.y + SMALL_EXTENT) % (TILE_SIZE as int) == 0,
        below_spec(goomba_moved(g).position, goomba_size(), tiles) is Some,
    ensures
        goomba_after(g, tiles).position.y == g.position.y,
{
    let m = goomba_moved(g);
    assert(m.body() == body_at(m.position, goomba_size()));
    lemma_body_rests_on_row(m.position, goomba_size(), tiles, false);
}

/// A koopa whose falling collider (16 by 16 in its shell, else 16 by 24),
/// after the stomp check, lies exactly on the boundary between two rows of
/// the grid, with ground below it, keeps its height through its tick.
pub proof fn lemma_koopa_rests_on_row(k: Enemy, player: Player, tiles: Seq<MapTile>, now: u64)
    requires
        k.wf(),
        k.kind is Koopa,
        on_grid(k.position.x + SMALL_EXTENT),
        on_grid(k.position.y + koopa_size(koopa_struck(k, player, now)).y * SUBUNITS),
        (k.position.y + koopa_size(koopa_struck(k, player, now)).y * SUBUNITS) % (TILE_SIZE as int)
            == 0,
        below_spec(k.position, koopa_size(koopa_struck(k, player, now)), tiles) is Some,
    ensures
        koopa_after(k, player, tiles, now).position.y == k.position.y,
{
    let s = koopa_struck(k, player, now);
    assert(koopa_fall_box(s) == body_at(s.position, koopa_size(s)));
    lemma_body_rests_on_row(s.position, koopa_size(s), tiles, true);
}

/// A koopa whose falling collider penetrates the ground below it by exactly
/// one tile counts as already resting: its height does not change, and in
/// its shell it is a fixed point of the whole tick.
pub proof fn lemma_koopa_full_tile_rest(k: Enemy, player: Player, tiles: Seq<MapTile>, now: u64)
    requires
        k.kind is Koopa,
        ({
            let s = koopa_struck(k, player, now);
            below_spec(s.position, koopa_size(s), tiles) matches Some(g) && koopa_fall_box(s).collision(g)
                == Some((Hit::Top, TILE_SIZE))
        }),
    ensures
        koopa_after(k, player, tiles, now).position.y == k.position.y,
        shelled(koopa_struck(k, player, now)) ==> koopa_after(k, player, tiles, now) == koopa_struck(
            k,
            player,
            now,
        ),
        shelled(k) ==> koopa_after(koopa_after(k, player, tiles, now), player, tiles, now)
            == koopa_after(k, player, tiles, now),
{
}

} // verus!
