use platformer::game::{partition_enemies, FrameState, Game, TickEvents, TickOutcome};
use platformer::map::{Block, MapTile};
use platformer::motion::{ConfigError, Intents, Physics, MAX_RATE};
use platformer::scene::{Camera, Direction, Enemy, EnemyKind, Entity, EntityKind, Player, Point, Scene, UPoint};

fn tile(x: u32, y: u32) -> MapTile {
    MapTile { block: Block::Ground, coordinate: UPoint { x, y } }
}

fn floor() -> Vec<MapTile> {
    (0..25).map(|x| tile(x, 16)).collect()
}

fn idle() -> Intents {
    Intents { move_left: false, move_right: false, jump: false, interact: false }
}

fn scene(player_at: Point, enemies: Vec<Enemy>, tiles: Vec<MapTile>) -> Scene {
    Scene {
        camera: Camera::new(Point { x: 0, y: 0 }),
        entities: Vec::new(),
        enemies,
        player: Player::new(player_at),
        tiles,
    }
}

fn mixed_enemies() -> Vec<Enemy> {
    vec![
        Enemy { position: Point { x: 112_000, y: 40_000 }, kind: EnemyKind::Piranha },
        Enemy {
            position: Point { x: 64_000, y: 240_000 },
            kind: EnemyKind::Goomba {
                from: Point { x: 20_000, y: 0 },
                to: Point { x: 100_000, y: 0 },
                direction: Direction::Forward,
            },
        },
        Enemy {
            position: Point { x: 200_000, y: 232_000 },
            kind: EnemyKind::Koopa { direction: Direction::Forward, shell: None },
        },
        Enemy {
            position: Point { x: 30_000, y: 100_000 },
            kind: EnemyKind::Goomba {
                from: Point { x: 20_000, y: 0 },
                to: Point { x: 100_000, y: 0 },
                direction: Direction::Backward,
            },
        },
    ]
}

#[test]
fn physics_rejects_bad_constants() {
    assert_eq!(Physics::new(300, 1000, 2000, 5000, 30), Ok(Physics::standard()));
    assert_eq!(Physics::new(-1, 1000, 2000, 5000, 30), Err(ConfigError::NotPositive));
    assert_eq!(Physics::new(300, 1000, 0, 5000, 30), Err(ConfigError::NotPositive));
    assert_eq!(Physics::new(300, 1000, 2000, MAX_RATE + 1, 30), Err(ConfigError::TooLarge));
    assert_eq!(Physics::new(300, 1000, 2000, MAX_RATE, 30).map(|p| p.max_jump_speed), Ok(MAX_RATE));
    assert_eq!(Physics::new(300, 1000, 2000, 16_001, 30).map(|p| p.max_jump_speed), Ok(16_001));
}

#[test]
fn walking_on_ground() {
    let mut game = Game::new(Physics::standard());
    let mut s = scene(Point { x: 100_000, y: 240_000 }, Vec::new(), floor());
    let right = Intents { move_right: true, ..idle() };
    game.move_player(&mut s, &right);
    let p = s.player;
    assert_eq!(p.position, Point { x: 100_300, y: 240_000 });
    assert_eq!((p.move_velocity, p.jump_velocity, p.fall_velocity, p.can_jump), (300, 0, 0, true));
    assert_eq!(p.direction, Direction::Forward);
    for _ in 0..5 {
        game.move_player(&mut s, &right);
    }
    // accelerates toward the top speed without passing it: 600, 900, then 1000
    assert_eq!(s.player.move_velocity, 1000);
    game.move_player(&mut s, &idle());
    assert_eq!(s.player.move_velocity, 0);
}

#[test]
fn top_speed_is_never_passed() {
    let mut game = Game::new(Physics::standard());
    let mut s = scene(Point { x: 100_000, y: 240_000 }, Vec::new(), floor());
    let left = Intents { move_left: true, ..idle() };
    let mut seen = Vec::new();
    for _ in 0..5 {
        game.move_player(&mut s, &left);
        seen.push(s.player.move_velocity);
    }
    assert_eq!(seen, vec![-300, -600, -900, -1000, -1000]);
    assert_eq!(s.player.direction, Direction::Backward);
}

#[test]
fn fall_speed_is_capped() {
    let mut game = Game::new(Physics::standard());
    let mut s = scene(Point { x: 100_000, y: 0 }, Vec::new(), Vec::new());
    s.player.fall_velocity = 1_990;
    game.move_player(&mut s, &idle());
    assert_eq!(s.player.fall_velocity, 2_000);
    assert_eq!(s.player.jump_velocity, -2_000);
    assert_eq!(s.player.position.y, 2_000);
    game.move_player(&mut s, &idle());
    assert_eq!(s.player.fall_velocity, 2_000);
    assert_eq!(s.player.jump_velocity, -2_000);
    assert_eq!(s.player.position.y, 4_000);
}

#[test]
fn jumping_then_rising() {
    let mut game = Game::new(Physics::standard());
    let mut s = scene(Point { x: 100_000, y: 240_000 }, Vec::new(), floor());
    let jump = Intents { jump: true, ..idle() };
    game.move_player(&mut s, &jump);
    let p = s.player;
    assert_eq!(p.position, Point { x: 100_000, y: 235_030 });
    assert_eq!((p.jump_velocity, p.fall_velocity, p.can_jump), (4_970, 30, false));
    game.move_player(&mut s, &jump);
    let p = s.player;
    // rises by 4.97, falls by 0.06
    assert_eq!(p.position.y, 235_030 - 4_970 + 60);
    assert_eq!((p.jump_velocity, p.fall_velocity), (4_910, 60));
}

#[test]
fn wall_reverses_horizontal_velocity() {
    let mut game = Game::new(Physics::standard());
    let mut tiles = floor();
    tiles.push(tile(7, 15));
    let mut s = scene(Point { x: 100_000, y: 240_000 }, Vec::new(), tiles);
    game.move_player(&mut s, &Intents { move_right: true, ..idle() });
    assert_eq!(s.player.move_velocity, -300);
    assert_eq!(s.player.position.x, 99_700);
}

#[test]
fn death_then_game_over() {
    let mut game = Game::new(Physics::standard());
    let piranha = Enemy { position: Point { x: 100_000, y: 240_000 }, kind: EnemyKind::Piranha };
    let mut s = scene(Point { x: 100_000, y: 240_000 }, vec![piranha], floor());
    assert!(Game::is_simulable(&s));
    assert_eq!(game.update(&mut s, &idle(), 1_000), TickOutcome::Died);
    assert_eq!(game.frame, FrameState::Dying { since: 1_000 });
    let frozen = s.clone();
    let run = Intents { move_right: true, jump: true, ..idle() };
    assert_eq!(game.update(&mut s, &run, 2_000), TickOutcome::Frozen);
    assert_eq!(game.update(&mut s, &run, 2_999), TickOutcome::Frozen);
    assert_eq!(s.player, frozen.player);
    assert_eq!(s.enemies, frozen.enemies);
    assert_eq!(game.update(&mut s, &run, 3_000), TickOutcome::GameOver);
    assert_eq!(game.frame, FrameState::GameOver);
    assert_eq!(game.update(&mut s, &run, 9_000), TickOutcome::GameOver);
    assert_eq!(s.player, frozen.player);
}

#[test]
fn quiet_tick_keeps_running() {
    let mut game = Game::new(Physics::standard());
    let mut s = scene(Point { x: 300_000, y: 240_000 }, mixed_enemies(), floor());
    assert_eq!(game.update(&mut s, &idle(), 5), TickOutcome::Running);
    assert_eq!(game.frame, FrameState::Alive);
    // merged in group order: goombas, koopas, piranhas
    assert!(matches!(s.enemies[0].kind, EnemyKind::Goomba { .. }));
    assert!(matches!(s.enemies[1].kind, EnemyKind::Goomba { .. }));
    assert!(matches!(s.enemies[2].kind, EnemyKind::Koopa { .. }));
    assert!(matches!(s.enemies[3].kind, EnemyKind::Piranha));
    assert_eq!(s.enemies[0].position, Point { x: 64_200, y: 240_000 });
    assert_eq!(s.enemies[1].position, Point { x: 29_800, y: 100_982 });
    // the camera follows a player past the middle of the view
    assert_eq!(s.camera.position.x, 100_000);
}

#[test]
fn same_snapshot_gives_same_tick() {
    let base = scene(Point { x: 60_000, y: 226_000 }, mixed_enemies(), floor());
    let mut a = base.clone();
    let mut b = base.clone();
    let mut ga = Game::new(Physics::standard());
    let mut gb = Game::new(Physics::standard());
    let ra = ga.update(&mut a, &idle(), 77);
    let rb = gb.update(&mut b, &idle(), 77);
    assert_eq!(ra, rb);
    assert_eq!(a.enemies, b.enemies);
    assert_eq!(a.player, b.player);
    assert_eq!(ga, gb);
}

#[test]
fn grouped_update_matches_sequential() {
    let base = scene(Point { x: 200_000, y: 218_000 }, mixed_enemies(), floor());
    let mut seq_scene = base.clone();
    let mut seq_game = Game::new(Physics::standard());
    let died = Game::update_enemies(&mut seq_game, &mut seq_scene, 40);

    let mut par_scene = base.clone();
    let mut par_game = Game::new(Physics::standard());
    let (g, k, p) = partition_enemies(&par_scene.enemies);
    assert_eq!((g.len(), k.len(), p.len()), (2, 1, 1));
    let player = par_scene.player;
    let pr = Game::update_piranhas(p, &player, &par_scene.tiles);
    let kr = Game::update_koopas(k, &player, &par_scene.tiles, 40);
    let gr = Game::update_goombas(g, &player, &par_scene.tiles);
    let died2 = par_game.apply_enemy_groups(&mut par_scene, gr, kr, pr, 40);
    assert_eq!(died, died2);
    assert_eq!(seq_scene.enemies, par_scene.enemies);
    assert!(matches!(seq_scene.enemies[2].kind, EnemyKind::Koopa { shell: Some(40), .. }));
}

#[test]
fn pipe_with_interact_enters_segment() {
    let mut game = Game::new(Physics::standard());
    let mut s = scene(Point { x: 110_000, y: 208_000 }, mixed_enemies(), vec![tile(7, 14)]);
    s.entities.push(Entity { position: UPoint { x: 104, y: 224 }, kind: EntityKind::Pipe { id: 1 } });
    let before = s.enemies.clone();
    assert_eq!(game.update(&mut s, &idle(), 1), TickOutcome::Running);
    let mut s = scene(Point { x: 110_000, y: 208_000 }, before.clone(), vec![tile(7, 14)]);
    s.entities.push(Entity { position: UPoint { x: 104, y: 224 }, kind: EntityKind::Pipe { id: 1 } });
    let interact = Intents { interact: true, ..idle() };
    assert_eq!(game.update(&mut s, &interact, 2), TickOutcome::EnterSegment { id: 1 });
    assert_eq!(s.enemies, before);
    assert_eq!(s.player.position, Point { x: 110_000, y: 208_000 });
}

#[test]
fn tick_reports_its_events() {
    let mut game = Game::new(Physics::standard());
    // the player stands on a goomba and next to a piranha
    let goomba = Enemy {
        position: Point { x: 64_000, y: 240_000 },
        kind: EnemyKind::Goomba {
            from: Point { x: 20_000, y: 0 },
            to: Point { x: 100_000, y: 0 },
            direction: Direction::Forward,
        },
    };
    let mut tiles = floor();
    tiles.push(tile(4, 15));
    let mut s = scene(Point { x: 64_000, y: 226_000 }, vec![goomba], tiles.clone());
    assert_eq!(game.update(&mut s, &idle(), 10), TickOutcome::Running);
    assert_eq!(game.events, TickEvents { enemies_killed: 1, player_hits: 0, player_died: false });
    assert!(s.enemies.is_empty());

    let piranha = Enemy { position: Point { x: 100_000, y: 240_000 }, kind: EnemyKind::Piranha };
    let mut s = scene(Point { x: 100_000, y: 240_000 }, vec![piranha, piranha], floor());
    assert_eq!(game.update(&mut s, &idle(), 20), TickOutcome::Died);
    assert_eq!(game.events, TickEvents { enemies_killed: 0, player_hits: 2, player_died: true });
    assert_eq!(game.update(&mut s, &idle(), 30), TickOutcome::Frozen);
    assert_eq!(game.events, TickEvents { enemies_killed: 0, player_hits: 0, player_died: false });
}

#[test]
fn enemy_update_does_not_depend_on_life_cycle() {
    let piranha = Enemy { position: Point { x: 100_000, y: 240_000 }, kind: EnemyKind::Piranha };
    let base = scene(Point { x: 100_000, y: 240_000 }, vec![piranha], floor());
    let mut alive = Game::new(Physics::standard());
    let mut dying = Game::new(Physics::standard());
    dying.frame = FrameState::Dying { since: 3 };
    let mut a = base.clone();
    let mut b = base.clone();
    let hit_a = Game::update_enemies(&mut alive, &mut a, 50);
    let hit_b = Game::update_enemies(&mut dying, &mut b, 50);
    assert!(hit_a && hit_b);
    assert_eq!(a.enemies, b.enemies);
    assert_eq!(alive.frame, FrameState::Dying { since: 50 });
    assert_eq!(dying.frame, FrameState::Dying { since: 3 });
}
