use platformer::enemies::{settle, GRAVITY};
use platformer::game::Game;
use platformer::geometry::BoundingBox;
use platformer::map::{Block, MapTile};
use platformer::scene::{Direction, Enemy, EnemyKind, Player, Point, UPoint};

fn tile(x: u32, y: u32) -> MapTile {
    MapTile { block: Block::Ground, coordinate: UPoint { x, y } }
}

/// A floor of ground tiles on row 16, columns 0 to 24.
fn floor() -> Vec<MapTile> {
    (0..25).map(|x| tile(x, 16)).collect()
}

fn goomba(x: i64, y: i64, direction: Direction) -> Enemy {
    Enemy {
        position: Point { x, y },
        kind: EnemyKind::Goomba {
            from: Point { x: 20_000, y: 210_000 },
            to: Point { x: 100_000, y: 210_000 },
            direction,
        },
    }
}

fn koopa(x: i64, y: i64, shell: Option<u64>) -> Enemy {
    Enemy { position: Point { x, y }, kind: EnemyKind::Koopa { direction: Direction::Forward, shell } }
}

fn far_player() -> Player {
    Player::new(Point { x: 350_000, y: 0 })
}

#[test]
fn goomba_patrol_stays_near_bounds() {
    let tiles = floor();
    let player = far_player();
    let mut gs = vec![goomba(64_000, 240_000, Direction::Forward)];
    let mut turns = 0;
    for _ in 0..3000 {
        let before = gs[0];
        let (next, hits) = Game::update_goombas(gs, &player, &tiles);
        assert_eq!(hits, 0);
        assert_eq!(next.len(), 1);
        let g = next[0];
        assert!(g.position.x >= 19_800 && g.position.x <= 100_200);
        // resting on the floor, the gravity step never moves it
        assert_eq!(g.position.y, 240_000);
        let (EnemyKind::Goomba { direction: d0, .. }, EnemyKind::Goomba { direction: d1, .. }) =
            (before.kind, g.kind)
        else {
            panic!("not a goomba")
        };
        let crossed = g.position.x > 100_000 || g.position.x < 20_000;
        assert_eq!(d0 != d1, crossed);
        if crossed {
            turns += 1;
        }
        gs = next;
    }
    assert!(turns >= 2);
}

#[test]
fn goomba_first_steps() {
    let tiles = floor();
    let (gs, _) = Game::update_goombas(vec![goomba(100_000, 240_000, Direction::Forward)], &far_player(), &tiles);
    assert_eq!(gs[0].position, Point { x: 100_200, y: 240_000 });
    assert!(matches!(gs[0].kind, EnemyKind::Goomba { direction: Direction::Backward, .. }));
    let (gs, _) = Game::update_goombas(gs, &far_player(), &tiles);
    assert_eq!(gs[0].position.x, 100_000);
    assert!(matches!(gs[0].kind, EnemyKind::Goomba { direction: Direction::Backward, .. }));
}

#[test]
fn stomped_goomba_is_removed_without_hit() {
    let tiles = floor();
    let player = Player::new(Point { x: 64_000, y: 226_000 });
    let others = goomba(20_000, 240_000, Direction::Forward);
    let (gs, hits) = Game::update_goombas(
        vec![others, goomba(64_000, 240_000, Direction::Forward)],
        &player,
        &tiles,
    );
    assert_eq!(hits, 0);
    assert_eq!(gs.len(), 1);
    assert_eq!(gs[0].position.x, 20_200);
}

#[test]
fn goomba_side_contact_hurts() {
    let tiles = floor();
    let player = Player::new(Point { x: 50_000, y: 240_000 });
    let (gs, hits) = Game::update_goombas(vec![goomba(64_000, 240_000, Direction::Forward)], &player, &tiles);
    assert_eq!(hits, 1);
    assert_eq!(gs.len(), 1);
}

#[test]
fn goomba_without_ground_falls() {
    let (gs, _) = Game::update_goombas(vec![goomba(64_000, 100_000, Direction::Forward)], &far_player(), &[]);
    assert_eq!(gs[0].position, Point { x: 64_200, y: 100_000 + GRAVITY });
}

#[test]
fn goomba_sunk_into_ground_is_pushed_up() {
    let tiles = floor();
    // bottom at 259, three units into row 16
    let (gs, _) = Game::update_goombas(vec![goomba(64_000, 243_000, Direction::Forward)], &far_player(), &tiles);
    assert_eq!(gs[0].position.y, 240_000);
}

#[test]
fn koopa_walks_backward_on_ground() {
    let tiles = floor();
    let (ks, hits) = Game::update_koopas(vec![koopa(200_000, 232_000, None)], &far_player(), &tiles, 7);
    assert_eq!(hits, 0);
    assert_eq!(ks[0], koopa(199_850, 232_000, None));
}

#[test]
fn stomped_koopa_withdraws_into_shell() {
    let tiles = floor();
    let player = Player::new(Point { x: 200_000, y: 218_000 });
    let (ks, hits) = Game::update_koopas(vec![koopa(200_000, 232_000, None)], &player, &tiles, 1234);
    assert_eq!(hits, 0);
    // in its shell it falls with the smaller collider and stops walking
    assert_eq!(ks[0], koopa(200_000, 232_000 + GRAVITY, Some(1234)));
}

#[test]
fn shelled_koopa_does_not_hurt() {
    let tiles = floor();
    let player = Player::new(Point { x: 186_000, y: 240_000 });
    let walking = Game::update_koopas(vec![koopa(200_000, 240_000, None)], &player, &tiles, 9);
    assert_eq!(walking.1, 1);
    let (ks, hits) = Game::update_koopas(vec![koopa(200_000, 240_000, Some(5))], &player, &tiles, 9);
    assert_eq!(hits, 0);
    assert_eq!(ks[0], koopa(200_000, 240_000, Some(5)));
    let (ks, hits) = Game::update_koopas(ks, &player, &tiles, 10);
    assert_eq!(hits, 0);
    assert_eq!(ks[0], koopa(200_000, 240_000, Some(5)));
}

#[test]
fn piranha_hurts_on_any_face() {
    let piranha = Enemy { position: Point { x: 112_000, y: 200_000 }, kind: EnemyKind::Piranha };
    let above = Player::new(Point { x: 112_000, y: 190_000 });
    let (ps, hits) = Game::update_piranhas(vec![piranha], &above, &[]);
    assert_eq!(hits, 1);
    assert_eq!(ps, vec![piranha]);
    let (_, hits) = Game::update_piranhas(vec![piranha], &far_player(), &[]);
    assert_eq!(hits, 0);
}

#[test]
fn resting_body_keeps_its_height() {
    let body = BoundingBox::new(64_000, 240_000, 16_000, 16_000);
    let ground = BoundingBox::new(64_000, 256_000, 32_000, 16_000);
    assert_eq!(settle(body, Some(ground), false), 240_000);
    assert_eq!(settle(body, Some(ground), true), 240_000);
    let sunk = BoundingBox::new(64_000, 245_000, 16_000, 16_000);
    let once = settle(sunk, Some(ground), false);
    assert_eq!(once, 240_000);
    let again = settle(BoundingBox::new(64_000, once, 16_000, 16_000), Some(ground), false);
    assert_eq!(again, once);
    assert_eq!(settle(body, None, false), 240_000 + GRAVITY);
}

#[test]
fn full_tile_overlap_counts_as_resting_for_koopas() {
    let body = BoundingBox::new(0, 0, 16_000, 16_000);
    let ground = BoundingBox::new(0, 0, 16_000, 16_000);
    assert_eq!(settle(body, Some(ground), true), 0);
    assert_eq!(settle(body, Some(ground), false), -16_000);
}

#[test]
fn sunk_koopa_is_pushed_up_and_walks() {
    let tiles = floor();
    let (ks, hits) = Game::update_koopas(vec![koopa(200_000, 235_000, None)], &far_player(), &tiles, 3);
    assert_eq!(hits, 0);
    assert_eq!(ks[0], koopa(199_850, 232_000, None));
}
