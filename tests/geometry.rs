use platformer::geometry::{BoundingBox, Hit};
use platformer::map::{Block, MapTile};
use platformer::scene::UPoint;

fn tile(x: u32, y: u32) -> MapTile {
    MapTile { block: Block::Ground, coordinate: UPoint { x, y } }
}

#[test]
fn test_collision() {
    let a = tile(16, 0);
    let b = tile(16, 0);
    let r = a.collider().collides_with(&b.collider());
    println!("{:?}", r);
    assert_eq!(r, Some((Hit::Top, 16_000)));
}

#[test]
fn tile_collider_is_in_world_space() {
    let c = tile(3, 2).collider();
    assert_eq!(c, BoundingBox::new(48_000, 32_000, 16_000, 16_000));
}

#[test]
fn apart_boxes_do_not_collide() {
    let a = BoundingBox::new(0, 0, 16_000, 16_000);
    let b = BoundingBox::new(16_001, 0, 16_000, 16_000);
    assert_eq!(a.collides_with(&b), None);
    assert_eq!(b.collides_with(&a), None);
}

#[test]
fn touching_edges_count_as_overlap() {
    let a = BoundingBox::new(0, 0, 16_000, 16_000);
    let b = BoundingBox::new(16_000, 0, 16_000, 16_000);
    assert_eq!(a.collides_with(&b), Some((Hit::Left, 0)));
    assert_eq!(b.collides_with(&a), Some((Hit::Right, 0)));
}

#[test]
fn horizontal_penetration_reports_side_faces() {
    let a = BoundingBox::new(10_000, 0, 16_000, 16_000);
    let b = BoundingBox::new(0, 2_000, 16_000, 16_000);
    // dx = 10, overlap_x = 6; dy = -2, overlap_y = 14
    assert_eq!(a.collides_with(&b), Some((Hit::Right, 6_000)));
    assert_eq!(b.collides_with(&a), Some((Hit::Left, 6_000)));
}

#[test]
fn vertical_penetration_reports_top_and_bottom() {
    let a = BoundingBox::new(1_000, 0, 16_000, 16_000);
    let b = BoundingBox::new(0, 12_000, 16_000, 16_000);
    // overlap_x = 15, overlap_y = 4
    assert_eq!(a.collides_with(&b), Some((Hit::Top, 4_000)));
    assert_eq!(b.collides_with(&a), Some((Hit::Bottom, 4_000)));
}

#[test]
fn symmetric_detection_and_mirrored_faces() {
    let boxes = [
        BoundingBox::new(0, 0, 16_000, 16_000),
        BoundingBox::new(5_000, 9_000, 16_000, 24_000),
        BoundingBox::new(-7_000, 3_000, 32_000, 16_000),
        BoundingBox::new(40_000, 40_000, 16_000, 16_000),
        BoundingBox::new(12_000, -14_000, 16_000, 16_000),
    ];
    let mirror = |h: Hit| match h {
        Hit::Top => Hit::Bottom,
        Hit::Bottom => Hit::Top,
        Hit::Left => Hit::Right,
        Hit::Right => Hit::Left,
    };
    for a in &boxes {
        for b in &boxes {
            let ab = a.collides_with(b);
            let ba = b.collides_with(a);
            assert_eq!(ab.is_some(), ba.is_some());
            if let (Some((h1, d1)), Some((h2, d2))) = (ab, ba) {
                assert_eq!(d1, d2);
                if a != b {
                    assert_eq!(h2, mirror(h1));
                }
            }
        }
    }
}

#[test]
fn equal_penetration_resolves_vertically() {
    // overlap_x = overlap_y = 8
    let a = BoundingBox::new(8_000, 8_000, 16_000, 16_000);
    let b = BoundingBox::new(0, 0, 16_000, 16_000);
    assert_eq!(a.collides_with(&b), Some((Hit::Bottom, 8_000)));
    assert_eq!(b.collides_with(&a), Some((Hit::Top, 8_000)));
}
