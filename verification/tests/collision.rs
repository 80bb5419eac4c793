use bubble_rustle::collision::{
    collide, find_touching, is_small, touches_any, Aabb, Collision, Solid, Vec2,
};
use bubble_rustle::components::Wall;
use bubble_rustle::config::COORD_LIMIT;

fn boxes(a: (i64, i64, i64, i64), b: (i64, i64, i64, i64)) -> Option<Collision> {
    collide(Vec2::new(a.0, a.1), Vec2::new(a.2, a.3), Vec2::new(b.0, b.1), Vec2::new(b.2, b.3))
}

fn wall(x: i64, y: i64, w: i64, h: i64) -> Wall {
    Wall { position: Vec2::new(x, y), extent: Vec2::new(w, h) }
}

#[test]
fn identical_boxes_are_inside() {
    assert_eq!(boxes((1, 1, 1, 1), (1, 1, 1, 1)), Some(Collision::Inside));
}

#[test]
fn nested_boxes_are_inside() {
    assert_eq!(boxes((2, 2, 2, 2), (2, 2, 1, 1)), Some(Collision::Inside));
    assert_eq!(boxes((2, 2, 1, 1), (2, 2, 2, 2)), Some(Collision::Inside));
}

#[test]
fn apart_boxes_do_not_collide() {
    assert_eq!(boxes((0, 0, 2, 2), (10, 0, 2, 2)), None);
    assert_eq!(boxes((0, 0, 2, 2), (0, -10, 2, 2)), None);
}

#[test]
fn boxes_that_only_touch_do_not_collide() {
    assert_eq!(boxes((0, 0, 2, 2), (2, 0, 2, 2)), None);
    assert_eq!(boxes((0, 0, 2, 2), (0, 2, 2, 2)), None);
    assert_eq!(boxes((0, 0, 2, 2), (2, 2, 2, 2)), None);
}

#[test]
fn the_face_is_that_of_the_second_box() {
    assert_eq!(boxes((3, 2, 2, 2), (2, 2, 2, 2)), Some(Collision::Right));
    assert_eq!(boxes((1, 2, 2, 2), (2, 2, 2, 2)), Some(Collision::Left));
    assert_eq!(boxes((2, 3, 2, 2), (2, 2, 2, 2)), Some(Collision::Top));
    assert_eq!(boxes((2, 1, 2, 2), (2, 2, 2, 2)), Some(Collision::Bottom));
}

#[test]
fn on_a_tie_the_horizontal_face_wins() {
    assert_eq!(boxes((1, 1, 2, 2), (2, 2, 2, 2)), Some(Collision::Left));
    assert_eq!(boxes((1, 3, 2, 2), (2, 2, 2, 2)), Some(Collision::Left));
    assert_eq!(boxes((3, 1, 2, 2), (2, 2, 2, 2)), Some(Collision::Right));
    assert_eq!(boxes((3, 3, 2, 2), (2, 2, 2, 2)), Some(Collision::Right));
}

#[test]
fn the_shallower_face_wins() {
    assert_eq!(boxes((6, 6, 4, 4), (5, 4, 4, 4)), Some(Collision::Top));
    assert_eq!(boxes((6, 6, 4, 4), (4, 5, 4, 4)), Some(Collision::Right));
}

#[test]
fn odd_sizes_have_half_unit_edges() {
    // a spans 0.5 .. 1.5, b spans 1.5 .. 2.5: they only touch
    assert_eq!(boxes((1, 0, 1, 1), (2, 0, 1, 1)), None);
    // a spans 0 .. 3, b spans 2.5 .. 3.5: a reaches half a unit into b
    assert_eq!(boxes((0, 0, 6, 6), (3, 0, 1, 1)), Some(Collision::Left));
}

#[test]
fn collide_takes_the_largest_coordinates() {
    assert_eq!(boxes((i64::MAX, i64::MAX, i64::MAX, i64::MAX), (i64::MIN, 0, 2, 2)), None);
    assert_eq!(
        boxes((i64::MAX, i64::MIN, 4, 4), (i64::MAX, i64::MIN, 4, 4)),
        Some(Collision::Inside)
    );
    assert_eq!(
        boxes((i64::MAX - 1, 0, 4, 4), (i64::MAX, 0, 4, 4)),
        Some(Collision::Left)
    );
}

#[test]
fn side_of_is_collide_on_boxes() {
    let a = Aabb { position: Vec2::new(3, 2), extent: Vec2::new(2, 2) };
    let b = Aabb { position: Vec2::new(2, 2), extent: Vec2::new(2, 2) };
    assert_eq!(a.side_of(b), Some(Collision::Right));
    assert_eq!(b.side_of(a), Some(Collision::Left));
}

#[test]
fn find_touching_returns_the_first_of_several() {
    let walls = vec![wall(100, 0, 2, 2), wall(1, 0, 2, 2), wall(0, 1, 2, 2)];
    let target = Aabb { position: Vec2::new(0, 0), extent: Vec2::new(2, 2) };
    assert_eq!(find_touching(&walls, target), Some(1));
    assert!(touches_any(&walls, target));
}

#[test]
fn find_touching_returns_none_without_overlap() {
    let walls = vec![wall(100, 0, 2, 2), wall(0, 100, 2, 2)];
    let target = Aabb { position: Vec2::new(0, 0), extent: Vec2::new(2, 2) };
    assert_eq!(find_touching(&walls, target), None);
    assert!(!touches_any(&walls, target));
    let none: Vec<Wall> = Vec::new();
    assert_eq!(find_touching(&none, target), None);
}

#[test]
fn a_wall_fills_its_extent() {
    let w = wall(5, -7, 20, 30);
    assert_eq!(w.bounds(), Aabb { position: Vec2::new(5, -7), extent: Vec2::new(20, 30) });
}

#[test]
fn small_values_reach_the_limit_and_no_further() {
    assert!(is_small(0));
    assert!(is_small(COORD_LIMIT));
    assert!(is_small(-COORD_LIMIT));
    assert!(!is_small(COORD_LIMIT + 1));
    assert!(!is_small(-COORD_LIMIT - 1));
    assert!(Vec2::new(COORD_LIMIT, -COORD_LIMIT).is_bounded());
    assert!(!Vec2::new(0, i64::MIN).is_bounded());
}
