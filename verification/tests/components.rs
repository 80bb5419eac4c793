use bubble_rustle::collision::{Aabb, Collision, Solid, Vec2};
use bubble_rustle::components::{
    Bubble, BubbleSize, Hook, Movement, Player, Reward, RewardScore,
};
use bubble_rustle::config::COORD_LIMIT;

fn bubble(x: i64, y: i64, size: u32) -> Bubble {
    Bubble::new(Vec2::new(x, y), BubbleSize { size }, 200)
}

#[test]
fn a_new_bubble_rises_at_the_speed_of_its_size() {
    let b = bubble(7, -9, 4);
    assert_eq!(b.position, Vec2::new(7, -9));
    assert_eq!(b.movement, Movement { v_x: 200, v_y: 800, a: 10 });
    assert_eq!(b.size, BubbleSize { size: 4 });
}

#[test]
fn a_bubble_is_ten_pixels_wide_per_size_tier() {
    assert_eq!(BubbleSize { size: 1 }.extent(), Vec2::new(600, 600));
    assert_eq!(BubbleSize { size: 4 }.extent(), Vec2::new(2400, 2400));
    assert_eq!(BubbleSize { size: 0 }.extent(), Vec2::new(0, 0));
    assert_eq!(
        BubbleSize { size: u32::MAX }.extent(),
        Vec2::new(600 * 4_294_967_295, 600 * 4_294_967_295)
    );
    assert_eq!(
        bubble(5, 6, 3).bounds(),
        Aabb { position: Vec2::new(5, 6), extent: Vec2::new(1800, 1800) }
    );
}

#[test]
fn bounce_speed_is_two_hundred_per_size_tier() {
    assert_eq!(BubbleSize { size: 1 }.bounce_speed(), 200);
    assert_eq!(BubbleSize { size: 3 }.bounce_speed(), 600);
    assert_eq!(BubbleSize { size: u32::MAX }.bounce_speed(), 200 * 4_294_967_295);
}

#[test]
fn a_large_bubble_splits_in_two() {
    let children = bubble(30, 40, 4).split();
    assert_eq!(children.len(), 2);
    assert_eq!(
        children[0],
        Bubble {
            position: Vec2::new(30, 40),
            movement: Movement { v_x: -200, v_y: 600, a: 10 },
            size: BubbleSize { size: 3 },
        }
    );
    assert_eq!(
        children[1],
        Bubble {
            position: Vec2::new(30, 40),
            movement: Movement { v_x: 200, v_y: 600, a: 10 },
            size: BubbleSize { size: 3 },
        }
    );
}

#[test]
fn a_bubble_of_size_three_splits_into_size_two() {
    let children = bubble(0, 0, 3).split();
    assert_eq!(children.len(), 2);
    assert_eq!(children[0].size.size, 2);
    assert_eq!(children[1].size.size, 2);
    assert_eq!(children[0].movement.v_x, -children[1].movement.v_x);
    assert_eq!(children[0].movement.v_y, 400);
}

#[test]
fn a_small_bubble_leaves_no_children() {
    assert!(bubble(0, 0, 2).split().is_empty());
    assert!(bubble(0, 0, 1).split().is_empty());
    assert!(bubble(0, 0, 0).split().is_empty());
}

#[test]
fn the_reward_is_the_highest_divided_by_the_size() {
    let expected = [(1u32, 1200usize), (2, 600), (3, 400), (4, 300), (5, 240), (7, 171), (1201, 0)];
    for (size, points) in expected {
        let reward = bubble(11, 12, size).drop_reward();
        assert_eq!(
            reward,
            Reward {
                position: Vec2::new(11, 12),
                movement: Movement { v_x: 0, v_y: -300, a: 0 },
                score: RewardScore { score: points },
            }
        );
    }
}

#[test]
fn movement_advances_then_slows() {
    let mut movement = Movement { v_x: 200, v_y: 800, a: 10 };
    let mut position = Vec2::new(0, 0);
    movement.advance(&mut position);
    assert_eq!(position, Vec2::new(200, 800));
    assert_eq!(movement, Movement { v_x: 200, v_y: 790, a: 10 });
    movement.advance(&mut position);
    assert_eq!(position, Vec2::new(400, 1590));
    assert_eq!(movement, Movement { v_x: 200, v_y: 780, a: 10 });
}

#[test]
fn movement_advances_up_to_the_last_integer() {
    let mut movement = Movement { v_x: 1, v_y: -1, a: 1 };
    let mut position = Vec2::new(i64::MAX - 1, i64::MIN + 1);
    movement.advance(&mut position);
    assert_eq!(position, Vec2::new(i64::MAX, i64::MIN));
    assert_eq!(movement.v_y, -2);
}

#[test]
fn side_walls_turn_the_horizontal_speed() {
    let size = BubbleSize { size: 3 };
    let mut m = Movement { v_x: 200, v_y: -50, a: 10 };
    m.bounce(size, Collision::Left);
    assert_eq!(m, Movement { v_x: -200, v_y: -50, a: 10 });
    m.bounce(size, Collision::Right);
    assert_eq!(m, Movement { v_x: 200, v_y: -50, a: 10 });
}

#[test]
fn a_floor_sends_the_bubble_up_at_the_speed_of_its_size() {
    let size = BubbleSize { size: 3 };
    let mut falling = Movement { v_x: 200, v_y: -950, a: 10 };
    falling.bounce(size, Collision::Top);
    assert_eq!(falling, Movement { v_x: 200, v_y: 600, a: 10 });
    let mut rising = Movement { v_x: 200, v_y: 70, a: 10 };
    rising.bounce(size, Collision::Top);
    assert_eq!(rising, Movement { v_x: 200, v_y: 600, a: 10 });
}

#[test]
fn a_ceiling_turns_the_vertical_speed() {
    let mut m = Movement { v_x: 200, v_y: 350, a: 10 };
    m.bounce(BubbleSize { size: 3 }, Collision::Bottom);
    assert_eq!(m, Movement { v_x: 200, v_y: -350, a: 10 });
}

#[test]
fn inside_a_wall_nothing_changes() {
    let mut m = Movement { v_x: 200, v_y: 350, a: 10 };
    m.bounce(BubbleSize { size: 3 }, Collision::Inside);
    assert_eq!(m, Movement { v_x: 200, v_y: 350, a: 10 });
}

#[test]
fn the_hook_leaves_from_the_player() {
    let hook = Hook::new(Vec2::new(120, -22275));
    assert_eq!(
        hook,
        Hook {
            position: Vec2::new(120, -22275),
            extent: Vec2::new(528, 1125),
            movement: Movement { v_x: 0, v_y: 100, a: 0 },
        }
    );
    assert_eq!(
        hook.bounds(),
        Aabb { position: Vec2::new(120, -22275), extent: Vec2::new(528, 1125) }
    );
}

#[test]
fn the_hook_rises_and_its_foot_stays() {
    let mut hook = Hook::new(Vec2::new(0, -22275));
    hook.rise();
    assert_eq!(hook.position, Vec2::new(0, -22175));
    assert_eq!(hook.extent, Vec2::new(528, 1325));
    hook.rise();
    assert_eq!(hook.position, Vec2::new(0, -22075));
    assert_eq!(hook.extent, Vec2::new(528, 1525));
    // twice the foot: 2 * y - height
    assert_eq!(2 * hook.position.y - hook.extent.y, 2 * -22275 - 1125);
}

#[test]
fn player_and_reward_have_fixed_sizes() {
    assert_eq!(Player::extent(), Vec2::new(4320, 2250));
    assert_eq!(Reward::extent(), Vec2::new(900, 900));
    assert_eq!(Player::new(), Player { position: Vec2::new(0, -22275) });
    assert_eq!(
        Player::new().bounds(),
        Aabb { position: Vec2::new(0, -22275), extent: Vec2::new(4320, 2250) }
    );
    let reward = bubble(1, 2, 4).drop_reward();
    assert_eq!(
        reward.bounds(),
        Aabb { position: Vec2::new(1, 2), extent: Vec2::new(900, 900) }
    );
}

#[test]
fn bounded_records_are_within_the_limits() {
    assert!(bubble(0, 0, 4).is_bounded());
    assert!(!bubble(COORD_LIMIT + 1, 0, 4).is_bounded());
    assert!(Hook::new(Vec2::new(0, 0)).is_bounded());
    assert!(!Hook::new(Vec2::new(0, -COORD_LIMIT - 1)).is_bounded());
    assert!(Movement { v_x: COORD_LIMIT, v_y: -COORD_LIMIT, a: 0 }.is_bounded());
    assert!(!Movement { v_x: 0, v_y: 0, a: COORD_LIMIT + 1 }.is_bounded());
    let mut reward = bubble(0, 0, 1).drop_reward();
    assert!(reward.is_bounded());
    reward.score.score = 1_000_000_001;
    assert!(!reward.is_bounded());
}
