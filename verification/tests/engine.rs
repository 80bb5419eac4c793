use bevy::math::{Vec2 as EngineVec2, Vec3 as EngineVec3};
use bevy::sprite::collide_aabb::{collide as engine_collide, Collision as EngineCollision};
use bevy::time::{Timer, TimerMode};
use bubble_rustle::collision::{collide, Collision, Vec2};
use bubble_rustle::splash::SplashTimer;
use std::time::Duration;

fn engine_side(a: (i64, i64, i64, i64), b: (i64, i64, i64, i64)) -> Option<Collision> {
    let hit = engine_collide(
        EngineVec3::new(a.0 as f32, a.1 as f32, 0.0),
        EngineVec2::new(a.2 as f32, a.3 as f32),
        EngineVec3::new(b.0 as f32, b.1 as f32, 0.0),
        EngineVec2::new(b.2 as f32, b.3 as f32),
    );
    match hit {
        Some(EngineCollision::Left) => Some(Collision::Left),
        Some(EngineCollision::Right) => Some(Collision::Right),
        Some(EngineCollision::Top) => Some(Collision::Top),
        Some(EngineCollision::Bottom) => Some(Collision::Bottom),
        Some(EngineCollision::Inside) => Some(Collision::Inside),
        None => None,
    }
}

#[test]
fn collide_agrees_with_the_engine_on_a_grid() {
    let sizes = [1i64, 2, 3, 5, 8];
    let mut checked = 0usize;
    for ax in -6i64..=6 {
        for ay in -6i64..=6 {
            for aw in sizes {
                for ah in sizes {
                    for bw in sizes {
                        for bh in sizes {
                            let a = (ax, ay, aw, ah);
                            let b = (0, 0, bw, bh);
                            let ours = collide(
                                Vec2::new(a.0, a.1),
                                Vec2::new(a.2, a.3),
                                Vec2::new(b.0, b.1),
                                Vec2::new(b.2, b.3),
                            );
                            assert_eq!(ours, engine_side(a, b), "a = {:?}, b = {:?}", a, b);
                            checked += 1;
                        }
                    }
                }
            }
        }
    }
    assert_eq!(checked, 13 * 13 * 625);
}

#[test]
fn the_splash_timer_agrees_with_the_engine() {
    let steps: [u64; 9] =
        [0, 16_666_667, 1, 1_000_000_000, 983_333_331, 0, 1, 5_000_000_000, 16_666_667];
    let mut ours = SplashTimer::new();
    let mut theirs = Timer::new(Duration::from_nanos(2_000_000_000), TimerMode::Once);
    for delta in steps {
        let finished = ours.tick(delta);
        theirs.tick(Duration::from_nanos(delta));
        assert_eq!(finished, theirs.finished());
        assert_eq!(ours.elapsed as u128, theirs.elapsed().as_nanos());
    }
    assert!(ours.finished);
}
