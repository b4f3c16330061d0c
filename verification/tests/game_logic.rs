use game_tutorial::ai::AI;
use game_tutorial::animation::{
    character_animation_frames, direction_spritesheet_row, enemy_spawn, initialize_enemy,
    initialize_player, random_enemy_spawn,
};
use game_tutorial::components::{Direction, Health, Position, Sprite, Velocity};
use game_tutorial::controls::{
    Controls, InputEvent, Key, LoopControl, MovementCommand, SpawnTimer,
};
use game_tutorial::crash::Crash;
use game_tutorial::geometry::{Point, Rect, POS_MAX, POS_MIN, SIZE_MAX};
use game_tutorial::physics::Physics;
use game_tutorial::renderer::screen_rect;

fn vel(speed: i32, direction: Direction, mo_speed: i32) -> Velocity {
    Velocity { speed, direction, mo_speed }
}

#[test]
fn point_new_clamps_coordinates() {
    assert_eq!(Point::new(3, -4), Point { x: 3, y: -4 });
    assert_eq!(Point::new(i32::MAX, i32::MIN), Point { x: POS_MAX, y: POS_MIN });
    assert_eq!(POS_MAX, i32::MAX / 2);
    assert_eq!(POS_MIN, i32::MIN / 2);
}

#[test]
fn point_offset_saturates() {
    let p = Point::new(10, 20);
    assert_eq!(p.offset(-6, 0), Point { x: 4, y: 20 });
    assert_eq!(p.offset(0, 5).y(), 25);
    let edge = Point::new(POS_MAX, POS_MIN);
    assert_eq!(edge.offset(i32::MAX, i32::MIN), Point { x: POS_MAX, y: POS_MIN });
    assert_eq!(p.add_point(Point::new(400, 300)), Point { x: 410, y: 320 });
}

#[test]
fn rect_new_clamps_size_and_position() {
    let r = Rect::new(0, 0, 0, 0);
    assert_eq!(r.size(), (1, 1));
    let big = Rect::new(i32::MAX, i32::MIN, u32::MAX, 7);
    assert_eq!(big, Rect { x: POS_MAX, y: POS_MIN, w: SIZE_MAX, h: 7 });
    assert_eq!(big.width(), SIZE_MAX);
    assert_eq!(big.height(), 7);
    assert_eq!(big.x(), POS_MAX);
    assert_eq!(big.y(), POS_MIN);
}

#[test]
fn rect_from_center_centres_the_rectangle() {
    let r = Rect::from_center(Point::new(400, 300), 26, 36);
    assert_eq!(r, Rect { x: 387, y: 282, w: 26, h: 36 });
    let odd = Rect::from_center(Point::new(0, 0), 5, 0);
    assert_eq!(odd, Rect { x: -2, y: 0, w: 5, h: 1 });
}

#[test]
fn physics_moves_each_direction() {
    let mut p = Position(Point::new(10, 20));
    Physics::step(&mut p, &vel(6, Direction::Left, 6));
    assert_eq!(p.0, Point { x: 4, y: 20 });
    Physics::step(&mut p, &vel(6, Direction::Right, 6));
    assert_eq!(p.0, Point { x: 10, y: 20 });
    Physics::step(&mut p, &vel(5, Direction::Up, 6));
    assert_eq!(p.0, Point { x: 10, y: 15 });
    Physics::step(&mut p, &vel(5, Direction::Down, 6));
    assert_eq!(p.0, Point { x: 10, y: 20 });
}

#[test]
fn physics_stops_at_the_arena_edge() {
    let mut left = Position(Point::new(-387, 0));
    Physics::step(&mut left, &vel(6, Direction::Left, 6));
    assert_eq!(left.0.x, -387);
    let mut almost = Position(Point::new(-386, 0));
    Physics::step(&mut almost, &vel(6, Direction::Left, 6));
    assert_eq!(almost.0.x, -392);
    let mut right = Position(Point::new(387, 0));
    Physics::step(&mut right, &vel(6, Direction::Right, 6));
    assert_eq!(right.0.x, 387);
    let mut top = Position(Point::new(0, -282));
    Physics::step(&mut top, &vel(6, Direction::Up, 6));
    assert_eq!(top.0.y, -282);
    let mut bottom = Position(Point::new(0, 282));
    Physics::step(&mut bottom, &vel(6, Direction::Down, 6));
    assert_eq!(bottom.0.y, 282);
}

#[test]
fn physics_at_rest_does_not_move() {
    let mut p = Position(Point::new(-100, 77));
    for d in [Direction::Up, Direction::Down, Direction::Left, Direction::Right] {
        Physics::step(&mut p, &vel(0, d, 6));
        assert_eq!(p.0, Point { x: -100, y: 77 });
    }
}

#[test]
fn physics_keeps_entities_in_the_arena() {
    let s = 6;
    let mut p = Position(Point::new(0, 0));
    let dirs = [Direction::Left, Direction::Up, Direction::Right, Direction::Down];
    for k in 0..2000 {
        let d = dirs[(k / 150) % 4];
        Physics::step(&mut p, &vel(s, d, s));
        assert!(-387 - s <= p.0.x && p.0.x <= 387 + s);
        assert!(-282 - s <= p.0.y && p.0.y <= 282 + s);
    }
}

#[test]
fn physics_run_moves_every_entity() {
    let mut ps = vec![Position(Point::new(0, 0)), Position(Point::new(387, 5))];
    let vs = vec![vel(3, Direction::Down, 3), vel(3, Direction::Right, 3)];
    let mut physics = Physics;
    physics.run(&mut ps, &vs);
    assert_eq!(ps[0].0, Point { x: 0, y: 3 });
    assert_eq!(ps[1].0, Point { x: 387, y: 5 });
}

#[test]
fn ai_direction_rolls() {
    assert_eq!(AI::direction_from_roll(0), Direction::Up);
    assert_eq!(AI::direction_from_roll(1), Direction::Down);
    assert_eq!(AI::direction_from_roll(2), Direction::Left);
    assert_eq!(AI::direction_from_roll(3), Direction::Right);
}

#[test]
fn ai_decide_starts_moving_on_zero() {
    let mut v = vel(0, Direction::Right, 4);
    AI::decide(&mut v, 0, 1);
    assert_eq!(v, vel(4, Direction::Down, 4));
    let mut w = vel(0, Direction::Right, 4);
    AI::decide(&mut w, 7, 1);
    assert_eq!(w, vel(0, Direction::Right, 4));
}

#[test]
fn ai_run_keeps_movement_speed() {
    let before: Vec<Velocity> = (0..200).map(|k| vel(0, Direction::Right, 1 + k % 4)).collect();
    let mut after = before.clone();
    let mut ai = AI;
    for _ in 0..20 {
        ai.run(&mut after);
    }
    assert_eq!(after.len(), before.len());
    let mut moved = 0;
    for (b, a) in before.iter().zip(after.iter()) {
        assert_eq!(a.mo_speed, b.mo_speed);
        assert!(a.speed == 0 || a.speed == b.mo_speed);
        if a.speed != 0 {
            moved += 1;
        } else {
            assert_eq!(a.direction, Direction::Right);
        }
    }
    // With 20 rounds at odds 1 in 10, nearly every enemy has started moving.
    assert!(moved > 100);
}

#[test]
fn crash_hits_overlapping_entities() {
    let bodies = vec![
        Point::new(0, 0),
        Point::new(20, 41),
        Point::new(21, 0),
        Point::new(0, -51),
        Point::new(-20, -52),
    ];
    let mut health = Health { health: 100 };
    let mut crash = Crash;
    let hits = crash.run(&mut health, &bodies);
    assert_eq!(hits, vec![1, 3]);
    assert_eq!(health.health, 98);
}

#[test]
fn crash_never_hits_the_player() {
    let bodies = vec![Point::new(5, 5), Point::new(5, 5), Point::new(5, 5)];
    let mut health = Health { health: 3 };
    let hits = Crash.run(&mut health, &bodies);
    assert_eq!(hits, vec![1, 2]);
    assert_eq!(health.health, 1);
    let alone = vec![Point::new(5, 5)];
    let mut h2 = Health { health: 3 };
    assert!(Crash.run(&mut h2, &alone).is_empty());
    assert_eq!(h2.health, 3);
}

#[test]
fn crash_touch_box() {
    let player = Point::new(100, 100);
    assert!(Crash::touches(player, Point::new(120, 100)));
    assert!(!Crash::touches(player, Point::new(121, 100)));
    assert!(Crash::touches(player, Point::new(80, 141)));
    assert!(!Crash::touches(player, Point::new(80, 142)));
    assert!(Crash::touches(player, Point::new(100, 49)));
    assert!(!Crash::touches(player, Point::new(100, 48)));
    // Translation does not matter.
    assert!(Crash::touches(Point::new(0, 0), Point::new(20, 41)));
    assert!(Crash::touches(Point::new(-300, 7), Point::new(-280, 48)));
}

#[test]
fn spritesheet_rows() {
    assert_eq!(direction_spritesheet_row(Direction::Up), 3);
    assert_eq!(direction_spritesheet_row(Direction::Down), 0);
    assert_eq!(direction_spritesheet_row(Direction::Left), 1);
    assert_eq!(direction_spritesheet_row(Direction::Right), 2);
}

#[test]
fn animation_frames_lie_side_by_side() {
    let top = Rect::new(10, 20, 26, 36);
    let frames = character_animation_frames(1, top, Direction::Left);
    assert_eq!(frames.len(), 3);
    for (i, f) in frames.iter().enumerate() {
        assert_eq!(f.spritesheet, 1);
        assert_eq!(f.region, Rect { x: 10 + 26 * i as i32, y: 56, w: 26, h: 36 });
    }
}

#[test]
fn player_starts_at_rest() {
    let p = initialize_player(0);
    assert_eq!(p.position, Position(Point { x: 0, y: 0 }));
    assert_eq!(p.health, Health { health: 100 });
    assert_eq!(p.velocity, vel(0, Direction::Right, 6));
    assert_eq!(p.sprite, Sprite { spritesheet: 0, region: Rect { x: 0, y: 72, w: 26, h: 36 } });
    assert_eq!(p.animation.current_frame, 0);
    assert_eq!(p.animation.up_frames[2].region, Rect { x: 52, y: 108, w: 26, h: 36 });
    assert_eq!(p.animation.down_frames[1].region, Rect { x: 26, y: 0, w: 26, h: 36 });
    assert_eq!(p.animation.left_frames.len(), 3);
    assert_eq!(p.animation.right_frames[0], p.sprite);
}

#[test]
fn enemy_frames_depend_on_kind() {
    let e = enemy_spawn(2, Point::new(5, 6), 3, 4);
    assert_eq!(e.position, Position(Point { x: 5, y: 6 }));
    assert_eq!(e.velocity, vel(0, Direction::Right, 4));
    assert_eq!(e.sprite, Sprite { spritesheet: 2, region: Rect { x: 468, y: 144, w: 52, h: 72 } });
    assert_eq!(e.animation.up_frames[1].region, Rect { x: 520, y: 216, w: 52, h: 72 });
}

#[test]
fn enemy_speed_is_drawn_from_one_to_four() {
    let mut seen = [false; 5];
    for _ in 0..400 {
        let e = initialize_enemy(2, Point::new(0, 0), 1);
        let s = e.velocity.mo_speed;
        assert!((1..5).contains(&s));
        assert_eq!(e.velocity.speed, 0);
        seen[s as usize] = true;
    }
    assert!(seen[1] && seen[2] && seen[3] && seen[4]);
}

#[test]
fn random_enemy_spawn_stays_in_range() {
    for _ in 0..400 {
        let e = random_enemy_spawn(2);
        let p = e.position.0;
        assert!(-400 <= p.x && p.x < 400);
        assert!(-300 <= p.y && p.y < 300);
        let kind = e.sprite.region.x / 156;
        assert!((0..4).contains(&kind));
        assert_eq!(e.sprite.region.x % 156, 0);
        assert!((1..5).contains(&e.velocity.mo_speed));
    }
}

#[test]
fn controls_start_with_stop() {
    let c = Controls::new();
    assert_eq!(c.current(), Some(MovementCommand::Stop));
}

#[test]
fn controls_follow_the_latest_held_arrow() {
    let mut c = Controls::new();
    let down = |key| InputEvent::KeyDown { key, repeat: false };
    let up = |key| InputEvent::KeyUp { key, repeat: false };
    assert_eq!(c.handle_event(down(Key::Left)), LoopControl::Continue);
    assert_eq!(c.current(), Some(MovementCommand::Move(Direction::Left)));
    c.handle_event(down(Key::Up));
    assert_eq!(c.current(), Some(MovementCommand::Move(Direction::Up)));
    c.handle_event(up(Key::Up));
    assert_eq!(c.current(), Some(MovementCommand::Move(Direction::Left)));
    c.handle_event(down(Key::Right));
    c.handle_event(up(Key::Left));
    assert_eq!(c.current(), Some(MovementCommand::Move(Direction::Right)));
    c.handle_event(up(Key::Right));
    assert_eq!(c.current(), Some(MovementCommand::Stop));
    c.handle_event(up(Key::Down));
    assert_eq!(c.current(), Some(MovementCommand::Stop));
}

#[test]
fn controls_release_removes_every_copy() {
    let mut c = Controls::new();
    let down = InputEvent::KeyDown { key: Key::Down, repeat: false };
    c.handle_event(down);
    c.handle_event(InputEvent::KeyDown { key: Key::Left, repeat: false });
    c.handle_event(down);
    c.handle_event(InputEvent::KeyUp { key: Key::Down, repeat: false });
    assert_eq!(c.current(), Some(MovementCommand::Move(Direction::Left)));
}

#[test]
fn controls_ignore_repeats_and_other_events() {
    let mut c = Controls::new();
    c.handle_event(InputEvent::KeyDown { key: Key::Left, repeat: true });
    assert_eq!(c.current(), Some(MovementCommand::Stop));
    c.handle_event(InputEvent::KeyDown { key: Key::Left, repeat: false });
    c.handle_event(InputEvent::KeyUp { key: Key::Left, repeat: true });
    assert_eq!(c.current(), Some(MovementCommand::Move(Direction::Left)));
    assert_eq!(c.handle_event(InputEvent::Other), LoopControl::Continue);
    assert_eq!(c.handle_event(InputEvent::KeyDown { key: Key::Other, repeat: false }), LoopControl::Continue);
    assert_eq!(c.handle_event(InputEvent::KeyUp { key: Key::Escape, repeat: false }), LoopControl::Continue);
    assert_eq!(c.current(), Some(MovementCommand::Move(Direction::Left)));
}

#[test]
fn controls_quit() {
    let mut c = Controls::new();
    assert_eq!(c.handle_event(InputEvent::Quit), LoopControl::Quit);
    assert_eq!(c.handle_event(InputEvent::KeyDown { key: Key::Escape, repeat: false }), LoopControl::Quit);
    assert_eq!(c.handle_event(InputEvent::KeyDown { key: Key::Escape, repeat: true }), LoopControl::Quit);
    assert_eq!(c.current(), Some(MovementCommand::Stop));
}

#[test]
fn controls_press_release_undo() {
    let mut c = Controls::new();
    c.handle_event(InputEvent::KeyDown { key: Key::Up, repeat: false });
    c.handle_event(InputEvent::KeyDown { key: Key::Left, repeat: false });
    c.handle_event(InputEvent::KeyUp { key: Key::Left, repeat: false });
    assert_eq!(c.current(), Some(MovementCommand::Move(Direction::Up)));
    assert_eq!(Controls::arrow(Key::Escape), None);
    assert_eq!(Controls::arrow(Key::Down), Some(Direction::Down));
}

#[test]
fn spawn_timer_fires_every_hundred_frames() {
    let mut t = SpawnTimer::new();
    let mut fired = Vec::new();
    for frame in 1..=350 {
        if t.tick() {
            fired.push(frame);
        }
    }
    assert_eq!(fired, vec![100, 200, 300]);
}

#[test]
fn screen_rect_centres_the_world() {
    let r = screen_rect(Point::new(0, 0), Rect::new(0, 0, 26, 36), 800, 600);
    assert_eq!(r, Rect { x: 387, y: 282, w: 26, h: 36 });
    let r2 = screen_rect(Point::new(-10, 20), Rect::new(52, 0, 52, 72), 800, 600);
    assert_eq!(r2, Rect { x: 364, y: 284, w: 52, h: 72 });
}
