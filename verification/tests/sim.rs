use pong::collision::{collision, collision_with_magnitude};
use pong::entity::{Entity, EntityType, Movement};
use pong::frame::{update_all_in_bounds, update_entities};
use pong::input::{handle_event, InputEvent, Key, LoopState};

fn player_at(x: i32, y: i32) -> Entity {
    Entity::new(EntityType::Player, x, y, 128, 32, 5)
}

fn pong_at(x: i32, y: i32, speed: i32) -> Entity {
    Entity::new(EntityType::Pong, x, y, 16, 16, speed)
}

fn bot_at(x: i32, y: i32) -> Entity {
    Entity::new(EntityType::Bot, x, y, 128, 32, 5)
}

#[test]
fn new_sets_fields_and_idle_movement() {
    let e = Entity::new(EntityType::Player, 336, 568, 128, 32, 5);
    assert!(matches!(e.entity_type, EntityType::Player));
    assert!(matches!(e.movement, Movement::Idle));
    assert_eq!(e.x, 336);
    assert_eq!(e.y, 568);
    assert_eq!(e.w, 128);
    assert_eq!(e.h, 32);
    assert_eq!(e.speed, 5);
}

#[test]
fn idle_tick_moves_ball_only_and_no_collision() {
    // Player far from the ball, movement idle: one tick moves the ball down
    // by its speed, nothing overlaps, and no window edge fires, so the
    // ball's speed is untouched by the resolution pass.
    let mut v = vec![player_at(336, 568), pong_at(392, 284, 7), bot_at(36, 43)];
    update_entities(&mut v, 1);
    assert_eq!(v[1].y, 291);
    assert_eq!(v[1].x, 392);
    assert_eq!(v[0].x, 336);
    collision(&mut v, 0, 1, 2);
    assert_eq!(v[1].speed, 7);
    assert_eq!(v[0].x, 336);
}

#[test]
fn left_move_at_left_edge_clamps_back_to_zero() {
    let mut v = vec![player_at(0, 568), pong_at(392, 284, 7), bot_at(600, 43)];
    v[0].movement = Movement::Left;
    update_entities(&mut v, 1);
    assert_eq!(v[0].x, -5);
    collision(&mut v, 0, 1, 2);
    assert_eq!(v[0].x, 0);
}

#[test]
fn quit_event_terminates_loop() {
    let mut v = vec![player_at(336, 568)];
    let state = handle_event(&mut v, 0, InputEvent::Quit);
    assert!(matches!(state, LoopState::Terminated));
    assert!(matches!(v[0].movement, Movement::Idle));
}

#[test]
fn key_events_drive_player_movement() {
    let mut v = vec![player_at(336, 568)];
    let s1 = handle_event(
        &mut v,
        0,
        InputEvent::KeyDown { key: Key::Left, repeat: false },
    );
    assert!(matches!(s1, LoopState::Running));
    assert!(matches!(v[0].movement, Movement::Left));
    let s2 = handle_event(
        &mut v,
        0,
        InputEvent::KeyDown { key: Key::Right, repeat: false },
    );
    assert!(matches!(s2, LoopState::Running));
    assert!(matches!(v[0].movement, Movement::Right));
    let s3 = handle_event(
        &mut v,
        0,
        InputEvent::KeyUp { key: Key::Right, repeat: false },
    );
    assert!(matches!(s3, LoopState::Running));
    assert!(matches!(v[0].movement, Movement::Idle));
}

#[test]
fn auto_repeat_events_are_ignored() {
    let mut v = vec![player_at(336, 568)];
    handle_event(
        &mut v,
        0,
        InputEvent::KeyDown { key: Key::Left, repeat: true },
    );
    assert!(matches!(v[0].movement, Movement::Idle));
    v[0].movement = Movement::Right;
    handle_event(
        &mut v,
        0,
        InputEvent::KeyUp { key: Key::Right, repeat: true },
    );
    assert!(matches!(v[0].movement, Movement::Right));
}

#[test]
fn bot_tracks_ball_after_update_phase() {
    let mut v = vec![player_at(336, 568), pong_at(123, 284, 7), bot_at(600, 43)];
    update_entities(&mut v, 1);
    assert_eq!(v[2].x, v[1].x);
    assert_eq!(v[2].x, 123);
}

#[test]
fn player_hit_rebounds_with_fresh_magnitude() {
    // The ball sits inside the player paddle and away from every window
    // edge; its downward speed must come out upward with a magnitude drawn
    // from [4, 6]. Exercises the real random draw.
    let mut v = vec![player_at(336, 290), pong_at(392, 284, 7), bot_at(600, 500)];
    collision(&mut v, 0, 1, 2);
    assert!(-6 <= v[1].speed && v[1].speed <= -4, "speed was {}", v[1].speed);
}

#[test]
fn upward_ball_rebounds_downward() {
    let mut v = vec![player_at(336, 290), pong_at(392, 284, -7), bot_at(600, 500)];
    collision(&mut v, 0, 1, 2);
    assert!(4 <= v[1].speed && v[1].speed <= 6, "speed was {}", v[1].speed);
}

#[test]
fn given_magnitude_player_hit_is_deterministic() {
    let mut v = vec![player_at(336, 290), pong_at(392, 284, 7), bot_at(600, 500)];
    collision_with_magnitude(&mut v, 0, 1, 2, 5);
    assert_eq!(v[1].speed, -5);
    // Position of the ball is never moved by the resolution pass.
    assert_eq!(v[1].x, 392);
    assert_eq!(v[1].y, 284);
}

#[test]
fn both_paddles_hit_in_one_frame_share_one_draw() {
    // Both the player branch and the bot branch fire: the single magnitude
    // is applied twice, so a downward ball ends downward with magnitude 5.
    let mut v = vec![player_at(336, 290), pong_at(392, 284, 7), bot_at(392, 280)];
    collision_with_magnitude(&mut v, 0, 1, 2, 5);
    assert_eq!(v[1].speed, 5);
}

#[test]
fn degenerate_bot_test_fires_without_real_overlap() {
    // The bot sits wholly to the right of the ball: a full bounding-box test
    // would not fire, but the kept left-bound comparison is degenerate, so
    // only the bot's right bound and the vertical band matter.
    let mut v = vec![player_at(336, 568), pong_at(392, 284, 7), bot_at(500, 280)];
    collision_with_magnitude(&mut v, 0, 1, 2, 4);
    assert_eq!(v[1].speed, -4);
}

#[test]
fn window_edges_flip_ball_speed() {
    // Left edge: one flip.
    let mut v = vec![player_at(336, 568), pong_at(0, 284, 7), bot_at(600, 500)];
    collision_with_magnitude(&mut v, 0, 1, 2, 5);
    assert_eq!(v[1].speed, -7);
    // Bottom edge: one flip.
    let mut v2 = vec![player_at(336, 100), pong_at(392, 584, 7), bot_at(600, 400)];
    collision_with_magnitude(&mut v2, 0, 1, 2, 5);
    assert_eq!(v2[1].speed, -7);
    // Left and top edges together: two flips cancel.
    let mut v3 = vec![player_at(336, 568), pong_at(0, 0, 7), bot_at(600, 500)];
    collision_with_magnitude(&mut v3, 0, 1, 2, 5);
    assert_eq!(v3[1].speed, 7);
}

#[test]
fn right_edge_clamps_player_and_bot() {
    let mut v = vec![player_at(900, 568), pong_at(392, 284, 7), bot_at(795, 43)];
    collision_with_magnitude(&mut v, 0, 1, 2, 5);
    assert_eq!(v[0].x, 800 - 128);
    assert_eq!(v[2].x, 800 - 128);
}

#[test]
fn full_width_paddle_clamps_to_zero() {
    let wide = Entity::new(EntityType::Player, 77, 568, 800, 32, 5);
    let mut v = vec![wide, pong_at(392, 284, 7), bot_at(600, 43)];
    collision_with_magnitude(&mut v, 0, 1, 2, 5);
    assert_eq!(v[0].x, 0);
}

#[test]
fn second_resolution_pass_leaves_paddles_alone() {
    let mut v = vec![player_at(-30, 568), pong_at(392, 284, 7), bot_at(900, 43)];
    collision_with_magnitude(&mut v, 0, 1, 2, 5);
    let player_after_one = v[0];
    let bot_after_one = v[2];
    collision_with_magnitude(&mut v, 0, 1, 2, 6);
    assert_eq!(v[0], player_after_one);
    assert_eq!(v[2], bot_after_one);
}

#[test]
fn sizes_never_change_across_a_frame() {
    let mut v = vec![player_at(336, 290), pong_at(392, 284, 7), bot_at(392, 280)];
    update_entities(&mut v, 1);
    collision(&mut v, 0, 1, 2);
    assert_eq!((v[0].w, v[0].h), (128, 32));
    assert_eq!((v[1].w, v[1].h), (16, 16));
    assert_eq!((v[2].w, v[2].h), (128, 32));
    assert!(v.iter().all(|e| e.w > 0 && e.h > 0));
}

#[test]
fn update_bounds_check_rejects_overflowing_step() {
    let mut far = player_at(i32::MAX, 568);
    far.movement = Movement::Right;
    assert!(!far.update_in_bounds());
    let v = vec![far, pong_at(392, 284, 7), bot_at(600, 43)];
    assert!(!update_all_in_bounds(&v));
    let ok = vec![player_at(336, 568), pong_at(392, 284, 7), bot_at(600, 43)];
    assert!(update_all_in_bounds(&ok));
}
