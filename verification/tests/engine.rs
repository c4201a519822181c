use mquad_arcanoid::geometry::{Recti, Vec2i};
use mquad_arcanoid::physics::{
    Physics, BALL_RADIUS, BOX_COUNT, BOX_HEIGHT, BOX_PER_LINE, BOX_WIDTH, MAX_X, MAX_Y,
    PLAYER_HEIGHT, PLAYER_WIDTH, PLAYER_Y,
};

fn physics_with_boxes(ball_pos: Vec2i, ball_dir: Vec2i, alive: &[usize]) -> Physics {
    let mut boxes = vec![false; BOX_COUNT];
    for &i in alive {
        boxes[i] = true;
    }
    Physics {
        player_x: 0,
        player_delta: 0,
        ball_pos,
        ball_dir,
        boxes,
    }
}

#[test]
fn fresh_round_starts_deterministically() {
    let p = Physics::new();
    assert_eq!(p.player_x, 0);
    assert_eq!(p.player_delta, 0);
    assert_eq!(p.ball_pos, Vec2i { x: 30_000_000, y: 180_000_000 });
    assert_eq!(p.ball_dir, Vec2i { x: -707, y: -707 });
    assert_eq!(p.boxes.len(), BOX_COUNT);
    assert!(p.boxes.iter().all(|&b| b));
}

#[test]
fn box_rect_maps_grid_to_world() {
    let r = Physics::box_rect(2, 3);
    assert_eq!(r, Recti { x: 2 * BOX_WIDTH, y: 3 * BOX_HEIGHT, w: BOX_WIDTH, h: BOX_HEIGHT });
    let r0 = Physics::box_rect(0, 0);
    assert_eq!(r0, Recti { x: 0, y: 0, w: BOX_WIDTH, h: BOX_HEIGHT });
}

#[test]
fn player_rect_sits_near_the_floor() {
    let mut p = Physics::new();
    p.player_x = 5_000_000;
    let r = p.player_rect();
    assert_eq!(r, Recti { x: 5_000_000, y: PLAYER_Y, w: PLAYER_WIDTH, h: PLAYER_HEIGHT });
    assert_eq!(PLAYER_Y, 388_600_000);
}

#[test]
fn move_player_is_clamped_to_the_arena() {
    let mut p = Physics::new();
    // A second of paddle speed overshoots either edge; the result clamps.
    p.move_player(10_000, false);
    assert_eq!(p.player_x, 0);
    p.move_player(10_000, true);
    assert_eq!(p.player_x, MAX_X - PLAYER_WIDTH);
    assert_eq!(p.player_delta, MAX_X - PLAYER_WIDTH);
    p.move_player(10_000, true);
    assert_eq!(p.player_x, MAX_X - PLAYER_WIDTH);
    assert_eq!(p.player_delta, 0);
}

#[test]
fn move_player_covers_speed_times_dt() {
    let mut p = Physics::new();
    p.move_player(100, true);
    assert_eq!(p.player_x, 17_000_000);
    assert_eq!(p.player_delta, 17_000_000);
    p.move_player(100, false);
    assert_eq!(p.player_x, 0);
    assert_eq!(p.player_delta, -17_000_000);
}

#[test]
fn move_player_with_zero_dt_changes_nothing() {
    let mut p = Physics::new();
    p.move_player(100, true);
    p.move_player(0, true);
    assert_eq!(p.player_x, 17_000_000);
    assert_eq!(p.player_delta, 0);
    p.move_player(0, false);
    assert_eq!(p.player_x, 17_000_000);
}

#[test]
fn new_frame_clears_the_cosmetic_delta() {
    let mut p = Physics::new();
    p.move_player(100, true);
    assert_eq!(p.player_delta, 17_000_000);
    p.new_frame();
    assert_eq!(p.player_delta, 0);
    assert_eq!(p.player_x, 17_000_000);
}

#[test]
fn left_wall_reflects_the_ball() {
    // Ball mid-field heading straight left, close enough to cross the wall.
    let mut p = physics_with_boxes(
        Vec2i { x: 10_000_000, y: 300_000_000 },
        Vec2i { x: -1000, y: 0 },
        &[],
    );
    let escaped = p.update(30);
    assert!(!escaped);
    // Tentative x = 10_000_000 - 1000*180*30 = 4_600_000, inside the radius:
    // reflected and clamped to the wall plus radius.
    assert_eq!(p.ball_pos, Vec2i { x: BALL_RADIUS, y: 300_000_000 });
    assert_eq!(p.ball_dir, Vec2i { x: 1000, y: 0 });
}

#[test]
fn cell_hit_from_below_reflects_vertically() {
    // One alive cell at (0, 0) spanning x 0..40, y 0..20 world units; the
    // ball at (18, 8) world units, radius 6, heading up-left along the
    // diagonal, overlaps it after one step.
    let mut p = physics_with_boxes(
        Vec2i { x: 18_000_000, y: 8_000_000 },
        Vec2i { x: -707, y: -707 },
        &[0],
    );
    let escaped = p.update(10);
    assert!(!escaped);
    assert!(!p.boxes[0]);
    // The pre-step X-extent [12, 24] overlaps the cell's X-span, so the hit
    // is vertical: Y direction flips, X keeps its course, and the ball is
    // pushed just past the cell's top edge.
    assert_eq!(p.ball_dir, Vec2i { x: -707, y: 707 });
    assert_eq!(p.ball_pos, Vec2i { x: 16_727_400, y: -6_001_000 });
}

#[test]
fn escape_returns_true_and_short_circuits() {
    // Fully alive grid; ball just above the bottom edge heading straight
    // down, so the tentative Y crosses MAX_Y.
    let all: Vec<usize> = (0..BOX_COUNT).collect();
    let mut p = physics_with_boxes(
        Vec2i { x: 300_000_000, y: 400_000_000 },
        Vec2i { x: 0, y: 1000 },
        &all,
    );
    let escaped = p.update(100);
    assert!(escaped);
    // No cell died and the position was not committed; only the reflection
    // of the direction stands.
    assert!(p.boxes.iter().all(|&b| b));
    assert_eq!(p.ball_pos, Vec2i { x: 300_000_000, y: 400_000_000 });
    assert_eq!(p.ball_dir, Vec2i { x: 0, y: -1000 });
}

#[test]
fn escape_ignores_horizontal_state() {
    // Same vertical state, different horizontal state: the escape outcome
    // is the same.
    let mut p1 = physics_with_boxes(
        Vec2i { x: 100_000_000, y: 405_000_000 },
        Vec2i { x: 500, y: 1000 },
        &[0, 17, 119],
    );
    let mut p2 = physics_with_boxes(
        Vec2i { x: 300_000_000, y: 405_000_000 },
        Vec2i { x: -800, y: 1000 },
        &[],
    );
    assert!(p1.update(100));
    assert!(p2.update(100));
    assert!(p1.boxes[0] && p1.boxes[17] && p1.boxes[119]);
}

#[test]
fn paddle_bounce_lifts_the_ball() {
    // The pre-step ball center overlaps the paddle rectangle, so the step
    // flips the vertical direction and re-places the ball just above the
    // paddle top.
    let mut p = physics_with_boxes(
        Vec2i { x: 100_000_000, y: 390_000_000 },
        Vec2i { x: 0, y: 1000 },
        &[],
    );
    p.player_x = 60_000_000;
    let escaped = p.update(10);
    assert!(!escaped);
    assert_eq!(p.ball_dir, Vec2i { x: 0, y: -1000 });
    assert_eq!(p.ball_pos.y, PLAYER_Y - BALL_RADIUS - 1_000);
    assert_eq!(p.ball_pos.x, 100_000_000);
}

#[test]
fn dead_cells_stay_dead() {
    let mut p = physics_with_boxes(
        Vec2i { x: 18_000_000, y: 8_000_000 },
        Vec2i { x: -707, y: -707 },
        &[0, 119],
    );
    p.update(10);
    assert!(!p.boxes[0]);
    assert!(p.boxes[119]);
    // Further steps far from the grid leave the dead cell dead.
    p.ball_pos = Vec2i { x: 300_000_000, y: 300_000_000 };
    p.ball_dir = Vec2i { x: 707, y: -707 };
    p.update(10);
    assert!(!p.boxes[0]);
    assert!(p.boxes[119]);
}

#[test]
fn direction_magnitude_survives_many_steps() {
    let mut p = Physics::new();
    let norm = |d: Vec2i| d.x * d.x + d.y * d.y;
    let start = norm(p.ball_dir);
    for _ in 0..500 {
        p.update(16);
        assert_eq!(norm(p.ball_dir), start);
    }
}

#[test]
fn kill_touches_only_the_bitmap() {
    let mut p = Physics::new();
    assert!(p.is_alive(4, 2));
    p.kill(4, 2);
    assert!(!p.is_alive(4, 2));
    assert!(p.is_alive(3, 2));
    assert!(p.is_alive(4, 1));
    assert_eq!(p.ball_pos, Vec2i { x: 30_000_000, y: 180_000_000 });
    assert_eq!(p.player_x, 0);
    // Killing an already dead cell changes nothing.
    p.kill(4, 2);
    assert!(!p.is_alive(4, 2));
}

#[test]
fn grid_constants_span_the_arena() {
    assert_eq!(BOX_PER_LINE, 15);
    assert_eq!(BOX_COUNT, 120);
    assert_eq!(MAX_X, BOX_WIDTH * 15);
    assert!(MAX_Y > 8 * BOX_HEIGHT);
}
