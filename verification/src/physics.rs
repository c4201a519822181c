//! The kinematics and collision engine: ball motion against the arena walls,
//! the breakable cell grid and the player paddle, advanced one frame at a
//! time.
//!
//! All quantities are fixed-point integers. Positions, sizes and speeds are
//! in microunits (`SCALE` microunits per world unit); the ball direction is a
//! unit vector whose components are scaled by `DIR_SCALE`. Time is in whole
//! milliseconds. Collision response only negates direction components and
//! re-places the ball, so the direction's magnitude is exactly preserved by
//! every step.

use vstd::prelude::*;

verus! {

use crate::geometry::{
    ball_in_rect, ball_over_x_span, spec_ball_in_rect, spec_ball_over_x_span, Recti, Vec2i,
};

/// Microunits per world unit.
pub const SCALE: i64 = 1_000_000;

/// Direction components are this factor times the real unit vector.
pub const DIR_SCALE: i64 = 1_000;

/// Push-out after a reflection: 0.001 world units, keeping the ball from
/// re-triggering the same collision on the next frame.
pub const PUSH_EPSILON: i64 = 1_000;

/// Paddle speed in microunits per millisecond (170 world units per second).
pub const PLAYER_SPEED: i64 = 170_000;

/// Ball speed factor: with the direction scaled by `DIR_SCALE`, the ball
/// covers `BALL_SPEED * DIR_SCALE` microunits (180 world units) per second,
/// so a step of `dt` milliseconds moves it `dir * BALL_SPEED * dt` microunits.
pub const BALL_SPEED: i64 = 180;

/// Cells per grid row.
pub const BOX_PER_LINE: usize = 15;

/// Rows in the grid.
pub const BOX_LINE_COUNT: usize = 8;

/// Total number of cells in the grid.
pub const BOX_COUNT: usize = BOX_PER_LINE * BOX_LINE_COUNT;

/// Cell width in microunits (40 world units).
pub const BOX_WIDTH: i64 = 40_000_000;

/// Cell height in microunits (20 world units).
pub const BOX_HEIGHT: i64 = 20_000_000;

/// Ball radius in microunits (6 world units).
pub const BALL_RADIUS: i64 = 6_000_000;

/// Right arena bound: the grid spans the arena's full width.
pub const MAX_X: i64 = BOX_WIDTH * 15;

/// Bottom arena bound in microunits (410 world units).
pub const MAX_Y: i64 = 410_000_000;

/// Paddle width in microunits (80 world units).
pub const PLAYER_WIDTH: i64 = 80_000_000;

/// Paddle height in microunits (10 world units).
pub const PLAYER_HEIGHT: i64 = 10_000_000;

/// Vertical position of the paddle top: `MAX_Y - PLAYER_HEIGHT` minus 1.9
/// ball radii, near the arena floor.
pub const PLAYER_Y: i64 = MAX_Y - PLAYER_HEIGHT - 11_400_000;

/// Largest frame time accepted, in milliseconds; keeps every product of a
/// speed and a time step comfortably inside an `i64`.
pub const MAX_DT: i64 = 1_000_000;

/// Ball positions stay within this bound: the walls clamp the ball into the
/// arena and every push-out target is at most one radius and one epsilon
/// outside it.
pub const POS_LIMIT: i64 = 1_000_000_000;

/// The engine's state: paddle offset, ball position and direction, and the
/// alive bitmap of the cell grid, stored row-major with row 0 first.
#[derive(Debug)]
pub struct Physics {
    /// Left edge of the paddle, clamped to `[0, MAX_X - PLAYER_WIDTH]`.
    pub player_x: i64,
    /// Horizontal distance the paddle covered this frame; cosmetic only.
    pub player_delta: i64,
    /// Center of the ball.
    pub ball_pos: Vec2i,
    /// Direction of the ball: a unit vector scaled by `DIR_SCALE`.
    pub ball_dir: Vec2i,
    /// `boxes[row * BOX_PER_LINE + col]` is true while that cell is alive.
    pub boxes: Vec<bool>,
}

/// The mathematical model of the engine state: unbounded integers and a
/// sequence for the grid bitmap.
#[verifier::ext_equal]
pub ghost struct PhysModel {
    pub player_x: int,
    pub player_delta: int,
    pub ball_x: int,
    pub ball_y: int,
    pub dir_x: int,
    pub dir_y: int,
    pub boxes: Seq<bool>,
}

impl View for Physics {
    type V = PhysModel;

    open spec fn view(&self) -> PhysModel {
        PhysModel {
            player_x: self.player_x as int,
            player_delta: self.player_delta as int,
            ball_x: self.ball_pos.x as int,
            ball_y: self.ball_pos.y as int,
            dir_x: self.ball_dir.x as int,
            dir_y: self.ball_dir.y as int,
            boxes: self.boxes@,
        }
    }
}

impl PhysModel {
    /// Well-formedness of a model: the grid has its full size, the direction
    /// components are scaled by at most `DIR_SCALE`, the paddle is clamped
    /// and the ball is within `POS_LIMIT` of the arena.
    pub open spec fn wf(self) -> bool {
        &&& self.boxes.len() == BOX_COUNT
        &&& -DIR_SCALE <= self.dir_x <= DIR_SCALE
        &&& -DIR_SCALE <= self.dir_y <= DIR_SCALE
        &&& 0 <= self.player_x <= MAX_X - PLAYER_WIDTH
        &&& -(MAX_X - PLAYER_WIDTH) <= self.player_delta <= MAX_X - PLAYER_WIDTH
        &&& -POS_LIMIT <= self.ball_x <= POS_LIMIT
        &&& -POS_LIMIT <= self.ball_y <= POS_LIMIT
    }
}

/// The engine state at the start of a round: paddle at the left edge, ball
/// at (30, 180) world units heading up-left along the diagonal, every cell
/// alive.
pub open spec fn spec_new_physics() -> PhysModel {
    PhysModel {
        player_x: 0,
        player_delta: 0,
        ball_x: 30_000_000,
        ball_y: 180_000_000,
        dir_x: -707,
        dir_y: -707,
        boxes: Seq::new(BOX_COUNT as nat, |i: int| true),
    }
}

/// The world-space rectangle of the cell at column `x`, row `y`.
pub open spec fn spec_box_rect(x: int, y: int) -> Recti {
    Recti {
        x: (x * BOX_WIDTH) as i64,
        y: (y * BOX_HEIGHT) as i64,
        w: BOX_WIDTH,
        h: BOX_HEIGHT,
    }
}

/// The world-space rectangle of the paddle for a given left edge.
pub open spec fn spec_player_rect(player_x: int) -> Recti {
    Recti { x: player_x as i64, y: PLAYER_Y, w: PLAYER_WIDTH, h: PLAYER_HEIGHT }
}

/// `v` clamped to `[lo, hi]`.
pub open spec fn spec_clamp(v: int, lo: int, hi: int) -> int {
    if v < lo {
        lo
    } else if v > hi {
        hi
    } else {
        v
    }
}

/// The paddle after one movement intent: displaced by `PLAYER_SPEED * dt`
/// toward the requested side, then clamped to the arena; `player_delta`
/// records the distance actually covered.
pub open spec fn spec_move_player(p: PhysModel, dt: int, right: bool) -> PhysModel {
    let dx = if right {
        PLAYER_SPEED * dt
    } else {
        -(PLAYER_SPEED * dt)
    };
    let moved = spec_clamp(p.player_x + dx, 0, MAX_X - PLAYER_WIDTH);
    PhysModel { player_x: moved, player_delta: moved - p.player_x, ..p }
}

/// The ball state threaded through the cell-collision pass: the grid bitmap,
/// the tentative ball position being corrected, and the direction.
#[verifier::ext_equal]
pub ghost struct PassModel {
    pub boxes: Seq<bool>,
    pub tent_x: int,
    pub tent_y: int,
    pub dir_x: int,
    pub dir_y: int,
}

/// The wall-reflection stage's outcome: the tentative position clamped to
/// the arena, the direction after any edge reflections, and whether the ball
/// left play through the bottom edge.
#[verifier::ext_equal]
pub ghost struct WallModel {
    pub tent_x: int,
    pub tent_y: int,
    pub dir_x: int,
    pub dir_y: int,
    pub escaped: bool,
}

/// A full step's outcome: the next engine state and the escape flag.
#[verifier::ext_equal]
pub ghost struct StepModel {
    pub phys: PhysModel,
    pub escaped: bool,
}

/// The wall stage: the ball advances by `dir * BALL_SPEED * dt`, and for each
/// arena edge the tentative position would cross (inclusive of the radius),
/// the matching direction component is negated and the position clamped to
/// that edge. Crossing the bottom edge marks the ball as escaped. The checks
/// run left, right, top, bottom, each reading the position left by the
/// previous one.
pub open spec fn spec_wall_stage(p: PhysModel, dt: int) -> WallModel {
    let tx0 = p.ball_x + p.dir_x * BALL_SPEED * dt;
    let ty0 = p.ball_y + p.dir_y * BALL_SPEED * dt;
    let hit_left = tx0 - BALL_RADIUS < 0;
    let tx1 = if hit_left {
        BALL_RADIUS as int
    } else {
        tx0
    };
    let dx1 = if hit_left {
        -p.dir_x
    } else {
        p.dir_x
    };
    let hit_right = tx1 + BALL_RADIUS > MAX_X;
    let tx2 = if hit_right {
        MAX_X - BALL_RADIUS
    } else {
        tx1
    };
    let dx2 = if hit_right {
        -dx1
    } else {
        dx1
    };
    let hit_top = ty0 - BALL_RADIUS < 0;
    let ty1 = if hit_top {
        BALL_RADIUS as int
    } else {
        ty0
    };
    let dy1 = if hit_top {
        -p.dir_y
    } else {
        p.dir_y
    };
    let escaped = ty1 + BALL_RADIUS > MAX_Y;
    let ty2 = if escaped {
        MAX_Y - BALL_RADIUS
    } else {
        ty1
    };
    let dy2 = if escaped {
        -dy1
    } else {
        dy1
    };
    WallModel { tent_x: tx2, tent_y: ty2, dir_x: dx2, dir_y: dy2, escaped }
}

/// Whether a step escapes through the bottom edge; a function of the ball's
/// vertical state and the time step alone — the horizontal state and the
/// grid are irrelevant to it.
pub open spec fn spec_escapes(ball_y: int, dir_y: int, dt: int) -> bool {
    let ty0 = ball_y + dir_y * BALL_SPEED * dt;
    let ty1 = if ty0 - BALL_RADIUS < 0 {
        BALL_RADIUS as int
    } else {
        ty0
    };
    ty1 + BALL_RADIUS > MAX_Y
}

/// One cell of the collision pass, at row-major index `i`. If the cell is
/// alive and the tentative ball position overlaps it, the cell dies and the
/// ball reflects exactly once off it. The axis of the reflection and the
/// side the ball is pushed out to are classified by the pre-step ball center
/// `(old_x, old_y)`, not the tentative one: a ball whose old horizontal
/// extent already overlapped the cell's X-span entered from above or below.
pub open spec fn spec_cell_step(s: PassModel, old_x: int, old_y: int, i: int) -> PassModel {
    let bx = i % (BOX_PER_LINE as int);
    let by = i / (BOX_PER_LINE as int);
    let rect = spec_box_rect(bx, by);
    if s.boxes[i] && spec_ball_in_rect(s.tent_x, s.tent_y, rect) {
        let boxes = s.boxes.update(i, false);
        if spec_ball_over_x_span(old_x, rect) {
            let ty = if old_y > rect.spec_bottom() {
                rect.spec_bottom() + BALL_RADIUS + PUSH_EPSILON
            } else {
                rect.spec_top() - BALL_RADIUS - PUSH_EPSILON
            };
            PassModel { boxes, tent_y: ty, dir_y: -s.dir_y, ..s }
        } else {
            let tx = if old_x > rect.spec_right() {
                rect.spec_right() + BALL_RADIUS + PUSH_EPSILON
            } else {
                rect.spec_left() - BALL_RADIUS - PUSH_EPSILON
            };
            PassModel { boxes, tent_x: tx, dir_x: -s.dir_x, ..s }
        }
    } else {
        s
    }
}

/// The collision pass over the first `n` cells in row-major order, row 0
/// first, column 0 first within a row; each cell sees the position and
/// direction left by the cells before it, so a fast ball may break several
/// cells in a single step.
pub open spec fn spec_cell_pass(init: PassModel, old_x: int, old_y: int, n: nat) -> PassModel
    decreases n,
{
    if n == 0 {
        init
    } else {
        spec_cell_step(spec_cell_pass(init, old_x, old_y, (n - 1) as nat), old_x, old_y, n - 1)
    }
}

/// One full step of the engine. An escape ends the step at the wall stage:
/// the direction reflections are kept but the position is not committed and
/// no cell or paddle collision is evaluated. Otherwise the cell pass runs
/// over the whole grid, then the paddle check: if the pre-step ball center
/// overlapped the paddle, the vertical direction is negated and the ball is
/// placed just above the paddle top.
pub open spec fn spec_step(p: PhysModel, dt: int) -> StepModel {
    let w = spec_wall_stage(p, dt);
    if w.escaped {
        StepModel { phys: PhysModel { dir_x: w.dir_x, dir_y: w.dir_y, ..p }, escaped: true }
    } else {
        let init = PassModel {
            boxes: p.boxes,
            tent_x: w.tent_x,
            tent_y: w.tent_y,
            dir_x: w.dir_x,
            dir_y: w.dir_y,
        };
        let c = spec_cell_pass(init, p.ball_x, p.ball_y, BOX_COUNT as nat);
        let prect = spec_player_rect(p.player_x);
        let hit_paddle = spec_ball_in_rect(p.ball_x, p.ball_y, prect);
        let fy = if hit_paddle {
            prect.spec_top() - BALL_RADIUS - PUSH_EPSILON
        } else {
            c.tent_y
        };
        let fdy = if hit_paddle {
            -c.dir_y
        } else {
            c.dir_y
        };
        StepModel {
            phys: PhysModel {
                ball_x: c.tent_x,
                ball_y: fy,
                dir_x: c.dir_x,
                dir_y: fdy,
                boxes: c.boxes,
                ..p
            },
            escaped: false,
        }
    }
}

/// The collision pass only kills cells, never revives one, keeps the grid's
/// size, and only flips direction component signs.
pub proof fn lemma_cell_pass_props(init: PassModel, old_x: int, old_y: int, n: nat)
    requires
        init.boxes.len() == BOX_COUNT,
        n <= BOX_COUNT,
    ensures
        spec_cell_pass(init, old_x, old_y, n).boxes.len() == init.boxes.len(),
        forall|j: int|
            0 <= j < init.boxes.len() && !init.boxes[j] ==> !spec_cell_pass(
                init,
                old_x,
                old_y,
                n,
            ).boxes[j],
        vstd::math::abs(spec_cell_pass(init, old_x, old_y, n).dir_x) == vstd::math::abs(
            init.dir_x,
        ),
        vstd::math::abs(spec_cell_pass(init, old_x, old_y, n).dir_y) == vstd::math::abs(
            init.dir_y,
        ),
    decreases n,
{
    if n > 0 {
        lemma_cell_pass_props(init, old_x, old_y, (n - 1) as nat);
        let prev = spec_cell_pass(init, old_x, old_y, (n - 1) as nat);
        assert(spec_cell_pass(init, old_x, old_y, n) == spec_cell_step(
            prev,
            old_x,
            old_y,
            n - 1,
        ));
    }
}

/// Unit-length invariant: a step only ever negates direction components, so
/// it preserves each component's absolute value and with them the
/// direction's squared magnitude exactly. Since `spec_move_player` and a
/// frame reset never touch the direction either, the magnitude the round
/// starts with persists through any sequence of steps.
pub proof fn lemma_step_preserves_dir_magnitude(p: PhysModel, dt: int)
    requires
        p.wf(),
    ensures
        vstd::math::abs(spec_step(p, dt).phys.dir_x) == vstd::math::abs(p.dir_x),
        vstd::math::abs(spec_step(p, dt).phys.dir_y) == vstd::math::abs(p.dir_y),
        spec_step(p, dt).phys.dir_x * spec_step(p, dt).phys.dir_x + spec_step(p, dt).phys.dir_y
            * spec_step(p, dt).phys.dir_y == p.dir_x * p.dir_x + p.dir_y * p.dir_y,
{
    let w = spec_wall_stage(p, dt);
    if !w.escaped {
        let init = PassModel {
            boxes: p.boxes,
            tent_x: w.tent_x,
            tent_y: w.tent_y,
            dir_x: w.dir_x,
            dir_y: w.dir_y,
        };
        lemma_cell_pass_props(init, p.ball_x, p.ball_y, BOX_COUNT as nat);
    }
    let q = spec_step(p, dt).phys;
    assert(q.dir_x * q.dir_x == p.dir_x * p.dir_x) by (nonlinear_arith)
        requires
            q.dir_x == p.dir_x || q.dir_x == -p.dir_x,
    ;
    assert(q.dir_y * q.dir_y == p.dir_y * p.dir_y) by (nonlinear_arith)
        requires
            q.dir_y == p.dir_y || q.dir_y == -p.dir_y,
    ;
}

impl Physics {
    /// A fresh engine state for a new round; always the same one, so that
    /// round resets are reproducible.
    pub fn new() -> (p: Physics)
        ensures
            p@ == spec_new_physics(),
            p@.wf(),
    {
        let mut boxes: Vec<bool> = Vec::new();
        let mut i: usize = 0;
        while i < BOX_COUNT
            invariant
                i <= BOX_COUNT,
                boxes@.len() == i,
                forall|j: int| 0 <= j < i ==> boxes@[j] == true,
            decreases BOX_COUNT - i,
        {
            boxes.push(true);
            i += 1;
        }
        let p = Physics {
            player_x: 0,
            player_delta: 0,
            ball_pos: Vec2i { x: 30_000_000, y: 180_000_000 },
            ball_dir: Vec2i { x: -707, y: -707 },
            boxes,
        };
        proof {
            assert(p@.boxes =~= spec_new_physics().boxes);
            assert(p@ =~= spec_new_physics());
        }
        p
    }

    /// Begins a frame: forgets the previous frame's cosmetic paddle delta.
    pub fn new_frame(&mut self)
        ensures
            final(self)@ == (PhysModel { player_delta: 0, ..old(self)@ }),
            old(self)@.wf() ==> final(self)@.wf(),
    {
        self.player_delta = 0;
    }

    /// An exact copy of the engine state, for the pre-step snapshot that
    /// event derivation diffs against.
    pub fn snapshot(&self) -> (r: Physics)
        ensures
            r@ == self@,
    {
        let mut boxes: Vec<bool> = Vec::new();
        let mut i: usize = 0;
        let n = self.boxes.len();
        while i < n
            invariant
                i <= n,
                n == self.boxes@.len(),
                boxes@.len() == i,
                forall|j: int| 0 <= j < i ==> boxes@[j] == self.boxes@[j],
            decreases n - i,
        {
            boxes.push(self.boxes[i]);
            i += 1;
        }
        let r = Physics {
            player_x: self.player_x,
            player_delta: self.player_delta,
            ball_pos: self.ball_pos,
            ball_dir: self.ball_dir,
            boxes,
        };
        proof {
            assert(r@.boxes =~= self@.boxes);
            assert(r@ =~= self@);
        }
        r
    }

    /// Moves the paddle by one intent: `PLAYER_SPEED * dt` to the left or to
    /// the right, clamped to `[0, MAX_X - PLAYER_WIDTH]`. Always succeeds and
    /// does nothing under a zero `dt`.
    pub fn move_player(&mut self, dt: i64, right: bool)
        requires
            old(self)@.wf(),
            0 <= dt <= MAX_DT,
        ensures
            final(self)@ == spec_move_player(old(self)@, dt as int, right),
            final(self)@.wf(),
            0 <= final(self)@.player_x <= MAX_X - PLAYER_WIDTH,
    {
        let mut dx: i64 = PLAYER_SPEED * dt;
        if !right {
            dx = -dx;
        }
        let target = self.player_x + dx;
        let moved = if target < 0 {
            0
        } else if target > MAX_X - PLAYER_WIDTH {
            MAX_X - PLAYER_WIDTH
        } else {
            target
        };
        self.player_delta = moved - self.player_x;
        self.player_x = moved;
    }

    /// The paddle's world-space rectangle.
    pub fn player_rect(&self) -> (r: Recti)
        ensures
            r == spec_player_rect(self@.player_x),
            0 <= self@.player_x <= MAX_X - PLAYER_WIDTH ==> r.in_coord_range(),
    {
        Recti { x: self.player_x, y: PLAYER_Y, w: PLAYER_WIDTH, h: PLAYER_HEIGHT }
    }

    /// Whether the cell at column `x`, row `y` is still alive; grid
    /// coordinates out of range are a caller error.
    pub fn is_alive(&self, x: usize, y: usize) -> (r: bool)
        requires
            self@.boxes.len() == BOX_COUNT,
            x < BOX_PER_LINE,
            y < BOX_LINE_COUNT,
        ensures
            r == self@.boxes[y * BOX_PER_LINE + x],
    {
        self.boxes[y * BOX_PER_LINE + x]
    }

    /// Kills the cell at column `x`, row `y`, touching nothing but the
    /// bitmap; grid coordinates out of range are a caller error.
    pub fn kill(&mut self, x: usize, y: usize)
        requires
            old(self)@.boxes.len() == BOX_COUNT,
            x < BOX_PER_LINE,
            y < BOX_LINE_COUNT,
        ensures
            final(self)@ == (PhysModel {
                boxes: old(self)@.boxes.update((y * BOX_PER_LINE + x) as int, false),
                ..old(self)@
            }),
            old(self)@.wf() ==> final(self)@.wf(),
    {
        self.boxes[y * BOX_PER_LINE + x] = false;
    }

    /// The world-space rectangle of the cell at column `x`, row `y`; grid
    /// coordinates out of range are a caller error.
    pub fn box_rect(x: usize, y: usize) -> (r: Recti)
        requires
            x < BOX_PER_LINE,
            y < BOX_LINE_COUNT,
        ensures
            r == spec_box_rect(x as int, y as int),
            r.in_coord_range(),
    {
        Recti { x: (x as i64) * BOX_WIDTH, y: (y as i64) * BOX_HEIGHT, w: BOX_WIDTH, h: BOX_HEIGHT }
    }

    /// Advances the ball by one frame of `dt` milliseconds: wall reflections
    /// first (an escape through the bottom edge returns at once, with no cell
    /// or paddle collision evaluated and the position not committed), then
    /// the cell-collision pass in row-major order, then the paddle check
    /// against the pre-step ball center. Returns whether the ball escaped.
    pub fn update(&mut self, dt: i64) -> (escaped: bool)
        requires
            old(self)@.wf(),
            0 <= dt <= MAX_DT,
        ensures
            final(self)@.wf(),
            final(self)@ == spec_step(old(self)@, dt as int).phys,
            escaped == spec_step(old(self)@, dt as int).escaped,
            escaped == spec_escapes(old(self)@.ball_y, old(self)@.dir_y, dt as int),
            escaped ==> final(self)@.boxes == old(self)@.boxes && final(self)@.ball_x == old(
                self,
            )@.ball_x && final(self)@.ball_y == old(self)@.ball_y,
            vstd::math::abs(final(self)@.dir_x) == vstd::math::abs(old(self)@.dir_x),
            vstd::math::abs(final(self)@.dir_y) == vstd::math::abs(old(self)@.dir_y),
            forall|j: int| 0 <= j < BOX_COUNT && !old(self)@.boxes[j] ==> !final(self)@.boxes[j],
            final(self)@.player_x == old(self)@.player_x,
            final(self)@.player_delta == old(self)@.player_delta,
    {
        let ghost p0 = old(self)@;
        proof {
            assert(-180_000_000_000 <= (self.ball_dir.x as int) * 180 * (dt as int)
                <= 180_000_000_000) by (nonlinear_arith)
                requires
                    -1000 <= self.ball_dir.x as int <= 1000,
                    0 <= dt as int <= 1_000_000,
            ;
            assert(-180_000_000_000 <= (self.ball_dir.y as int) * 180 * (dt as int)
                <= 180_000_000_000) by (nonlinear_arith)
                requires
                    -1000 <= self.ball_dir.y as int <= 1000,
                    0 <= dt as int <= 1_000_000,
            ;
        }
        let off_x = self.ball_dir.x * BALL_SPEED * dt;
        let off_y = self.ball_dir.y * BALL_SPEED * dt;
        let mut new_x = self.ball_pos.x + off_x;
        let mut new_y = self.ball_pos.y + off_y;

        if new_x - BALL_RADIUS < 0 {
            self.ball_dir.x = -self.ball_dir.x;
            new_x = BALL_RADIUS;
        }
        if new_x + BALL_RADIUS > MAX_X {
            self.ball_dir.x = -self.ball_dir.x;
            new_x = MAX_X - BALL_RADIUS;
        }
        if new_y - BALL_RADIUS < 0 {
            self.ball_dir.y = -self.ball_dir.y;
            new_y = BALL_RADIUS;
        }
        if new_y + BALL_RADIUS > MAX_Y {
            self.ball_dir.y = -self.ball_dir.y;
            // The ball has left play: the reflections stand, but the
            // position stays where the frame began.
            return true;
        }

        let ghost w = spec_wall_stage(p0, dt as int);
        let ghost init = PassModel {
            boxes: p0.boxes,
            tent_x: new_x as int,
            tent_y: new_y as int,
            dir_x: self.ball_dir.x as int,
            dir_y: self.ball_dir.y as int,
        };
        proof {
            assert(!w.escaped);
            assert(new_x as int == w.tent_x);
            assert(new_y as int == w.tent_y);
            assert(self.ball_dir.x as int == w.dir_x);
            assert(self.ball_dir.y as int == w.dir_y);
        }

        let mut idx: usize = 0;
        while idx < BOX_COUNT
            invariant
                idx <= BOX_COUNT,
                self.boxes@.len() == BOX_COUNT,
                -DIR_SCALE <= self.ball_dir.x <= DIR_SCALE,
                -DIR_SCALE <= self.ball_dir.y <= DIR_SCALE,
                -POS_LIMIT <= new_x <= POS_LIMIT,
                -POS_LIMIT <= new_y <= POS_LIMIT,
                self.ball_pos == old(self).ball_pos,
                self.player_x == old(self).player_x,
                self.player_delta == old(self).player_delta,
                p0 == old(self)@,
                p0.wf(),
                spec_cell_pass(init, p0.ball_x, p0.ball_y, idx as nat) == (PassModel {
                    boxes: self.boxes@,
                    tent_x: new_x as int,
                    tent_y: new_y as int,
                    dir_x: self.ball_dir.x as int,
                    dir_y: self.ball_dir.y as int,
                }),
            decreases BOX_COUNT - idx,
        {
            let bx = idx % BOX_PER_LINE;
            let by = idx / BOX_PER_LINE;
            let rect = Self::box_rect(bx, by);
            if self.boxes[idx] && ball_in_rect(Vec2i { x: new_x, y: new_y }, rect) {
                self.boxes[idx] = false;
                if ball_over_x_span(self.ball_pos, rect) {
                    self.ball_dir.y = -self.ball_dir.y;
                    if self.ball_pos.y > rect.bottom() {
                        new_y = rect.bottom() + BALL_RADIUS + PUSH_EPSILON;
                    } else {
                        new_y = rect.top() - BALL_RADIUS - PUSH_EPSILON;
                    }
                } else {
                    self.ball_dir.x = -self.ball_dir.x;
                    if self.ball_pos.x > rect.right() {
                        new_x = rect.right() + BALL_RADIUS + PUSH_EPSILON;
                    } else {
                        new_x = rect.left() - BALL_RADIUS - PUSH_EPSILON;
                    }
                }
            }
            proof {
                assert(spec_cell_pass(init, p0.ball_x, p0.ball_y, (idx + 1) as nat)
                    == spec_cell_step(
                    spec_cell_pass(init, p0.ball_x, p0.ball_y, idx as nat),
                    p0.ball_x,
                    p0.ball_y,
                    idx as int,
                ));
                assert(spec_cell_pass(init, p0.ball_x, p0.ball_y, (idx + 1) as nat)
                    =~= (PassModel {
                    boxes: self.boxes@,
                    tent_x: new_x as int,
                    tent_y: new_y as int,
                    dir_x: self.ball_dir.x as int,
                    dir_y: self.ball_dir.y as int,
                }));
            }
            idx += 1;
        }

        let prect = self.player_rect();
        if ball_in_rect(self.ball_pos, prect) {
            self.ball_dir.y = -self.ball_dir.y;
            new_y = prect.top() - BALL_RADIUS - PUSH_EPSILON;
        }
        self.ball_pos = Vec2i { x: new_x, y: new_y };
        proof {
            lemma_cell_pass_props(init, p0.ball_x, p0.ball_y, BOX_COUNT as nat);
            assert(self@ =~= spec_step(p0, dt as int).phys);
        }
        false
    }
}

} // verus!
