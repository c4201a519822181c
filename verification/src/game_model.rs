//! The round state machine and the frame-delta event deriver.
//!
//! Each tick, `GameModel::tick` snapshots the engine state, runs paddle
//! intents and one physics step (only while the round is `Active`), and
//! applies the round transition the step's outcome calls for. Presentation
//! layers never watch the engine mutate: they diff the two snapshots through
//! `derive_events` to learn what happened this tick.

use vstd::prelude::*;

verus! {

use crate::physics::{
    spec_move_player, spec_new_physics, spec_step, Physics, PhysModel, BOX_COUNT, BOX_PER_LINE,
    BOX_LINE_COUNT, MAX_DT,
};
use crate::ui::InGameUiModel;

/// The phase of the current round. `Start` is initial; `AwaitingOrientation`
/// interrupts any phase while the platform reports an unusable screen
/// orientation and returns to the interrupted phase when it clears.
#[derive(Clone, Copy, Debug, PartialEq, Eq, Structural)]
pub enum GameState {
    Start,
    Active,
    GameOver,
    Win,
    Paused,
    AwaitingOrientation,
}

/// A discrete gameplay event derived from one tick's state delta, for
/// presentation and audio collaborators.
#[derive(Clone, Copy, Debug, PartialEq, Eq, Structural)]
pub enum FrameEvent {
    /// The ball changed direction and no cell break explains it.
    BallBounced,
    /// The cell at this (column, row) was broken this tick.
    CellBroken(usize, usize),
    /// The ball left play through the bottom edge.
    BallEscaped,
}

/// The full game state one tick works on: the round phase now and at the
/// start of the tick, the phase to resume after an orientation interruption,
/// and the engine state before and after the tick's simulation.
#[derive(Debug)]
pub struct GameModel {
    pub prev_state: GameState,
    pub state: GameState,
    pub resume_state: GameState,
    pub old_physics: Physics,
    pub physics: Physics,
}

/// The mathematical model of a `GameModel`.
#[verifier::ext_equal]
pub ghost struct GameView {
    pub prev_state: GameState,
    pub state: GameState,
    pub resume_state: GameState,
    pub old_phys: PhysModel,
    pub phys: PhysModel,
}

impl View for GameModel {
    type V = GameView;

    open spec fn view(&self) -> GameView {
        GameView {
            prev_state: self.prev_state,
            state: self.state,
            resume_state: self.resume_state,
            old_phys: self.old_physics@,
            phys: self.physics@,
        }
    }
}

impl GameView {
    /// Both engine snapshots are well-formed, and the resume phase is a real
    /// phase, never the interruption itself.
    pub open spec fn wf(self) -> bool {
        &&& self.phys.wf()
        &&& self.old_phys.wf()
        &&& !(self.resume_state is AwaitingOrientation)
    }
}

/// Whether every cell of the grid is dead: the win condition.
pub open spec fn spec_all_dead(boxes: Seq<bool>) -> bool {
    forall|j: int| 0 <= j < boxes.len() ==> !boxes[j]
}

/// The game state a fresh `GameModel` starts in.
pub open spec fn spec_new_game() -> GameView {
    GameView {
        prev_state: GameState::Start,
        state: GameState::Start,
        resume_state: GameState::Start,
        old_phys: spec_new_physics(),
        phys: spec_new_physics(),
    }
}

/// One tick of the state machine. Every tick first forgets the cosmetic
/// paddle delta and re-bases both snapshots on the current engine state.
/// While the orientation signal is invalid the round is interrupted (the
/// phase to return to is remembered) and the simulation is frozen. Only in
/// `Active` do paddle intents and the physics step run; the step's outcome
/// then picks the transition: an escape ends the round, a cleared grid wins
/// it, otherwise a pause intent suspends it. `GameOver` and `Win` wait for a
/// confirm intent and then restart with the fixed fresh engine state, so
/// every reset is bit-identical. A fullscreen intent never touches the
/// simulation.
pub open spec fn spec_tick(m: GameView, dt: int, ui: InGameUiModel, orientation_ok: bool) -> GameView {
    let p0 = PhysModel { player_delta: 0, ..m.phys };
    let base = GameView {
        prev_state: m.state,
        state: m.state,
        resume_state: m.resume_state,
        old_phys: p0,
        phys: p0,
    };
    if !orientation_ok {
        if m.state is AwaitingOrientation {
            base
        } else {
            GameView { state: GameState::AwaitingOrientation, resume_state: m.state, ..base }
        }
    } else if m.state is AwaitingOrientation {
        GameView { state: m.resume_state, ..base }
    } else if m.state is Start {
        if ui.confirmation_detected {
            GameView { state: GameState::Active, ..base }
        } else {
            base
        }
    } else if m.state is Active {
        let p1 = if ui.left_movement_down {
            spec_move_player(p0, dt, false)
        } else {
            p0
        };
        let p2 = if ui.right_movement_down {
            spec_move_player(p1, dt, true)
        } else {
            p1
        };
        let s = spec_step(p2, dt);
        let next = if s.escaped {
            GameState::GameOver
        } else if spec_all_dead(s.phys.boxes) {
            GameState::Win
        } else if ui.pause_requested {
            GameState::Paused
        } else {
            GameState::Active
        };
        GameView { state: next, old_phys: p2, phys: s.phys, ..base }
    } else if m.state is GameOver || m.state is Win {
        if ui.confirmation_detected {
            GameView {
                state: GameState::Active,
                old_phys: spec_new_physics(),
                phys: spec_new_physics(),
                ..base
            }
        } else {
            base
        }
    } else {
        if ui.pause_requested {
            GameView { state: GameState::Active, ..base }
        } else {
            base
        }
    }
}

/// The `CellBroken` events for the first `k` cells, in the same row-major
/// order the collision pass visits them: one event per cell alive in `o` and
/// dead in `n`.
pub open spec fn spec_broken_events(o: Seq<bool>, n: Seq<bool>, k: nat) -> Seq<FrameEvent>
    decreases k,
{
    if k == 0 {
        Seq::empty()
    } else {
        let i = k - 1;
        let rest = spec_broken_events(o, n, (k - 1) as nat);
        if o[i] && !n[i] {
            rest.push(
                FrameEvent::CellBroken(
                    (i % (BOX_PER_LINE as int)) as usize,
                    (i / (BOX_PER_LINE as int)) as usize,
                ),
            )
        } else {
            rest
        }
    }
}

/// The ordered event list of one tick, derived from the engine snapshots
/// before (`o`) and after (`n`) the step and the step's escape flag: every
/// broken cell in row-major order; then `BallBounced` only when the
/// direction changed with no cell break and no escape to explain it (a break
/// or an escape suppresses the generic bounce, so feedback never doubles);
/// then `BallEscaped` when the ball left play.
pub open spec fn spec_frame_events(o: PhysModel, n: PhysModel, escaped: bool) -> Seq<FrameEvent> {
    let broken = spec_broken_events(o.boxes, n.boxes, BOX_COUNT as nat);
    let dir_changed = o.dir_x != n.dir_x || o.dir_y != n.dir_y;
    let with_bounce = if dir_changed && broken.len() == 0 && !escaped {
        broken.push(FrameEvent::BallBounced)
    } else {
        broken
    };
    if escaped {
        with_bounce.push(FrameEvent::BallEscaped)
    } else {
        with_bounce
    }
}

/// Diffs two engine snapshots of the same tick into the tick's event list.
pub fn derive_events(old_phys: &Physics, new_phys: &Physics, escaped: bool) -> (ev: Vec<FrameEvent>)
    requires
        old_phys@.boxes.len() == BOX_COUNT,
        new_phys@.boxes.len() == BOX_COUNT,
    ensures
        ev@ == spec_frame_events(old_phys@, new_phys@, escaped),
{
    let mut ev: Vec<FrameEvent> = Vec::new();
    let mut idx: usize = 0;
    while idx < BOX_COUNT
        invariant
            idx <= BOX_COUNT,
            old_phys@.boxes.len() == BOX_COUNT,
            new_phys@.boxes.len() == BOX_COUNT,
            ev@ == spec_broken_events(old_phys@.boxes, new_phys@.boxes, idx as nat),
        decreases BOX_COUNT - idx,
    {
        if old_phys.boxes[idx] && !new_phys.boxes[idx] {
            ev.push(FrameEvent::CellBroken(idx % BOX_PER_LINE, idx / BOX_PER_LINE));
        }
        idx += 1;
    }
    let dir_changed = old_phys.ball_dir != new_phys.ball_dir;
    if dir_changed && ev.len() == 0 && !escaped {
        ev.push(FrameEvent::BallBounced);
    }
    if escaped {
        ev.push(FrameEvent::BallEscaped);
    }
    ev
}

/// Scans the grid for any cell still alive: true iff the full scan finds
/// none, the round's win condition.
pub fn player_won(phy: &Physics) -> (r: bool)
    requires
        phy@.boxes.len() == BOX_COUNT,
    ensures
        r == spec_all_dead(phy@.boxes),
{
    let mut idx: usize = 0;
    while idx < BOX_COUNT
        invariant
            idx <= BOX_COUNT,
            phy@.boxes.len() == BOX_COUNT,
            forall|j: int| 0 <= j < idx ==> !phy@.boxes[j],
        decreases BOX_COUNT - idx,
    {
        if phy.boxes[idx] {
            return false;
        }
        idx += 1;
    }
    true
}

/// Every event the grid diff produces is a `CellBroken`.
proof fn lemma_broken_events_only_cells(o: Seq<bool>, n: Seq<bool>, k: nat)
    ensures
        forall|i: int|
            0 <= i < spec_broken_events(o, n, k).len() ==> spec_broken_events(o, n, k)[i]
                is CellBroken,
    decreases k,
{
    if k > 0 {
        lemma_broken_events_only_cells(o, n, (k - 1) as nat);
    }
}

/// Event exclusivity: within one tick, `BallBounced` never stands beside a
/// `CellBroken` or a `BallEscaped` — a bounce is only reported when nothing
/// else explains the direction change.
pub proof fn lemma_events_exclusive(o: PhysModel, n: PhysModel, escaped: bool)
    ensures
        forall|i: int, j: int|
            0 <= i < spec_frame_events(o, n, escaped).len() && 0 <= j < spec_frame_events(
                o,
                n,
                escaped,
            ).len() && spec_frame_events(o, n, escaped)[i] is BallBounced ==> !(spec_frame_events(
                o,
                n,
                escaped,
            )[j] is CellBroken) && !(spec_frame_events(o, n, escaped)[j] is BallEscaped),
{
    lemma_broken_events_only_cells(o.boxes, n.boxes, BOX_COUNT as nat);
}

/// Round reset determinism: any two confirmed resets out of `GameOver` or
/// `Win` — whatever the frame times, the other intents, or the state the
/// rounds ended in — both restart `Active` with the one fixed fresh engine
/// state, bit-identical between the two.
pub proof fn lemma_reset_deterministic(
    m1: GameView,
    m2: GameView,
    dt1: int,
    dt2: int,
    ui1: InGameUiModel,
    ui2: InGameUiModel,
)
    requires
        m1.state is GameOver || m1.state is Win,
        m2.state is GameOver || m2.state is Win,
        ui1.confirmation_detected,
        ui2.confirmation_detected,
    ensures
        spec_tick(m1, dt1, ui1, true).state is Active,
        spec_tick(m1, dt1, ui1, true).phys == spec_new_physics(),
        spec_tick(m1, dt1, ui1, true).phys == spec_tick(m2, dt2, ui2, true).phys,
{
}

/// Monotonic cell death: over a whole tick, in any phase, a dead cell never
/// comes back to life — except through the explicit round reset out of
/// `GameOver` or `Win`, which starts a new round.
pub proof fn lemma_tick_cells_monotone(
    m: GameView,
    dt: int,
    ui: InGameUiModel,
    orientation_ok: bool,
)
    requires
        m.wf(),
        !(m.state is GameOver),
        !(m.state is Win),
    ensures
        forall|j: int|
            0 <= j < BOX_COUNT && !m.phys.boxes[j] ==> !spec_tick(
                m,
                dt,
                ui,
                orientation_ok,
            ).phys.boxes[j],
{
    if orientation_ok && m.state is Active {
        let p0 = PhysModel { player_delta: 0, ..m.phys };
        let p1 = if ui.left_movement_down {
            spec_move_player(p0, dt, false)
        } else {
            p0
        };
        let p2 = if ui.right_movement_down {
            spec_move_player(p1, dt, true)
        } else {
            p1
        };
        let w = crate::physics::spec_wall_stage(p2, dt);
        if !w.escaped {
            let init = crate::physics::PassModel {
                boxes: p2.boxes,
                tent_x: w.tent_x,
                tent_y: w.tent_y,
                dir_x: w.dir_x,
                dir_y: w.dir_y,
            };
            crate::physics::lemma_cell_pass_props(init, p2.ball_x, p2.ball_y, BOX_COUNT as nat);
        }
    }
}

impl GameModel {
    /// A fresh game: round phase `Start`, fresh engine state in both
    /// snapshots.
    pub fn new() -> (m: GameModel)
        ensures
            m@ == spec_new_game(),
            m@.wf(),
    {
        let m = GameModel {
            prev_state: GameState::Start,
            state: GameState::Start,
            resume_state: GameState::Start,
            old_physics: Physics::new(),
            physics: Physics::new(),
        };
        proof {
            assert(m@ =~~= spec_new_game());
        }
        m
    }

    /// Runs one tick: intents in, transition applied, snapshots left for
    /// event derivation. `dt` is the frame time in milliseconds;
    /// `orientation_ok` is the platform's orientation signal, true where the
    /// platform has none.
    pub fn tick(&mut self, dt: i64, ui: &InGameUiModel, orientation_ok: bool)
        requires
            old(self)@.wf(),
            0 <= dt <= MAX_DT,
        ensures
            final(self)@ == spec_tick(old(self)@, dt as int, *ui, orientation_ok),
            final(self)@.wf(),
    {
        self.prev_state = self.state;
        self.physics.new_frame();
        self.old_physics = self.physics.snapshot();
        if !orientation_ok {
            if !(self.state == GameState::AwaitingOrientation) {
                self.resume_state = self.state;
                self.state = GameState::AwaitingOrientation;
            }
        } else {
            match self.state {
                GameState::AwaitingOrientation => {
                    self.state = self.resume_state;
                },
                GameState::Start => {
                    if ui.confirmation_detected() {
                        self.state = GameState::Active;
                    }
                },
                GameState::Active => {
                    if ui.move_left() {
                        self.physics.move_player(dt, false);
                    }
                    if ui.move_right() {
                        self.physics.move_player(dt, true);
                    }
                    self.old_physics = self.physics.snapshot();
                    let escaped = self.physics.update(dt);
                    let won = player_won(&self.physics);
                    if escaped {
                        self.state = GameState::GameOver;
                    } else if won {
                        self.state = GameState::Win;
                    } else if ui.pause_requested() {
                        self.state = GameState::Paused;
                    }
                },
                GameState::GameOver | GameState::Win => {
                    if ui.confirmation_detected() {
                        self.physics = Physics::new();
                        self.old_physics = Physics::new();
                        self.state = GameState::Active;
                    }
                },
                GameState::Paused => {
                    if ui.pause_requested() {
                        self.state = GameState::Active;
                    }
                },
            }
        }
        proof {
            assert(self@ =~~= spec_tick(old(self)@, dt as int, *ui, orientation_ok));
        }
    }

    /// Whether the ball's direction changed over this tick's step.
    pub fn ball_bounced(&self) -> (r: bool)
        ensures
            r == (self@.old_phys.dir_x != self@.phys.dir_x || self@.old_phys.dir_y
                != self@.phys.dir_y),
    {
        self.old_physics.ball_dir != self.physics.ball_dir
    }

    /// The first cell (in row-major scan order) whose alive flag changed
    /// over this tick's step, as `(column, row)`; `None` when the grids
    /// match.
    pub fn broken_box(&self) -> (r: Option<(usize, usize)>)
        requires
            self@.old_phys.boxes.len() == BOX_COUNT,
            self@.phys.boxes.len() == BOX_COUNT,
        ensures
            match r {
                Some(p) => {
                    let i = p.1 * BOX_PER_LINE + p.0;
                    &&& p.0 < BOX_PER_LINE
                    &&& p.1 < BOX_LINE_COUNT
                    &&& self@.old_phys.boxes[i as int] != self@.phys.boxes[i as int]
                    &&& forall|j: int|
                        0 <= j < i ==> self@.old_phys.boxes[j] == self@.phys.boxes[j]
                },
                None => forall|j: int|
                    0 <= j < BOX_COUNT ==> self@.old_phys.boxes[j] == self@.phys.boxes[j],
            },
    {
        let mut idx: usize = 0;
        while idx < BOX_COUNT
            invariant
                idx <= BOX_COUNT,
                self@.old_phys.boxes.len() == BOX_COUNT,
                self@.phys.boxes.len() == BOX_COUNT,
                forall|j: int| 0 <= j < idx ==> self@.old_phys.boxes[j] == self@.phys.boxes[j],
            decreases BOX_COUNT - idx,
        {
            if self.physics.boxes[idx] != self.old_physics.boxes[idx] {
                return Some((idx % BOX_PER_LINE, idx / BOX_PER_LINE));
            }
            idx += 1;
        }
        None
    }

    /// Whether this tick moved the round from `Active` to `GameOver`.
    pub fn gameover_just_happened(&self) -> (r: bool)
        ensures
            r == (self@.prev_state is Active && self@.state is GameOver),
    {
        self.prev_state == GameState::Active && self.state == GameState::GameOver
    }

    /// This tick's event list, derived from the stored snapshots; the ball
    /// escaped this tick exactly where the round just moved from `Active` to
    /// `GameOver`.
    pub fn frame_events(&self) -> (ev: Vec<FrameEvent>)
        requires
            self@.wf(),
        ensures
            ev@ == spec_frame_events(
                self@.old_phys,
                self@.phys,
                self@.prev_state is Active && self@.state is GameOver,
            ),
    {
        let escaped = self.gameover_just_happened();
        derive_events(&self.old_physics, &self.physics, escaped)
    }
}

} // verus!
