//! The per-tick input intents, abstracted away from any input device. The
//! application shell polls keyboard, mouse or touch and fills one of these
//! in; the state machine consumes it.

use vstd::prelude::*;

verus! {

use crate::game_model::GameState;

/// One tick's worth of player intents. Movement intents are level signals
/// (both may be down at once); the others are edge-triggered. The round
/// state it was sampled in rides along for presentation layers.
#[derive(Clone, Copy, Debug, PartialEq, Eq, Structural)]
pub struct InGameUiModel {
    pub state: GameState,
    pub left_movement_down: bool,
    pub right_movement_down: bool,
    pub confirmation_detected: bool,
    pub pause_requested: bool,
    pub fullscreen_toggle_requested: bool,
}

impl InGameUiModel {
    /// Bundles one tick's intents.
    pub fn new(
        state: GameState,
        left_movement_down: bool,
        right_movement_down: bool,
        confirmation_detected: bool,
        pause_requested: bool,
        fullscreen_toggle_requested: bool,
    ) -> (r: InGameUiModel)
        ensures
            r == (InGameUiModel {
                state,
                left_movement_down,
                right_movement_down,
                confirmation_detected,
                pause_requested,
                fullscreen_toggle_requested,
            }),
    {
        InGameUiModel {
            state,
            left_movement_down,
            right_movement_down,
            confirmation_detected,
            pause_requested,
            fullscreen_toggle_requested,
        }
    }

    /// Whether the player holds the move-left control.
    pub fn move_left(&self) -> (r: bool)
        ensures
            r == self.left_movement_down,
    {
        self.left_movement_down
    }

    /// Whether the player holds the move-right control.
    pub fn move_right(&self) -> (r: bool)
        ensures
            r == self.right_movement_down,
    {
        self.right_movement_down
    }

    /// Whether a confirm action arrived this tick.
    pub fn confirmation_detected(&self) -> (r: bool)
        ensures
            r == self.confirmation_detected,
    {
        self.confirmation_detected
    }

    /// Whether a pause toggle arrived this tick.
    pub fn pause_requested(&self) -> (r: bool)
        ensures
            r == self.pause_requested,
    {
        self.pause_requested
    }

    /// Whether a fullscreen toggle arrived this tick; forwarded to the
    /// platform layer untouched, with no effect on the simulation.
    pub fn fullscreen_toggle_requested(&self) -> (r: bool)
        ensures
            r == self.fullscreen_toggle_requested,
    {
        self.fullscreen_toggle_requested
    }
}

} // verus!
