//! One frame of the program that drives the game: what it hands in, what the
//! game does with it, and what is to be drawn afterwards.
use crate::game::GameState;
use crate::grid::Cell;
use crate::input::Pressed;
use crate::model::GameView;
use vstd::prelude::*;

verus! {

/// What the driving program reads once per frame.
#[derive(Clone, Copy, Debug)]
pub struct FrameInput {
    /// The directional keys that are held.
    pub pressed: Pressed,
    /// Whether the key that starts a new session is held.
    pub restart: bool,
    /// The present time.
    pub now: u64,
}

/// What the driving program is to draw at the end of a frame.
#[derive(Clone, Copy, Debug, PartialEq, Eq, Structural)]
pub enum Scene {
    /// The grid with the snake, the target and the score.
    Board,
    /// Nothing: the session was lost in this very frame.
    Nothing,
    /// The notice that the session is lost and how to start a new one.
    LossScreen,
}

/// The state after a frame with `input`, where `fresh` is the cell of the
/// next target should one be needed.
///
/// While the session is not lost, the keys are read and then, if one is due,
/// a step is taken. Once it is lost, nothing moves until the restart key is
/// held, which starts the session over.
pub open spec fn frame(v: GameView, input: FrameInput, fresh: Cell) -> GameView {
    if !v.game_over {
        let steered = v.apply_input(input.pressed);
        if steered.due(input.now as nat) {
            steered.tick(input.now as nat, fresh)
        } else {
            steered
        }
    } else if input.restart {
        GameView::initial(input.now as nat, fresh)
    } else {
        v
    }
}

/// What is to be drawn at the end of a frame that began in state `before`
/// and ended in state `after`.
pub open spec fn scene(before: GameView, after: GameView) -> Scene {
    if before.game_over {
        Scene::LossScreen
    } else if after.game_over {
        Scene::Nothing
    } else {
        Scene::Board
    }
}

impl GameState {
    /// Runs one frame: reads the keys and takes a step if one is due while the
    /// session is not lost, starts over if it is lost and the restart key is
    /// held, and says what is to be drawn.
    ///
    /// A new target, where one is needed, is drawn at random, so the state
    /// afterwards is given in terms of the target that it holds.
    pub fn frame(&mut self, input: FrameInput) -> (shown: Scene)
        requires
            old(self)@.valid(),
        ensures
            final(self)@ == frame(old(self)@, input, final(self)@.target),
            final(self)@.valid(),
            shown == scene(old(self)@, final(self)@),
    {
        if !self.is_game_over() {
            self.apply_input(input.pressed);
            if self.is_due(input.now) {
                self.tick(input.now);
            }
            if !self.is_game_over() {
                Scene::Board
            } else {
                Scene::Nothing
            }
        } else {
            if input.restart {
                self.reset(input.now);
            }
            Scene::LossScreen
        }
    }
}

} // verus!
