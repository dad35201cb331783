//! The game as mathematics: a session's state and what each operation makes of
//! it. The executable game is specified against these functions.
use crate::clock::elapsed;
use crate::grid::{in_grid, lemma_distinct_cells_fit, step, Cell, Direction, GRID_SIZE};
use crate::input::Pressed;
use crate::pace::{
    decayed, lemma_speed_never_above_initial, lemma_speed_stays_positive, speed_after,
    INITIAL_SPEED,
};
use vstd::prelude::*;

verus! {

/// Points gained for each target reached.
pub const SCORE_BONUS: u32 = 100;

/// What one step did.
#[derive(Clone, Copy, Debug, PartialEq, Eq, Structural)]
pub enum TickOutcome {
    /// The snake moved on by one cell.
    Moved,
    /// The snake reached the target and grew by one cell.
    Grew,
    /// The snake left the grid or ran into itself: the session is lost.
    GameOver,
}

/// The state of a session.
pub struct GameView {
    /// The cell of the snake's head.
    pub head: Cell,
    /// The direction in which the snake travels.
    pub direction: Direction,
    /// The cells behind the head, the nearest to the head first.
    pub body: Seq<Cell>,
    /// The cell that the snake is to reach next.
    pub target: Cell,
    /// The points gained so far.
    pub score: nat,
    /// The shortest time between two steps.
    pub speed: nat,
    /// Set once a turn has been taken, until the next step.
    pub navigation_lock: bool,
    /// Set when the session is lost.
    pub game_over: bool,
    /// The time of the last step.
    pub last_tick: nat,
}

impl GameView {
    /// A fresh session, started at `now` with its first target at `target`.
    pub open spec fn initial(now: nat, target: Cell) -> GameView {
        GameView {
            head: (0, 0),
            direction: Direction::Right,
            body: Seq::empty(),
            target,
            score: 0,
            speed: INITIAL_SPEED as nat,
            navigation_lock: false,
            game_over: false,
            last_tick: now,
        }
    }

    /// What holds of every session, however it was played:
    /// the body lies on the grid and crosses no cell twice; the target lies on
    /// the grid; score and speed are those of a snake that has grown by one
    /// cell per target; and until the session is lost the head lies on the
    /// grid, off the body.
    pub open spec fn valid(self) -> bool {
        &&& forall|i: int| 0 <= i < self.body.len() ==> in_grid(#[trigger] self.body[i])
        &&& self.body.no_duplicates()
        &&& in_grid(self.target)
        &&& self.score == SCORE_BONUS * self.body.len()
        &&& self.speed == speed_after(self.body.len())
        &&& !self.game_over ==> in_grid(self.head) && !self.body.contains(self.head)
    }

    /// Whether a running session can have the snake `head`, `body` and the
    /// target `target`: all lie on the grid, and the snake crosses no cell
    /// twice.
    pub open spec fn resumable(head: Cell, body: Seq<Cell>, target: Cell) -> bool {
        &&& in_grid(head)
        &&& in_grid(target)
        &&& forall|i: int| 0 <= i < body.len() ==> in_grid(#[trigger] body[i])
        &&& body.no_duplicates()
        &&& !body.contains(head)
    }

    /// The running session with the given snake and target, whose last step
    /// was at `last_tick`. Score and speed are those of a snake that has grown
    /// to this length one target at a time.
    pub open spec fn resumed(
        head: Cell,
        direction: Direction,
        body: Seq<Cell>,
        target: Cell,
        navigation_lock: bool,
        last_tick: nat,
    ) -> GameView {
        GameView {
            head,
            direction,
            body,
            target,
            score: SCORE_BONUS as nat * body.len(),
            speed: speed_after(body.len()),
            navigation_lock,
            game_over: false,
            last_tick,
        }
    }

    /// Whether a step is due at `now`.
    pub open spec fn due(self, now: nat) -> bool {
        elapsed(self.last_tick as int, now as int, self.speed as int)
    }

    /// The cell that the head enters with the next step.
    pub open spec fn next_head(self) -> Cell {
        step(self.head, self.direction)
    }

    /// Whether the next step takes the head onto the target.
    pub open spec fn reaches_target(self) -> bool {
        self.next_head() == self.target
    }

    /// The state after the keys in `pressed` were read.
    ///
    /// A lost session, and one that has turned since its last step, stay as
    /// they are. Otherwise the snake turns to the direction that the keys
    /// select, if any, and takes no further turn before the next step.
    pub open spec fn apply_input(self, pressed: Pressed) -> GameView {
        if self.game_over || self.navigation_lock {
            self
        } else {
            match pressed.selects(self.direction) {
                Some(d) => GameView { direction: d, navigation_lock: true, ..self },
                None => self,
            }
        }
    }

    /// The body after the next step: the old head in front, and the last cell
    /// dropped unless the head reaches the target.
    pub open spec fn next_body(self) -> Seq<Cell> {
        let grown = seq![self.head] + self.body;
        if self.reaches_target() {
            grown
        } else {
            grown.drop_last()
        }
    }

    /// The state after a step taken at `now`, where `fresh` is the cell of the
    /// next target should the head reach the present one.
    pub open spec fn tick(self, now: nat, fresh: Cell) -> GameView {
        let head = self.next_head();
        let body = self.next_body();
        let grows = self.reaches_target();
        GameView {
            head,
            direction: self.direction,
            body,
            target: if grows { fresh } else { self.target },
            score: if grows { self.score + SCORE_BONUS as nat } else { self.score },
            speed: if grows { decayed(self.speed) } else { self.speed },
            navigation_lock: false,
            game_over: self.game_over || !in_grid(head) || body.contains(head),
            last_tick: now,
        }
    }

    /// What the step from this state reports.
    pub open spec fn outcome(self) -> TickOutcome {
        if !in_grid(self.next_head()) || self.next_body().contains(self.next_head()) {
            TickOutcome::GameOver
        } else if self.reaches_target() {
            TickOutcome::Grew
        } else {
            TickOutcome::Moved
        }
    }
}

/// A snake that can be resumed can be resumed with one more cell at its end,
/// if that cell lies on the grid and the snake does not cross it yet.
pub proof fn lemma_resumable_grows(head: Cell, body: Seq<Cell>, target: Cell, last: Cell)
    requires
        GameView::resumable(head, body, target),
        in_grid(last),
        last != head,
        !body.contains(last),
    ensures
        GameView::resumable(head, body.push(last), target),
{
    let longer = body.push(last);
    assert forall|i: int| 0 <= i < longer.len() implies in_grid(#[trigger] longer[i]) by {
        if i < body.len() {
            assert(longer[i] == body[i]);
        }
    }
    assert forall|i: int, j: int|
        0 <= i < longer.len() && 0 <= j < longer.len() && i != j implies longer[i]
        != longer[j] by {
        if i < body.len() && j < body.len() {
            assert(longer[i] == body[i] && longer[j] == body[j]);
        } else if i < body.len() {
            assert(body.contains(longer[i]));
        } else {
            assert(body.contains(longer[j]));
        }
    }
    if longer.contains(head) {
        let k = choose|k: int| 0 <= k < longer.len() && longer[k] == head;
        assert(body[k] == head);
    }
}

/// The snake of a session that is not lost, head first: it lies on the grid
/// and crosses no cell twice.
proof fn lemma_snake_is_simple(v: GameView)
    requires
        v.valid(),
        !v.game_over,
    ensures
        (seq![v.head] + v.body).no_duplicates(),
        forall|i: int|
            0 <= i < (seq![v.head] + v.body).len() ==> in_grid(
                #[trigger] (seq![v.head] + v.body)[i],
            ),
{
    let snake = seq![v.head] + v.body;
    assert forall|i: int| 0 <= i < snake.len() implies in_grid(#[trigger] snake[i]) by {
        if i > 0 {
            assert(snake[i] == v.body[i - 1]);
        }
    }
    assert forall|i: int, j: int|
        0 <= i < snake.len() && 0 <= j < snake.len() && i != j implies snake[i] != snake[j] by {
        if i > 0 && j > 0 {
            assert(snake[i] == v.body[i - 1] && snake[j] == v.body[j - 1]);
        } else if i > 0 {
            assert(v.body.contains(snake[i]));
        } else {
            assert(v.body.contains(snake[j]));
        }
    }
}

/// The snake of a session is never longer than the grid has cells, and while
/// the session is not lost there is a cell left for its head. So the score and
/// the time between steps stay within fixed bounds.
pub proof fn lemma_valid_is_bounded(v: GameView)
    requires
        v.valid(),
    ensures
        v.body.len() <= GRID_SIZE * GRID_SIZE,
        !v.game_over ==> v.body.len() < GRID_SIZE * GRID_SIZE,
        v.score <= SCORE_BONUS * (GRID_SIZE * GRID_SIZE),
        0 < v.speed <= INITIAL_SPEED,
{
    lemma_distinct_cells_fit(v.body);
    lemma_speed_never_above_initial(v.body.len());
    lemma_speed_stays_positive(v.body.len());
    if !v.game_over {
        lemma_snake_is_simple(v);
        lemma_distinct_cells_fit(seq![v.head] + v.body);
    }
}

/// A step taken in a session that is not lost, with a new target on the grid
/// at hand, leaves a session of which all that `valid` says holds again.
pub proof fn lemma_tick_keeps_valid(v: GameView, now: nat, fresh: Cell)
    requires
        v.valid(),
        !v.game_over,
        in_grid(fresh),
    ensures
        v.tick(now, fresh).valid(),
{
    let snake = seq![v.head] + v.body;
    let body = v.next_body();
    lemma_snake_is_simple(v);
    assert forall|i: int| 0 <= i < body.len() implies in_grid(#[trigger] body[i]) by {
        assert(body[i] == snake[i]);
    }
    assert forall|i: int, j: int|
        0 <= i < body.len() && 0 <= j < body.len() && i != j implies body[i] != body[j] by {
        assert(body[i] == snake[i] && body[j] == snake[j]);
    }
}

} // verus!
