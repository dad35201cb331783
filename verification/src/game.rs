//! The game itself: the state of a session and the operations that advance it.
use crate::clock::GameClock;
use crate::grid::{in_grid, lemma_distinct_cells_fit, Cell, Direction, Position};
use crate::input::Pressed;
use crate::model::{
    lemma_resumable_grows, lemma_tick_keeps_valid, lemma_valid_is_bounded, GameView, TickOutcome,
    SCORE_BONUS,
};
use crate::pace::{decay, decayed, lemma_speed_never_above_initial, speed_after, INITIAL_SPEED};
use crate::random::random_position;
use std::collections::VecDeque;
use vstd::prelude::*;

verus! {

/// The cells of stored positions, in the same order.
pub open spec fn cells(positions: Seq<Position>) -> Seq<Cell> {
    positions.map_values(|p: Position| p@)
}

/// A session of the game.
pub struct GameState {
    head: Position,
    direction: Direction,
    body: VecDeque<Position>,
    target: Position,
    score: u32,
    speed: u64,
    navigation_lock: bool,
    game_over: bool,
    clock: GameClock,
}

impl View for GameState {
    type V = GameView;

    closed spec fn view(&self) -> GameView {
        GameView {
            head: self.head@,
            direction: self.direction,
            body: cells(self.body@),
            target: self.target@,
            score: self.score as nat,
            speed: self.speed as nat,
            navigation_lock: self.navigation_lock,
            game_over: self.game_over,
            last_tick: self.clock@,
        }
    }
}

impl GameState {
    /// A fresh session, started at `now`, whose first target is `target`.
    pub fn new_with_target(now: u64, target: Position) -> (game: GameState)
        requires
            in_grid(target@),
        ensures
            game@ == GameView::initial(now as nat, target@),
            game@.valid(),
    {
        let game = GameState {
            head: Position { x: 0, y: 0 },
            direction: Direction::Right,
            body: VecDeque::new(),
            target,
            score: 0,
            speed: INITIAL_SPEED,
            navigation_lock: false,
            game_over: false,
            clock: GameClock::starting_at(now),
        };
        assert(game@.body =~= Seq::<Cell>::empty());
        game
    }

    /// A fresh session, started at `now`, with its first target drawn at
    /// random.
    pub fn new(now: u64) -> (game: GameState)
        ensures
            game@ == GameView::initial(now as nat, game@.target),
            in_grid(game@.target),
            game@.valid(),
    {
        GameState::new_with_target(now, random_position())
    }

    /// The running session with the given snake and target, whose last step
    /// was at `last_tick`; `body` lists the cells behind the head, the nearest
    /// first. There is none where a cell is off the grid or the snake crosses
    /// a cell twice.
    pub fn from_parts(
        head: Position,
        direction: Direction,
        body: Vec<Position>,
        target: Position,
        navigation_lock: bool,
        last_tick: u64,
    ) -> (game: Option<GameState>)
        ensures
            game is Some <==> GameView::resumable(head@, cells(body@), target@),
            game matches Some(g) ==> {
                &&& g@ == GameView::resumed(
                    head@,
                    direction,
                    cells(body@),
                    target@,
                    navigation_lock,
                    last_tick as nat,
                )
                &&& g@.valid()
            },
    {
        if !head.in_grid() || !target.in_grid() {
            return None;
        }
        let ghost all = cells(body@);
        let mut deque: VecDeque<Position> = VecDeque::new();
        let mut score: u32 = 0;
        let mut speed: u64 = INITIAL_SPEED;
        let mut i: usize = 0;
        while i < body.len()
            invariant
                i <= body@.len(),
                all == cells(body@),
                deque@ == body@.take(i as int),
                GameView::resumable(head@, all.take(i as int), target@),
                score == SCORE_BONUS * i,
                speed == speed_after(i as nat),
            decreases body@.len() - i,
        {
            let p = body[i];
            let ghost seen = all.take(i as int);
            assert(all[i as int] == p@);
            if !p.in_grid() || p == head {
                return None;
            }
            let mut j: usize = 0;
            while j < i
                invariant
                    j <= i < body@.len(),
                    all == cells(body@),
                    p == body@[i as int],
                    forall|k: int| 0 <= k < j ==> all[k] != p@,
                decreases i - j,
            {
                if body[j] == p {
                    assert(all[j as int] == all[i as int]);
                    return None;
                }
                j = j + 1;
            }
            proof {
                assert(all.take(i + 1) =~= seen.push(p@));
                lemma_resumable_grows(head@, seen, target@, p@);
                lemma_distinct_cells_fit(all.take(i + 1));
                lemma_speed_never_above_initial(i as nat);
            }
            deque.push_back(p);
            score = score + SCORE_BONUS;
            speed = decay(speed);
            i = i + 1;
        }
        proof {
            assert(all.take(i as int) =~= all);
            assert(body@.take(i as int) =~= body@);
        }
        Some(
            GameState {
                head,
                direction,
                body: deque,
                target,
                score,
                speed,
                navigation_lock,
                game_over: false,
                clock: GameClock::starting_at(last_tick),
            },
        )
    }

    /// Starts the session over at `now`, with its first target at `target`:
    /// whatever the state was, it is that of a fresh session afterwards.
    pub fn reset_with_target(&mut self, now: u64, target: Position)
        requires
            in_grid(target@),
        ensures
            final(self)@ == GameView::initial(now as nat, target@),
            final(self)@.valid(),
    {
        *self = GameState::new_with_target(now, target);
    }

    /// Starts the session over at `now`, with its first target drawn at
    /// random: whatever the state was, it is that of a fresh session
    /// afterwards.
    pub fn reset(&mut self, now: u64)
        ensures
            final(self)@ == GameView::initial(now as nat, final(self)@.target),
            in_grid(final(self)@.target),
            final(self)@.valid(),
    {
        self.reset_with_target(now, random_position());
    }

    /// Reads the held keys.
    ///
    /// A lost session, and one that has turned since its last step, stay as
    /// they are. Otherwise the snake turns to the first direction, in the order
    /// right, left, up, down, whose key is held and which does not point back
    /// along the present one; having turned, it takes no further turn before
    /// the next step. The direction is never reversed.
    pub fn apply_input(&mut self, pressed: Pressed)
        requires
            old(self)@.valid(),
        ensures
            final(self)@ == old(self)@.apply_input(pressed),
            final(self)@.valid(),
            final(self)@.direction != old(self)@.direction.opposite(),
    {
        if !self.game_over && !self.navigation_lock {
            match pressed.select(self.direction) {
                Some(d) => {
                    self.direction = d;
                    self.navigation_lock = true;
                },
                None => {},
            }
        }
    }

    /// Whether `p` is a cell of the body.
    fn body_holds(&self, p: Position) -> (found: bool)
        ensures
            found == self@.body.contains(p@),
    {
        let mut found = false;
        let mut i: usize = 0;
        while i < self.body.len()
            invariant
                i <= self.body@.len(),
                found == cells(self.body@).take(i as int).contains(p@),
            decreases self.body@.len() - i,
        {
            let q = self.body[i];
            proof {
                let seen = cells(self.body@).take(i as int);
                let more = cells(self.body@).take(i + 1);
                assert(more =~= seen.push(q@));
                assert(more.contains(p@) <==> seen.contains(p@) || q@ == p@) by {
                    if seen.contains(p@) {
                        let j = choose|j: int| 0 <= j < seen.len() && seen[j] == p@;
                        assert(more[j] == p@);
                    }
                    if q@ == p@ {
                        assert(more[i as int] == p@);
                    }
                }
            }
            if q == p {
                found = true;
            }
            i = i + 1;
        }
        assert(cells(self.body@).take(i as int) =~= cells(self.body@));
        found
    }

    /// Takes one step of the simulation at `now`; `fresh` becomes the target
    /// if the head reaches the present one.
    ///
    /// The old head joins the front of the body and the head moves one cell on
    /// in the present direction. If it is then on the target, the target moves
    /// to `fresh`, the score rises by `SCORE_BONUS` and the time between steps
    /// shrinks; if not, the body loses its last cell. The session is lost if
    /// the head has left the grid or lies on a cell of the body. The snake may
    /// turn again.
    pub fn tick_with_target(&mut self, now: u64, fresh: Position) -> (outcome: TickOutcome)
        requires
            old(self)@.valid(),
            !old(self)@.game_over,
            old(self)@.due(now as nat),
            in_grid(fresh@),
        ensures
            final(self)@ == old(self)@.tick(now as nat, fresh@),
            final(self)@.valid(),
            outcome == old(self)@.outcome(),
            !in_grid(final(self)@.head) ==> final(self)@.game_over,
            !old(self)@.reaches_target() ==> final(self)@.body.len() == old(self)@.body.len(),
            old(self)@.reaches_target() ==> {
                &&& final(self)@.body.len() == old(self)@.body.len() + 1
                &&& final(self)@.score == old(self)@.score + SCORE_BONUS
                &&& final(self)@.speed == decayed(old(self)@.speed)
            },
    {
        proof {
            lemma_valid_is_bounded(self@);
            lemma_tick_keeps_valid(self@, now as nat, fresh@);
        }
        self.clock.record_tick(now);
        self.body.push_front(self.head);
        self.head = self.head.step(self.direction);
        let grows = self.head == self.target;
        if grows {
            self.target = fresh;
            self.score = self.score + SCORE_BONUS;
            self.speed = decay(self.speed);
        } else {
            self.body.pop_back();
        }
        assert(cells(self.body@) =~= old(self)@.next_body());
        let outside = !self.head.in_grid();
        let collides = self.body_holds(self.head);
        if outside {
            self.game_over = true;
        }
        if collides {
            self.game_over = true;
        }
        self.navigation_lock = false;
        if outside || collides {
            TickOutcome::GameOver
        } else if grows {
            TickOutcome::Grew
        } else {
            TickOutcome::Moved
        }
    }

    /// Takes one step of the simulation at `now`, as `tick_with_target` does;
    /// if the head reaches the target, the next target is drawn at random.
    ///
    /// Which cell is drawn is not known beforehand, so the state afterwards is
    /// given in terms of the target that it holds.
    pub fn tick(&mut self, now: u64) -> (outcome: TickOutcome)
        requires
            old(self)@.valid(),
            !old(self)@.game_over,
            old(self)@.due(now as nat),
        ensures
            final(self)@ == old(self)@.tick(now as nat, final(self)@.target),
            final(self)@.valid(),
            outcome == old(self)@.outcome(),
            !in_grid(final(self)@.head) ==> final(self)@.game_over,
            !old(self)@.reaches_target() ==> final(self)@.body.len() == old(self)@.body.len(),
            old(self)@.reaches_target() ==> {
                &&& final(self)@.body.len() == old(self)@.body.len() + 1
                &&& final(self)@.score == old(self)@.score + SCORE_BONUS
                &&& final(self)@.speed == decayed(old(self)@.speed)
            },
    {
        let fresh = if self.head.step(self.direction) == self.target {
            random_position()
        } else {
            self.target
        };
        self.tick_with_target(now, fresh)
    }

    /// The cell of the snake's head.
    pub fn head(&self) -> (p: Position)
        ensures
            p@ == self@.head,
    {
        self.head
    }

    /// The direction in which the snake travels.
    pub fn direction(&self) -> (d: Direction)
        ensures
            d == self@.direction,
    {
        self.direction
    }

    /// The cells behind the head, the nearest to the head first.
    pub fn body(&self) -> (b: &VecDeque<Position>)
        ensures
            cells(b@) == self@.body,
    {
        &self.body
    }

    /// The cell that the snake is to reach next.
    pub fn target(&self) -> (p: Position)
        ensures
            p@ == self@.target,
    {
        self.target
    }

    /// The points gained so far.
    pub fn score(&self) -> (s: u32)
        ensures
            s == self@.score,
    {
        self.score
    }

    /// The shortest time between two steps.
    pub fn speed(&self) -> (s: u64)
        ensures
            s == self@.speed,
    {
        self.speed
    }

    /// Whether the snake has turned since its last step.
    pub fn navigation_lock(&self) -> (locked: bool)
        ensures
            locked == self@.navigation_lock,
    {
        self.navigation_lock
    }

    /// Whether the session is lost.
    pub fn is_game_over(&self) -> (over: bool)
        ensures
            over == self@.game_over,
    {
        self.game_over
    }

    /// The time of the last step.
    pub fn last_tick(&self) -> (t: u64)
        ensures
            t == self@.last_tick,
    {
        self.clock.last_tick()
    }

    /// Whether a step is due at `now`: the time between steps has passed since
    /// the last one.
    pub fn is_due(&self, now: u64) -> (due: bool)
        ensures
            due == self@.due(now as nat),
    {
        self.clock.elapsed_since(now, self.speed)
    }
}

} // verus!
