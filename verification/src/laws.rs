//! What holds of the game however it is played, proved of the model that the
//! executable game is specified against.
use crate::frame::{frame, FrameInput};
use crate::grid::{in_grid, Cell};
use crate::input::Pressed;
use crate::model::{lemma_tick_keeps_valid, lemma_valid_is_bounded, GameView};
use crate::pace::{decayed, INITIAL_SPEED};
use vstd::prelude::*;

verus! {

/// Something that happens to a session.
pub enum Event {
    /// The held keys are read.
    Keys(Pressed),
    /// A step is taken at `now`, with `fresh` at hand for the next target.
    Tick { now: nat, fresh: Cell },
    /// The session starts over at `now`, with its first target at `fresh`.
    Reset { now: nat, fresh: Cell },
}

/// Whether `event` may happen in state `v`: a step is taken only while the
/// session is not lost and only when it is due, and targets lie on the grid.
pub open spec fn admits(v: GameView, event: Event) -> bool {
    match event {
        Event::Keys(_) => true,
        Event::Tick { now, fresh } => !v.game_over && v.due(now) && in_grid(fresh),
        Event::Reset { now, fresh } => in_grid(fresh),
    }
}

/// The state that `event` leaves when it happens in state `v`.
pub open spec fn after(v: GameView, event: Event) -> GameView {
    match event {
        Event::Keys(pressed) => v.apply_input(pressed),
        Event::Tick { now, fresh } => v.tick(now, fresh),
        Event::Reset { now, fresh } => GameView::initial(now, fresh),
    }
}

/// The state that `events` leave when they happen one after another, from
/// state `start` on.
pub open spec fn play(start: GameView, events: Seq<Event>) -> GameView
    decreases events.len(),
{
    if events.len() == 0 {
        start
    } else {
        after(play(start, events.drop_last()), events.last())
    }
}

/// Whether `events` may happen one after another from state `start` on.
pub open spec fn playable(start: GameView, events: Seq<Event>) -> bool
    decreases events.len(),
{
    events.len() == 0 || {
        &&& playable(start, events.drop_last())
        &&& admits(play(start, events.drop_last()), events.last())
    }
}

/// Whether a session can come to be in state `v`: some fresh session, played
/// in some way, ends up there.
pub open spec fn reachable(v: GameView) -> bool {
    exists|now: nat, target: Cell, events: Seq<Event>|
        in_grid(target) && #[trigger] playable(GameView::initial(now, target), events) && play(
            GameView::initial(now, target),
            events,
        ) == v
}

/// A fresh session has its head at the origin, travels to the right, has no
/// body and no points, takes its steps at the initial pace, is neither lost
/// nor barred from turning, and is valid.
pub proof fn lemma_fresh_session(now: nat, target: Cell)
    requires
        in_grid(target),
    ensures
        GameView::initial(now, target).head == (0int, 0int),
        GameView::initial(now, target).direction.offset() == (1int, 0int),
        GameView::initial(now, target).body.len() == 0,
        GameView::initial(now, target).target == target,
        GameView::initial(now, target).score == 0,
        GameView::initial(now, target).speed == INITIAL_SPEED,
        !GameView::initial(now, target).navigation_lock,
        !GameView::initial(now, target).game_over,
        GameView::initial(now, target).last_tick == now,
        GameView::initial(now, target).valid(),
{
}

/// Reading the keys leaves a valid session valid.
pub proof fn lemma_input_keeps_valid(v: GameView, pressed: Pressed)
    requires
        v.valid(),
    ensures
        v.apply_input(pressed).valid(),
{
}

/// Whatever may happen to a valid session leaves it valid.
pub proof fn lemma_event_keeps_valid(v: GameView, event: Event)
    requires
        v.valid(),
        admits(v, event),
    ensures
        after(v, event).valid(),
{
    match event {
        Event::Keys(pressed) => {},
        Event::Tick { now, fresh } => {
            lemma_tick_keeps_valid(v, now, fresh);
        },
        Event::Reset { now, fresh } => {},
    }
}

/// Every state that a session can come to be in is valid.
pub proof fn lemma_reachable_is_valid(v: GameView)
    requires
        reachable(v),
    ensures
        v.valid(),
{
    let (now, target, events) = choose|now: nat, target: Cell, events: Seq<Event>|
        in_grid(target) && #[trigger] playable(GameView::initial(now, target), events) && play(
            GameView::initial(now, target),
            events,
        ) == v;
    lemma_play_keeps_valid(GameView::initial(now, target), events);
}

/// Playing on from a valid state ends in a valid state.
pub proof fn lemma_play_keeps_valid(start: GameView, events: Seq<Event>)
    requires
        start.valid(),
        playable(start, events),
    ensures
        play(start, events).valid(),
    decreases events.len(),
{
    if events.len() > 0 {
        lemma_play_keeps_valid(start, events.drop_last());
        lemma_event_keeps_valid(play(start, events.drop_last()), events.last());
    }
}

/// In every state that a session can come to be in, the head lies on the grid
/// unless the session is lost.
pub proof fn lemma_head_on_grid_while_running(v: GameView)
    requires
        reachable(v),
        !v.game_over,
    ensures
        in_grid(v.head),
{
    lemma_reachable_is_valid(v);
}

/// The step that takes the head off the grid loses the session.
pub proof fn lemma_leaving_grid_loses(v: GameView, now: nat, fresh: Cell)
    ensures
        !in_grid(v.tick(now, fresh).head) ==> v.tick(now, fresh).game_over,
{
}

/// The step that takes the head onto a cell that the body then covers loses
/// the session.
pub proof fn lemma_self_collision_loses(v: GameView, now: nat, fresh: Cell)
    ensures
        v.tick(now, fresh).body.contains(v.tick(now, fresh).head) ==> v.tick(now, fresh).game_over,
{
}

/// A step that does not reach the target leaves the body as long as it was,
/// and score, speed and target as they were.
pub proof fn lemma_step_conserves_length(v: GameView, now: nat, fresh: Cell)
    requires
        !v.reaches_target(),
    ensures
        v.tick(now, fresh).body.len() == v.body.len(),
        v.tick(now, fresh).score == v.score,
        v.tick(now, fresh).speed == v.speed,
        v.tick(now, fresh).target == v.target,
{
}

/// A step that reaches the target lengthens the body by one cell, raises the
/// score by the bonus and shortens the time between steps to 99 hundredths,
/// rounded down.
pub proof fn lemma_target_grows_snake(v: GameView, now: nat, fresh: Cell)
    requires
        v.reaches_target(),
    ensures
        v.tick(now, fresh).body.len() == v.body.len() + 1,
        v.tick(now, fresh).score == v.score + 100,
        v.tick(now, fresh).speed == v.speed * 99 / 100,
        v.tick(now, fresh).target == fresh,
{
}

/// Each target reached brings the steps closer together, as long as there is
/// any time left between them.
pub proof fn lemma_decay_shortens(speed: nat)
    requires
        speed > 0,
    ensures
        decayed(speed) < speed,
{
}

/// In a valid session there is time left between the steps, so a step that
/// reaches the target brings them closer together.
pub proof fn lemma_target_quickens_pace(v: GameView, now: nat, fresh: Cell)
    requires
        v.valid(),
        v.reaches_target(),
    ensures
        v.tick(now, fresh).speed < v.speed,
{
    lemma_valid_is_bounded(v);
}

/// The score never falls in a step.
pub proof fn lemma_score_never_falls(v: GameView, now: nat, fresh: Cell)
    ensures
        v.tick(now, fresh).score >= v.score,
{
}

/// Reading the keys never turns the snake right round.
pub proof fn lemma_input_never_reverses(v: GameView, pressed: Pressed)
    ensures
        v.apply_input(pressed).direction != v.direction.opposite(),
{
}

/// While the snake is barred from turning, reading the keys changes nothing.
pub proof fn lemma_one_turn_per_step(v: GameView, pressed: Pressed)
    requires
        v.navigation_lock,
    ensures
        v.apply_input(pressed) == v,
{
}

/// A step lets the snake turn again.
pub proof fn lemma_step_unlocks(v: GameView, now: nat, fresh: Cell)
    ensures
        !v.tick(now, fresh).navigation_lock,
{
}

/// A lost session stays as it is, frame after frame, until the restart key is
/// held.
pub proof fn lemma_lost_session_is_frozen(v: GameView, input: FrameInput, fresh: Cell)
    requires
        v.game_over,
        !input.restart,
    ensures
        v.apply_input(input.pressed) == v,
        frame(v, input, fresh) == v,
{
}

/// A frame leaves a valid session valid.
pub proof fn lemma_frame_keeps_valid(v: GameView, input: FrameInput, fresh: Cell)
    requires
        v.valid(),
        in_grid(fresh),
    ensures
        frame(v, input, fresh).valid(),
{
    if !v.game_over && v.apply_input(input.pressed).due(input.now as nat) {
        lemma_tick_keeps_valid(v.apply_input(input.pressed), input.now as nat, fresh);
    }
}

/// A session is lost in a frame only by a step.
pub proof fn lemma_only_steps_lose(v: GameView, input: FrameInput, fresh: Cell)
    requires
        !v.game_over,
        frame(v, input, fresh).game_over,
    ensures
        v.apply_input(input.pressed).due(input.now as nat),
        frame(v, input, fresh) == v.apply_input(input.pressed).tick(input.now as nat, fresh),
{
}

} // verus!
