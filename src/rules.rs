//! The rules of the game, stated over an abstract snapshot of the model.

use vstd::prelude::*;
use crate::cell::{Cell, Direction, in_grid, neighbour, opposite};

verus! {

#[derive(PartialEq, Eq, Structural, Debug, Clone, Copy)]
pub enum GameState {
    Won,
    Playing,
    Lost,
    Paused,
}

/// A snapshot of the model: what a player can observe of it.
pub struct GameView {
    pub head: Cell,
    /// The body, from the segment next to the head to the tail.
    pub snake: Seq<Cell>,
    pub dot: Cell,
    pub score: int,
    pub state: GameState,
    pub direction: Direction,
    /// The cells that hold neither the snake nor the food.
    pub free: Set<Cell>,
    pub boost_turns: int,
    pub speed: int,
}

/// The score at which the game is won.
pub open spec fn winning_score() -> int {
    2500
}

/// Above this score the body no longer follows the head on a plain move.
pub open spec fn tracking_limit() -> int {
    50
}

/// Ticks that a boost lasts.
pub open spec fn boost_length() -> int {
    300
}

/// A game that can still move or be resumed.
pub open spec fn active(s: GameState) -> bool {
    s == GameState::Playing || s == GameState::Paused
}

/// Tick interval, in milliseconds, at a given score without a boost: 4 less
/// for each multiple of 5 up to 30, and 1 less for each multiple of 100.
pub open spec fn base_speed(score: int) -> int {
    100 - 4 * ((if score < 30 { score } else { 30 }) / 5) - score / 100
}

/// Tick interval with the boost taken into account.
pub open spec fn speed_for(score: int, boost_turns: int) -> int {
    base_speed(score) - if boost_turns > 0 { 50int } else { 0int }
}

/// Free cells, head, body and food cover the board, and no cell is in two
/// of them.
pub open spec fn partition(v: GameView) -> bool {
    &&& in_grid(v.head)
    &&& in_grid(v.dot)
    &&& forall|c: Cell| #[trigger] v.free.contains(c) ==> in_grid(c)
    &&& forall|c: Cell| #[trigger] v.snake.contains(c) ==> in_grid(c)
    &&& forall|c: Cell|
        #[trigger] in_grid(c) ==> (v.free.contains(c) || c == v.head || v.snake.contains(c) || c
            == v.dot)
    &&& v.head != v.dot
    &&& !v.free.contains(v.head)
    &&& !v.free.contains(v.dot)
    &&& !v.snake.contains(v.head)
    &&& !v.snake.contains(v.dot)
    &&& forall|c: Cell| #[trigger] v.free.contains(c) ==> !v.snake.contains(c)
}

/// What holds of every state that the game can reach.
pub open spec fn inv(v: GameView) -> bool {
    &&& v.snake.no_duplicates()
    &&& v.snake.len() == v.score
    &&& 0 <= v.score <= winning_score()
    &&& !v.free.contains(v.dot)
    &&& 0 <= v.boost_turns <= boost_length()
    &&& v.speed == speed_for(v.score, v.boost_turns)
    &&& active(v.state) ==> {
        &&& v.score < winning_score()
        &&& in_grid(v.head)
        &&& !v.snake.contains(v.head)
        &&& v.score <= tracking_limit() ==> partition(v)
    }
}

/// A fresh game.
pub open spec fn fresh(v: GameView) -> bool {
    &&& in_grid(v.head)
    &&& in_grid(v.dot)
    &&& v.head != v.dot
    &&& v.snake == Seq::<Cell>::empty()
    &&& v.score == 0
    &&& v.state == GameState::Playing
    &&& v.free == crate::cell::grid().remove(v.head).remove(v.dot)
    &&& v.boost_turns == 0
    &&& v.speed == 100
}

/// A choice of the next food cell that fits `v`: a free cell, or none when
/// no cell is free.
pub open spec fn food_ok(v: GameView, food: Option<Cell>) -> bool {
    match food {
        Some(c) => v.free.contains(c),
        None => v.free == Set::<Cell>::empty(),
    }
}

/// Whether the head, moved to `h`, runs into the body or off the board.
pub open spec fn collides(v: GameView, h: Cell) -> bool {
    v.snake.contains(h) || !in_grid(h)
}

/// The speed after a meal that brought the score to `score`.
pub open spec fn speed_after_meal(score: int, speed: int) -> int {
    if 0 < score <= 30 && score % 5 == 0 {
        speed - 4
    } else if score > 0 && score % 100 == 0 {
        speed - 1
    } else {
        speed
    }
}

/// The head moves one cell in the current direction, and the outcome is
/// resolved: collision, meal, or plain move. `food` is the cell on which the
/// next food is placed after a meal.
pub open spec fn resolve(v: GameView, food: Option<Cell>) -> GameView {
    let h = neighbour(v.head, v.direction);
    if collides(v, h) {
        GameView { head: h, state: GameState::Lost, ..v }
    } else if h == v.dot {
        let score = v.score + 1;
        let grown = GameView {
            head: h,
            score,
            snake: seq![v.head] + v.snake,
            free: v.free.remove(h),
            speed: speed_after_meal(score, v.speed),
            ..v
        };
        if score == winning_score() {
            GameView { state: GameState::Won, ..grown }
        } else {
            match food {
                Some(c) => GameView { dot: c, free: grown.free.remove(c), ..grown },
                None => grown,
            }
        }
    } else if v.score <= tracking_limit() {
        let pushed = seq![v.head] + v.snake;
        GameView {
            head: h,
            snake: pushed.drop_last(),
            free: v.free.remove(h).insert(pushed.last()),
            ..v
        }
    } else {
        GameView { head: h, ..v }
    }
}

/// One tick of the boost: the last boosted tick gives the 50 ms back.
pub open spec fn count_down(v: GameView) -> GameView {
    if v.boost_turns == 1 {
        GameView { boost_turns: 0, speed: v.speed + 50, ..v }
    } else if 2 <= v.boost_turns <= boost_length() {
        GameView { boost_turns: v.boost_turns - 1, ..v }
    } else {
        v
    }
}

/// A full simulation step.
pub open spec fn tick(v: GameView, food: Option<Cell>) -> GameView {
    count_down(resolve(v, food))
}

/// A move request: ignored unless playing and not a reversal; otherwise the
/// direction changes and a tick follows.
pub open spec fn steer(v: GameView, d: Direction, food: Option<Cell>) -> GameView {
    if v.state != GameState::Playing || d == opposite(v.direction) {
        v
    } else {
        tick(GameView { direction: d, ..v }, food)
    }
}

/// `after` is what one move request in direction `d` makes of `before`,
/// for some fitting choice of the next food cell.
pub open spec fn moved_once(before: GameView, after: GameView, d: Direction) -> bool {
    exists|food: Option<Cell>| food_ok(before, food) && after == #[trigger] steer(before, d, food)
}

/// `after` is what two move requests in direction `d` make of `before`.
pub open spec fn moved_twice(before: GameView, after: GameView, d: Direction) -> bool {
    exists|mid: GameView| moved_once(before, mid, d) && #[trigger] moved_once(mid, after, d)
}

/// The boost request: granted only above 50 ms, with no boost running and
/// a positive score.
pub open spec fn boosted(v: GameView) -> GameView {
    if v.speed > 50 && v.boost_turns == 0 && v.score > 0 {
        GameView { boost_turns: boost_length(), speed: v.speed - 50, ..v }
    } else {
        v
    }
}

/// The pause toggle.
pub open spec fn toggled(v: GameView) -> GameView {
    if v.state == GameState::Playing {
        GameView { state: GameState::Paused, ..v }
    } else if v.state == GameState::Paused {
        GameView { state: GameState::Playing, ..v }
    } else {
        v
    }
}

} // verus!
