//! The game model and its transitions.

use vstd::prelude::*;
use std::collections::VecDeque;
use crate::cell::{Cell, Direction, opposite, in_grid, on_board, same_cell, step};
use crate::free_cells::FreeCells;
use crate::laws::{lemma_push_front, lemma_tick_keeps_inv};
use crate::random::random_below;
use crate::rules::{
    GameState, GameView, boosted, food_ok, fresh, inv, moved_once, moved_twice, steer, tick, toggled,
};

verus! {

/// A command from the player, or the lapse of a tick without one.
#[derive(PartialEq, Eq, Structural, Debug, Clone, Copy)]
pub enum Command {
    MoveUp,
    MoveDown,
    MoveLeft,
    MoveRight,
    MoveUpDouble,
    MoveDownDouble,
    MoveLeftDouble,
    MoveRightDouble,
    TogglePause,
    Boost,
    NewGame,
    Quit,
    Timeout,
}

/// The state of one game.
#[derive(Debug)]
pub struct SnakeGameViewModel {
    pub head: Cell,
    /// The body, from the segment next to the head to the tail.
    pub snake: VecDeque<Cell>,
    /// The food.
    pub dot: Cell,
    pub score: u32,
    pub state: GameState,
    pub direction: Direction,
    /// The cells that hold neither the snake nor the food.
    pub available_spaces: FreeCells,
    /// Ticks left of the running boost; 0 when none runs.
    pub boost_turns: u16,
    /// Tick interval in milliseconds.
    pub speed: u64,
}

impl View for SnakeGameViewModel {
    type V = GameView;

    open spec fn view(&self) -> GameView {
        GameView {
            head: self.head,
            snake: self.snake@,
            dot: self.dot,
            score: self.score as int,
            state: self.state,
            direction: self.direction,
            free: self.available_spaces@,
            boost_turns: self.boost_turns as int,
            speed: self.speed as int,
        }
    }
}

/// The on-board cell with row-major number `k`.
fn cell_at(k: usize) -> (r: Cell)
    requires
        k < 2500,
    ensures
        in_grid(r),
        r.0 as int == k as int / 50,
        r.1 as int == k as int % 50,
{
    ((k / 50) as i16, (k % 50) as i16)
}

/// One of the four directions, drawn uniformly.
fn random_direction() -> (r: Direction) {
    match random_below(4) {
        0 => Direction::Left,
        1 => Direction::Up,
        2 => Direction::Right,
        _ => Direction::Down,
    }
}

impl SnakeGameViewModel {
    pub open spec fn wf(&self) -> bool {
        self.available_spaces.wf() && inv(self@)
    }

    /// A fresh game with the head, the food and the direction given.
    pub fn with_layout(head: Cell, dot: Cell, direction: Direction) -> (r: Self)
        requires
            in_grid(head),
            in_grid(dot),
            head != dot,
        ensures
            r.wf(),
            fresh(r@),
            r.head == head,
            r.dot == dot,
            r.direction == direction,
    {
        let r = SnakeGameViewModel {
            head,
            snake: VecDeque::new(),
            dot,
            score: 0,
            state: GameState::Playing,
            direction,
            available_spaces: FreeCells::all_except(head, dot),
            boost_turns: 0,
            speed: 100,
        };
        assert(r@.snake =~= Seq::<Cell>::empty());
        r
    }

    /// A fresh game: head and food on two distinct cells drawn uniformly,
    /// and a direction drawn uniformly.
    pub fn new() -> (r: Self)
        ensures
            r.wf(),
            fresh(r@),
    {
        let h = random_below(2500);
        let k = random_below(2499);
        let d = if k < h { k } else { k + 1 };
        let head = cell_at(h);
        let dot = cell_at(d);
        assert(head != dot) by {
            assert(h as int == (h as int / 50) * 50 + h as int % 50);
            assert(d as int == (d as int / 50) * 50 + d as int % 50);
        }
        Self::with_layout(head, dot, random_direction())
    }

    /// Starts over with a fresh game.
    pub fn reset_game(&mut self)
        ensures
            final(self).wf(),
            fresh(final(self)@),
    {
        *self = Self::new();
    }

    /// Starts a boost when the speed is above 50 ms, no boost runs and the
    /// score is positive; does nothing otherwise.
    pub fn boost(&mut self)
        requires
            old(self).wf(),
        ensures
            final(self).wf(),
            final(self)@ == boosted(old(self)@),
    {
        if self.speed > 50 && self.boost_turns == 0 && self.score > 0 {
            self.boost_turns = 300;
            self.speed = self.speed - 50;
        }
    }

    /// Pauses a running game, or resumes a paused one.
    pub fn toggle_pause(&mut self)
        requires
            old(self).wf(),
        ensures
            final(self).wf(),
            final(self)@ == toggled(old(self)@),
    {
        match self.state {
            GameState::Playing => self.state = GameState::Paused,
            GameState::Paused => self.state = GameState::Playing,
            _ => {},
        }
    }

    fn body_contains(&self, c: Cell) -> (r: bool)
        ensures
            r == self.snake@.contains(c),
    {
        let mut i: usize = 0;
        while i < self.snake.len()
            invariant
                0 <= i <= self.snake@.len(),
                forall|j: int| 0 <= j < i ==> self.snake@[j] != c,
            decreases self.snake@.len() - i,
        {
            if same_cell(self.snake[i], c) {
                return true;
            }
            i = i + 1;
        }
        false
    }

    /// One simulation step: the head moves one cell in the current
    /// direction, then the outcome is resolved and the boost counts down.
    /// After a meal the next food goes on the free cell that `pick` selects.
    pub fn update_game_with(&mut self, pick: usize)
        requires
            old(self).wf(),
            old(self).state == GameState::Playing,
        ensures
            final(self).wf(),
            final(self)@ == tick(old(self)@, old(self).available_spaces.choice(pick as int)),
            food_ok(old(self)@, old(self).available_spaces.choice(pick as int)),
    {
        let ghost v = self@;
        let ghost old_spaces = self.available_spaces;
        proof {
            old_spaces.lemma_choice(pick as int);
        }
        let h = step(self.head, self.direction);
        if self.body_contains(h) || !on_board(h) {
            self.head = h;
            self.state = GameState::Lost;
        } else if same_cell(self.dot, h) {
            let prev = self.head;
            self.head = h;
            self.score = self.score + 1;
            self.snake.push_front(prev);
            self.available_spaces.remove(h);
            assert(self.available_spaces == old_spaces);
            let score = self.score;
            if 0 < score && score <= 30 && score % 5 == 0 {
                self.speed = self.speed - 4;
            } else if score > 0 && score % 100 == 0 {
                self.speed = self.speed - 1;
            }
            if self.score == 2500 {
                self.state = GameState::Won;
            } else {
                let food = self.available_spaces.pick(pick);
                if let Some(c) = food {
                    self.available_spaces.remove(c);
                    self.dot = c;
                }
            }
        } else if self.score <= 50 {
            let prev = self.head;
            self.head = h;
            self.snake.push_front(prev);
            self.available_spaces.remove(h);
            let tail = self.snake.pop_back();
            proof {
                lemma_push_front(prev, v.snake);
                let pushed = seq![prev] + v.snake;
                assert(pushed.contains(pushed[pushed.len() - 1]));
            }
            if let Some(t) = tail {
                self.available_spaces.insert(t);
            }
        } else {
            self.head = h;
        }
        if self.boost_turns == 1 {
            self.boost_turns = 0;
            self.speed = self.speed + 50;
        } else if 2 <= self.boost_turns && self.boost_turns <= 300 {
            self.boost_turns = self.boost_turns - 1;
        }
        proof {
            lemma_tick_keeps_inv(v, old_spaces.choice(pick as int));
        }
    }

    /// One simulation step, with the next food, after a meal, drawn
    /// uniformly from the free cells.
    pub fn update_game(&mut self)
        requires
            old(self).wf(),
            old(self).state == GameState::Playing,
        ensures
            final(self).wf(),
            exists|food: Option<Cell>|
                food_ok(old(self)@, food) && final(self)@ == #[trigger] tick(old(self)@, food),
    {
        let ghost spaces = self.available_spaces;
        let n = self.available_spaces.len();
        let pick = if n > 0 { random_below(n) } else { 0 };
        self.update_game_with(pick);
        assert(self@ == tick(old(self)@, spaces.choice(pick as int)));
    }

    /// Shows that a request that is ignored fits `moved_once`.
    proof fn lemma_ignored(&self, d: Direction)
        requires
            self.wf(),
            self.state != GameState::Playing || d == opposite(self.direction),
        ensures
            moved_once(self@, self@, d),
    {
        self.available_spaces.lemma_choice(0);
        let food = self.available_spaces.choice(0);
        assert(food_ok(self@, food) && self@ == steer(self@, d, food));
    }

    fn go(&mut self, d: Direction)
        requires
            old(self).wf(),
        ensures
            final(self).wf(),
            moved_once(old(self)@, final(self)@, d),
    {
        let reverse = match self.direction {
            Direction::Left => Direction::Right,
            Direction::Right => Direction::Left,
            Direction::Up => Direction::Down,
            Direction::Down => Direction::Up,
        };
        if self.state != GameState::Playing || d == reverse {
            proof {
                self.lemma_ignored(d);
            }
            return;
        }
        self.direction = d;
        let ghost turned = self@;
        self.update_game();
        proof {
            let food = choose|food: Option<Cell>|
                food_ok(turned, food) && self@ == #[trigger] tick(turned, food);
            assert(turned == GameView { direction: d, ..old(self)@ });
            assert(food_ok(old(self)@, food) && self@ == steer(old(self)@, d, food));
        }
    }

    /// Turns up and moves, unless the game is not running or the snake
    /// heads down.
    pub fn up(&mut self)
        requires
            old(self).wf(),
        ensures
            final(self).wf(),
            moved_once(old(self)@, final(self)@, Direction::Up),
    {
        self.go(Direction::Up);
    }

    /// Turns down and moves, unless the game is not running or the snake
    /// heads up.
    pub fn down(&mut self)
        requires
            old(self).wf(),
        ensures
            final(self).wf(),
            moved_once(old(self)@, final(self)@, Direction::Down),
    {
        self.go(Direction::Down);
    }

    /// Turns right and moves, unless the game is not running or the snake
    /// heads left.
    pub fn right(&mut self)
        requires
            old(self).wf(),
        ensures
            final(self).wf(),
            moved_once(old(self)@, final(self)@, Direction::Right),
    {
        self.go(Direction::Right);
    }

    /// Turns left and moves, unless the game is not running or the snake
    /// heads right.
    pub fn left(&mut self)
        requires
            old(self).wf(),
        ensures
            final(self).wf(),
            moved_once(old(self)@, final(self)@, Direction::Left),
    {
        self.go(Direction::Left);
    }

    /// The passive tick: moves on in the current direction while playing.
    pub fn same_direction(&mut self)
        requires
            old(self).wf(),
        ensures
            final(self).wf(),
            moved_once(old(self)@, final(self)@, old(self).direction),
    {
        if self.state != GameState::Playing {
            proof {
                self.lemma_ignored(self.direction);
            }
            return;
        }
        match self.direction {
            Direction::Left => self.left(),
            Direction::Right => self.right(),
            Direction::Up => self.up(),
            Direction::Down => self.down(),
        }
    }

    fn go_twice(&mut self, d: Direction)
        requires
            old(self).wf(),
        ensures
            final(self).wf(),
            moved_twice(old(self)@, final(self)@, d),
    {
        self.go(d);
        let ghost mid = self@;
        self.go(d);
        assert(moved_once(old(self)@, mid, d) && moved_once(mid, self@, d));
    }

    /// Applies one command; returns whether the player asked to quit.
    /// A new game is started only when the current one is not running.
    pub fn handle_events(&mut self, command: Command) -> (quit: bool)
        requires
            old(self).wf(),
        ensures
            final(self).wf(),
            quit == (command == Command::Quit),
            match command {
                Command::MoveUp => moved_once(old(self)@, final(self)@, Direction::Up),
                Command::MoveDown => moved_once(old(self)@, final(self)@, Direction::Down),
                Command::MoveLeft => moved_once(old(self)@, final(self)@, Direction::Left),
                Command::MoveRight => moved_once(old(self)@, final(self)@, Direction::Right),
                Command::MoveUpDouble => moved_twice(old(self)@, final(self)@, Direction::Up),
                Command::MoveDownDouble => moved_twice(old(self)@, final(self)@, Direction::Down),
                Command::MoveLeftDouble => moved_twice(old(self)@, final(self)@, Direction::Left),
                Command::MoveRightDouble => moved_twice(
                    old(self)@,
                    final(self)@,
                    Direction::Right,
                ),
                Command::TogglePause => final(self)@ == toggled(old(self)@),
                Command::Boost => final(self)@ == boosted(old(self)@),
                Command::NewGame => if old(self).state == GameState::Playing {
                    final(self)@ == old(self)@
                } else {
                    fresh(final(self)@)
                },
                Command::Quit => final(self)@ == old(self)@,
                Command::Timeout => moved_once(old(self)@, final(self)@, old(self).direction),
            },
    {
        match command {
            Command::MoveUp => self.up(),
            Command::MoveDown => self.down(),
            Command::MoveLeft => self.left(),
            Command::MoveRight => self.right(),
            Command::MoveUpDouble => self.go_twice(Direction::Up),
            Command::MoveDownDouble => self.go_twice(Direction::Down),
            Command::MoveLeftDouble => self.go_twice(Direction::Left),
            Command::MoveRightDouble => self.go_twice(Direction::Right),
            Command::TogglePause => self.toggle_pause(),
            Command::Boost => self.boost(),
            Command::NewGame => {
                if self.state != GameState::Playing {
                    self.reset_game();
                }
            },
            Command::Quit => {
                return true;
            },
            Command::Timeout => self.same_direction(),
        }
        false
    }
}

} // verus!
