//! Laws of the game, proved over the rules.

use vstd::prelude::*;
use vstd::set_lib::lemma_len_subset;
use vstd::seq_lib::seq_to_set_is_finite;
use crate::cell::{Cell, Direction, in_grid, neighbour, opposite};
use crate::rules::{
    GameState, GameView, active, collides, count_down, food_ok, inv, moved_once, partition, resolve,
    speed_after_meal, speed_for, steer, tick, toggled, tracking_limit, winning_score, boosted,
};

verus! {

pub(crate) proof fn lemma_push_front(a: Cell, s: Seq<Cell>)
    ensures
        forall|x: Cell| #[trigger] (seq![a] + s).contains(x) <==> (x == a || s.contains(x)),
        s.no_duplicates() && !s.contains(a) ==> (seq![a] + s).no_duplicates(),
        (seq![a] + s).len() == s.len() + 1,
{
    let p = seq![a] + s;
    assert forall|x: Cell| #[trigger] p.contains(x) <==> (x == a || s.contains(x)) by {
        if p.contains(x) {
            let i = choose|i: int| 0 <= i < p.len() && p[i] == x;
            if i > 0 {
                assert(s[i - 1] == x);
            }
        }
        if x == a {
            assert(p[0] == x);
        }
        if s.contains(x) {
            let i = choose|i: int| 0 <= i < s.len() && s[i] == x;
            assert(p[i + 1] == x);
        }
    }
    if s.no_duplicates() && !s.contains(a) {
        assert forall|i: int, j: int| 0 <= i < p.len() && 0 <= j < p.len() && i != j implies p[i]
            != p[j] by {
            if i == 0 {
                assert(s[j - 1] == p[j]);
            } else if j == 0 {
                assert(s[i - 1] == p[i]);
            }
        }
    }
}

proof fn lemma_drop_last(p: Seq<Cell>)
    requires
        p.len() > 0,
        p.no_duplicates(),
    ensures
        forall|x: Cell| #[trigger] p.drop_last().contains(x) <==> (p.contains(x) && x != p.last()),
        p.drop_last().no_duplicates(),
        p.drop_last().len() == p.len() - 1,
{
    let q = p.drop_last();
    assert forall|x: Cell| #[trigger] q.contains(x) <==> (p.contains(x) && x != p.last()) by {
        if q.contains(x) {
            let i = choose|i: int| 0 <= i < q.len() && q[i] == x;
            assert(p[i] == x);
            assert(p[p.len() - 1] == p.last());
        }
        if p.contains(x) && x != p.last() {
            let i = choose|i: int| 0 <= i < p.len() && p[i] == x;
            assert(q[i] == x);
        }
    }
}

proof fn lemma_step_moves(c: Cell, d: Direction)
    requires
        in_grid(c),
    ensures
        neighbour(c, d) != c,
{
}

/// While fewer than 50 segments have grown, some cell is still free.
proof fn lemma_room_left(v: GameView)
    requires
        inv(v),
        active(v.state),
        v.score < tracking_limit(),
    ensures
        v.free != Set::<Cell>::empty(),
{
    if v.free == Set::<Cell>::empty() {
        let t = Seq::new(52, |i: int| ((i % 50) as i16, (i / 50) as i16));
        let occupied = seq![v.head, v.dot] + v.snake;
        assert forall|i: int, j: int| 0 <= i < t.len() && 0 <= j < t.len() && i != j implies t[i]
            != t[j] by {
            assert(i == (i / 50) * 50 + i % 50);
            assert(j == (j / 50) * 50 + j % 50);
        }
        assert forall|c: Cell| t.to_set().contains(c) implies occupied.to_set().contains(c) by {
            let i = choose|i: int| 0 <= i < t.len() && t[i] == c;
            assert(in_grid(c));
            if c == v.head {
                assert(occupied[0] == c);
            } else if c == v.dot {
                assert(occupied[1] == c);
            } else {
                assert(v.snake.contains(c));
                let j = choose|j: int| 0 <= j < v.snake.len() && v.snake[j] == c;
                assert(occupied[j + 2] == c);
            }
        }
        t.unique_seq_to_set();
        occupied.lemma_cardinality_of_set();
        seq_to_set_is_finite(occupied);
        lemma_len_subset(t.to_set(), occupied.to_set());
    }
}

proof fn lemma_meal_speed(s: int, b: int)
    requires
        0 <= s < winning_score(),
    ensures
        speed_after_meal(s + 1, speed_for(s, b)) == speed_for(s + 1, b),
{
}

proof fn lemma_count_down(r: GameView)
    requires
        inv(r),
    ensures
        inv(count_down(r)),
{
}

/// Every tick from a reachable playing state reaches a state of the same
/// kind: the body never holds a cell twice and has one segment per point of
/// score; while the game is active the head is on the board and off the
/// body; and while the game is active with a score of at most 50, the free
/// cells, the head, the body and the food partition the board.
pub proof fn lemma_tick_keeps_inv(v: GameView, food: Option<Cell>)
    requires
        inv(v),
        v.state == GameState::Playing,
        food_ok(v, food),
    ensures
        inv(tick(v, food)),
{
    let h = neighbour(v.head, v.direction);
    let r = resolve(v, food);
    lemma_step_moves(v.head, v.direction);
    lemma_push_front(v.head, v.snake);
    let pushed = seq![v.head] + v.snake;
    if collides(v, h) {
    } else if h == v.dot {
        lemma_meal_speed(v.score, v.boost_turns);
        if v.score + 1 < winning_score() && v.score + 1 <= tracking_limit() {
            lemma_room_left(v);
            let c = food.unwrap();
            assert(partition(r));
        }
    } else if v.score <= tracking_limit() {
        lemma_drop_last(pushed);
        assert(pushed.last() == pushed[pushed.len() - 1]);
        assert(pushed.contains(pushed.last()));
        assert(partition(r));
    }
    assert(inv(r));
    lemma_count_down(r);
}

/// Every transition of a reachable state reaches a reachable state: a move
/// request (ignored or not), the boost request and the pause toggle. With
/// `lemma_tick_keeps_inv` this gives, for every state that play reaches
/// from a fresh game, that the body holds no cell twice, that the head is
/// off the body while the game is active, and that free cells, head, body
/// and food partition the board while it is active with a score of at most
/// 50.
pub proof fn lemma_transitions_keep_inv(v: GameView, d: Direction, food: Option<Cell>)
    requires
        inv(v),
        food_ok(v, food),
    ensures
        inv(steer(v, d, food)),
        inv(boosted(v)),
        inv(toggled(v)),
{
    if v.state == GameState::Playing && d != opposite(v.direction) {
        lemma_tick_keeps_inv(GameView { direction: d, ..v }, food);
    }
}

/// A move request in the direction opposite to the current one changes
/// nothing: in particular not the head, the direction or the score.
pub proof fn lemma_no_reversal(before: GameView, after: GameView)
    requires
        moved_once(before, after, opposite(before.direction)),
    ensures
        after == before,
        after.head == before.head,
        after.direction == before.direction,
        after.score == before.score,
{
}

/// A move that takes the head into the body or off the board loses the
/// game and leaves the body and the score as they were.
pub proof fn lemma_collision(v: GameView, d: Direction, food: Option<Cell>)
    requires
        v.state == GameState::Playing,
        d != opposite(v.direction),
        collides(v, neighbour(v.head, d)),
    ensures
        steer(v, d, food).state == GameState::Lost,
        steer(v, d, food).head == neighbour(v.head, d),
        steer(v, d, food).snake == v.snake,
        steer(v, d, food).score == v.score,
{
}

/// The cells that the snake covers: its head and its body.
pub open spec fn occupied(v: GameView) -> Set<Cell> {
    v.snake.to_set().insert(v.head)
}

/// Eating raises the score by one and the body by one segment, which takes
/// the old head's cell; every other segment stays where it was, so the
/// cell of the new head is the only cell newly covered.
pub proof fn lemma_growth(v: GameView, d: Direction, food: Option<Cell>)
    requires
        inv(v),
        v.state == GameState::Playing,
        d != opposite(v.direction),
        !collides(v, neighbour(v.head, d)),
        neighbour(v.head, d) == v.dot,
    ensures
        steer(v, d, food).score == v.score + 1,
        steer(v, d, food).snake.len() == v.snake.len() + 1,
        steer(v, d, food).snake == seq![v.head] + v.snake,
        steer(v, d, food).head == neighbour(v.head, d),
        occupied(steer(v, d, food)) == occupied(v).insert(neighbour(v.head, d)),
{
    let w = steer(v, d, food);
    lemma_push_front(v.head, v.snake);
    assert(occupied(w) =~= occupied(v).insert(neighbour(v.head, d)));
}

/// The meal that brings the score to 2500 wins the game, however many cells
/// are still free.
pub proof fn lemma_win(v: GameView, d: Direction, food: Option<Cell>)
    requires
        v.state == GameState::Playing,
        v.score == winning_score() - 1,
        d != opposite(v.direction),
        !collides(v, neighbour(v.head, d)),
        neighbour(v.head, d) == v.dot,
    ensures
        steer(v, d, food).state == GameState::Won,
        steer(v, d, food).score == winning_score(),
{
}

} // verus!
