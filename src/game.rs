use std::collections::VecDeque;
use rand::Rng;
use vstd::prelude::*;
use crate::point::Point;
use crate::snake::{
    can_step, moved_body, occurrences, stepped, Snake, SnakeDirection,
};

verus! {

/// The board is `GRID_SIZE` cells wide and high.
pub const GRID_SIZE: usize = 16;

/// How many random cells are tried for a new apple before the board is scanned in order.
pub const APPLE_DRAWS: usize = 32;

#[derive(Clone, Copy, Debug, PartialEq, Eq, Structural)]
pub enum GameState {
    Started,
    Over,
}

/// One play session: the score, whether play goes on, the snake and the apple.
pub struct Game {
    pub score: usize,
    pub state: GameState,
    pub snake: Snake,
    pub apple: Point,
}

pub open spec fn in_grid(p: Point) -> bool {
    p.x < GRID_SIZE && p.y < GRID_SIZE
}

/// A cell of the board that no segment of `body` covers.
pub open spec fn is_free(body: Seq<Point>, p: Point) -> bool {
    in_grid(p) && !body.contains(p)
}

/// Every cell of the board is covered by `body`.
pub open spec fn board_full(body: Seq<Point>) -> bool {
    forall|p: Point| in_grid(p) ==> body.contains(p)
}

/// The position of a cell when the board is read row by row.
pub open spec fn cell_index(p: Point) -> int {
    p.y * GRID_SIZE + p.x
}

/// The cell one unit behind `tail` when travelling towards `d`; `tail` itself where that
/// cell has a coordinate below zero or beyond `usize::MAX`.
pub open spec fn behind(tail: Point, d: SnakeDirection) -> Point {
    match d {
        SnakeDirection::Up => if tail.y < usize::MAX {
            Point { x: tail.x, y: (tail.y + 1) as usize }
        } else {
            tail
        },
        SnakeDirection::Down => if tail.y > 0 {
            Point { x: tail.x, y: (tail.y - 1) as usize }
        } else {
            tail
        },
        SnakeDirection::Left => if tail.x < usize::MAX {
            Point { x: (tail.x + 1) as usize, y: tail.y }
        } else {
            tail
        },
        SnakeDirection::Right => if tail.x > 0 {
            Point { x: (tail.x - 1) as usize, y: tail.y }
        } else {
            tail
        },
    }
}

/// The segment that a snake heading towards `d` grows at its tail.
pub fn segment_behind(tail: Point, d: SnakeDirection) -> (r: Point)
    ensures
        r == behind(tail, d),
{
    match d {
        SnakeDirection::Up => if tail.y < usize::MAX {
            Point::new(tail.x, tail.y + 1)
        } else {
            tail
        },
        SnakeDirection::Down => if tail.y > 0 {
            Point::new(tail.x, tail.y - 1)
        } else {
            tail
        },
        SnakeDirection::Left => if tail.x < usize::MAX {
            Point::new(tail.x + 1, tail.y)
        } else {
            tail
        },
        SnakeDirection::Right => if tail.x > 0 {
            Point::new(tail.x - 1, tail.y)
        } else {
            tail
        },
    }
}

/// Relies on rand's `thread_rng().gen_range(0..bound)`, which returns a value of `0..bound`
/// and panics on an empty range.
#[verifier::external_body]
fn random_below(bound: usize) -> (r: usize)
    requires
        bound > 0,
    ensures
        r < bound,
{
    rand::thread_rng().gen_range(0..bound)
}

/// Whether `p` is one of the segments of `body`.
pub fn body_contains(body: &VecDeque<Point>, p: Point) -> (r: bool)
    ensures
        r == body@.contains(p),
{
    let n = body.len();
    let mut i: usize = 0;
    while i < n
        invariant
            n == body@.len(),
            i <= n,
            forall|j: int| 0 <= j < i ==> body@[j] != p,
        decreases n - i,
    {
        if body[i] == p {
            return true;
        }
        i = i + 1;
    }
    false
}

proof fn lemma_cell_index(p: Point)
    requires
        in_grid(p),
    ensures
        0 <= cell_index(p) < GRID_SIZE * GRID_SIZE,
        p.x == cell_index(p) % (GRID_SIZE as int),
        p.y == cell_index(p) / (GRID_SIZE as int),
{
}

/// The first free cell of the board in row-by-row order, or `None` on a full board.
pub fn first_free_cell(body: &VecDeque<Point>) -> (r: Option<Point>)
    ensures
        match r {
            Some(p) => is_free(body@, p) && forall|q: Point|
                in_grid(q) && cell_index(q) < cell_index(p) ==> body@.contains(q),
            None => board_full(body@),
        },
{
    let cells: usize = GRID_SIZE * GRID_SIZE;
    let mut k: usize = 0;
    while k < cells
        invariant
            cells == GRID_SIZE * GRID_SIZE,
            k <= cells,
            forall|q: Point| in_grid(q) && cell_index(q) < k ==> body@.contains(q),
        decreases cells - k,
    {
        let p = Point::new(k % GRID_SIZE, k / GRID_SIZE);
        if !body_contains(body, p) {
            assert(cell_index(p) == k);
            return Some(p);
        }
        assert forall|q: Point| in_grid(q) && cell_index(q) < k + 1 implies body@.contains(q) by {
            lemma_cell_index(q);
            if cell_index(q) == k {
                assert(q == p);
            }
        }
        k = k + 1;
    }
    assert forall|q: Point| in_grid(q) implies body@.contains(q) by {
        lemma_cell_index(q);
    }
    None
}

/// The direction after a requested turn: a reversal, or no request, keeps `current`.
pub open spec fn turned(current: SnakeDirection, requested: Option<SnakeDirection>) -> SnakeDirection {
    match requested {
        Some(d) => if d == current.opposite() {
            current
        } else {
            d
        },
        None => current,
    }
}

/// Whether a head at `head` on a snake whose body is now `body` ends play: it reached the
/// far edge of the board, or it covers a segment.
pub open spec fn crashed(body: Seq<Point>, head: Point) -> bool {
    head.x == GRID_SIZE || head.y == GRID_SIZE || occurrences(body, head) > 1
}

/// The first candidate that is a free cell, else the first free cell of the board in
/// row-by-row order, else `None` when the board is full.
pub fn pick_apple(body: &VecDeque<Point>, candidates: &Vec<Point>) -> (r: Option<Point>)
    ensures
        match r {
            Some(p) => is_free(body@, p) && ((exists|i: int|
                0 <= i < candidates@.len() && candidates@[i] == p && forall|j: int|
                    0 <= j < i ==> !is_free(body@, #[trigger] candidates@[j])) || ((forall|j: int|
                0 <= j < candidates@.len() ==> !is_free(body@, #[trigger] candidates@[j]))
                && forall|q: Point|
                in_grid(q) && cell_index(q) < cell_index(p) ==> body@.contains(q))),
            None => board_full(body@),
        },
{
    let n = candidates.len();
    let mut i: usize = 0;
    while i < n
        invariant
            n == candidates@.len(),
            i <= n,
            forall|j: int| 0 <= j < i ==> !is_free(body@, #[trigger] candidates@[j]),
        decreases n - i,
    {
        let c = candidates[i];
        if c.x < GRID_SIZE && c.y < GRID_SIZE && !body_contains(body, c) {
            return Some(c);
        }
        i = i + 1;
    }
    first_free_cell(body)
}

impl Game {
    /// Everything that a tick relies on: the snake has a head, the score stays below its
    /// length, the apple lies on the board, and while play goes on so does the head.
    pub open spec fn wf(&self) -> bool {
        &&& self.snake.wf()
        &&& self.score < self.snake.body@.len()
        &&& in_grid(self.apple)
        &&& self.state == GameState::Started ==> in_grid(self.snake.head())
    }

    /// A fresh session: score 0, the starting snake, the apple at (7, 8).
    pub fn new() -> (r: Game)
        ensures
            r.score == 0,
            r.state == GameState::Started,
            r.snake.body@ == seq![Point { x: 0, y: 8 }, Point { x: 1, y: 8 }],
            r.snake.direction == SnakeDirection::Right,
            r.apple == (Point { x: 7, y: 8 }),
            r.wf(),
    {
        Game { score: 0, state: GameState::Started, snake: Snake::new(), apple: Point::new(7, 8) }
    }

    /// A free cell for the next apple: random cells are tried first, then the board is
    /// scanned; `None` only when the snake covers the whole board.
    pub fn get_new_apple_coordinates(&self) -> (r: Option<Point>)
        ensures
            match r {
                Some(p) => is_free(self.snake.body@, p),
                None => board_full(self.snake.body@),
            },
    {
        let mut candidates: Vec<Point> = Vec::new();
        let mut i: usize = 0;
        while i < APPLE_DRAWS
            invariant
                i <= APPLE_DRAWS,
            decreases APPLE_DRAWS - i,
        {
            let x = random_below(GRID_SIZE);
            let y = random_below(GRID_SIZE);
            candidates.push(Point::new(x, y));
            i = i + 1;
        }
        pick_apple(&self.snake.body, &candidates)
    }
    /// One step of play. Nothing happens once play is over. Otherwise the requested turn,
    /// if any, is applied and the snake advances. A step below zero ends play. On the apple,
    /// the score rises by one, a new apple goes to a free cell, and the snake grows one
    /// segment behind its tail (play ends instead of placing an apple on a full board).
    /// Elsewhere, reaching the far edge or running into itself ends play.
    pub fn tick(&mut self, direction: Option<SnakeDirection>)
        requires
            old(self).wf(),
        ensures
            final(self).wf(),
            old(self).state == GameState::Over ==> final(self).score == old(self).score
                && final(self).state == GameState::Over && final(self).snake.body@ == old(
                self,
            ).snake.body@ && final(self).snake.direction == old(self).snake.direction
                && final(self).apple == old(self).apple,
            old(self).state == GameState::Started ==> ({
                let d = turned(old(self).snake.direction, direction);
                let head = stepped(old(self).snake.head(), d);
                let moved = moved_body(old(self).snake.body@, d);
                &&& final(self).snake.direction == d
                &&& !can_step(old(self).snake.head(), d) ==> {
                    &&& final(self).state == GameState::Over
                    &&& final(self).snake.body@ == old(self).snake.body@
                    &&& final(self).score == old(self).score
                    &&& final(self).apple == old(self).apple
                }
                &&& can_step(old(self).snake.head(), d) ==> {
                    &&& final(self).snake.body@.len() == old(self).snake.body@.len() + if head
                        == old(self).apple {
                        1int
                    } else {
                        0int
                    }
                    &&& head == old(self).apple ==> {
                        &&& final(self).score == old(self).score + 1
                        &&& final(self).snake.body@ == seq![behind(moved[0], d)] + moved
                        &&& board_full(moved) ==> final(self).state == GameState::Over
                            && final(self).apple == old(self).apple
                        &&& !board_full(moved) ==> final(self).state == GameState::Started
                            && is_free(moved, final(self).apple)
                    }
                    &&& head != old(self).apple ==> {
                        &&& final(self).snake.body@ == moved
                        &&& final(self).score == old(self).score
                        &&& final(self).apple == old(self).apple
                        &&& final(self).state == if crashed(moved, head) {
                            GameState::Over
                        } else {
                            GameState::Started
                        }
                    }
                }
            }),
    {
        if self.state == GameState::Over {
            return;
        }
        if let Some(d) = direction {
            self.snake.change_direction(d);
        }
        if self.snake.advance().is_err() {
            self.state = GameState::Over;
            return;
        }
        let head = *self.snake.get_head_coordinates().unwrap();
        if head == self.apple {
            let tail = *self.snake.get_tail_coordinates().unwrap();
            proof {
                // the length of a `VecDeque` fits in `usize`, so the score has room to rise
                assert(self.snake.body@.len() == self.snake.body.len());
            }
            self.score = self.score + 1;
            match self.get_new_apple_coordinates() {
                Some(apple) => self.apple = apple,
                None => self.state = GameState::Over,
            }
            self.snake.grow(segment_behind(tail, self.snake.direction));
        } else if self.snake.ate_itself() || head.x == GRID_SIZE || head.y == GRID_SIZE {
            self.state = GameState::Over;
        }
    }
    /// Whether play has ended.
    pub fn is_over(&self) -> (r: bool)
        ensures
            r == (self.state == GameState::Over),
    {
        self.state == GameState::Over
    }
}

} // verus!
