use std::collections::VecDeque;
use vstd::prelude::*;
use crate::point::Point;

verus! {

/// The four directions of travel; there are no diagonals.
#[derive(Clone, Copy, Debug, PartialEq, Eq, Structural)]
pub enum SnakeDirection {
    Up,
    Down,
    Left,
    Right,
}

impl SnakeDirection {
    /// The direction that points the other way.
    pub open spec fn opposite(self) -> SnakeDirection {
        match self {
            SnakeDirection::Up => SnakeDirection::Down,
            SnakeDirection::Down => SnakeDirection::Up,
            SnakeDirection::Left => SnakeDirection::Right,
            SnakeDirection::Right => SnakeDirection::Left,
        }
    }
}

/// Whether a step from `p` towards `d` keeps both coordinates non-negative.
pub open spec fn can_step(p: Point, d: SnakeDirection) -> bool {
    match d {
        SnakeDirection::Up => p.y > 0,
        SnakeDirection::Left => p.x > 0,
        _ => true,
    }
}

/// Whether a step from `p` towards `d` stays within the range of `usize`.
pub open spec fn step_fits(p: Point, d: SnakeDirection) -> bool {
    match d {
        SnakeDirection::Down => p.y < usize::MAX,
        SnakeDirection::Right => p.x < usize::MAX,
        _ => true,
    }
}

/// The cell one unit from `p` towards `d` (meaningful where `can_step` and `step_fits` hold).
/// Up lowers `y`, Down raises it; Left lowers `x`, Right raises it.
pub open spec fn stepped(p: Point, d: SnakeDirection) -> Point {
    match d {
        SnakeDirection::Up => Point { x: p.x, y: (p.y - 1) as usize },
        SnakeDirection::Down => Point { x: p.x, y: (p.y + 1) as usize },
        SnakeDirection::Left => Point { x: (p.x - 1) as usize, y: p.y },
        SnakeDirection::Right => Point { x: (p.x + 1) as usize, y: p.y },
    }
}

/// How many times `p` occurs in `s`.
pub open spec fn occurrences(s: Seq<Point>, p: Point) -> nat
    decreases s.len(),
{
    if s.len() == 0 {
        0
    } else {
        occurrences(s.drop_last(), p) + if s.last() == p {
            1nat
        } else {
            0nat
        }
    }
}

/// The body after one step from its head towards `d`: the new head is appended and
/// the oldest segment leaves.
pub open spec fn moved_body(body: Seq<Point>, d: SnakeDirection) -> Seq<Point> {
    body.push(stepped(body.last(), d)).drop_first()
}

pub const OUT_OF_BOUNDS: &'static str = "Snake will go out of bounds";

pub const NO_COORDINATES: &'static str = "Could not get snake coordinates";

/// A snake: its segments from tail (front) to head (back), and where it is heading.
pub struct Snake {
    pub body: VecDeque<Point>,
    pub direction: SnakeDirection,
}

impl Snake {
    /// A snake has at least its head.
    pub open spec fn wf(&self) -> bool {
        self.body@.len() > 0
    }

    pub open spec fn head(&self) -> Point {
        self.body@.last()
    }

    pub open spec fn tail(&self) -> Point {
        self.body@[0]
    }

    /// A two-segment snake at the left edge of row 8, heading right.
    pub fn new() -> (r: Snake)
        ensures
            r.body@ == seq![Point { x: 0, y: 8 }, Point { x: 1, y: 8 }],
            r.direction == SnakeDirection::Right,
            r.wf(),
    {
        let mut body: VecDeque<Point> = VecDeque::new();
        body.push_back(Point::new(0, 8));
        body.push_back(Point::new(1, 8));
        Snake { body, direction: SnakeDirection::Right }
    }
    /// The head (back of the body), or an error on an empty body.
    pub fn get_head_coordinates<'a>(&self) -> (r: Result<&Point, &'a str>)
        ensures
            self.body@.len() > 0 ==> r == Ok::<&Point, &'a str>(&self.head()),
            self.body@.len() == 0 ==> r == Err::<&Point, &'a str>(NO_COORDINATES),
    {
        let n = self.body.len();
        if n == 0 {
            Err(NO_COORDINATES)
        } else {
            Ok(&self.body[n - 1])
        }
    }

    /// The tail (front of the body), or an error on an empty body.
    pub fn get_tail_coordinates<'a>(&self) -> (r: Result<&Point, &'a str>)
        ensures
            self.body@.len() > 0 ==> r == Ok::<&Point, &'a str>(&self.tail()),
            self.body@.len() == 0 ==> r == Err::<&Point, &'a str>(NO_COORDINATES),
    {
        if self.body.len() == 0 {
            Err(NO_COORDINATES)
        } else {
            Ok(&self.body[0])
        }
    }

    /// Turns towards `direction` unless it is the exact reverse of the current one;
    /// a reversal is ignored.
    pub fn change_direction(&mut self, direction: SnakeDirection)
        ensures
            final(self).body == old(self).body,
            direction != old(self).direction.opposite() ==> final(self).direction == direction,
            direction == old(self).direction.opposite() ==> final(self).direction == old(
                self,
            ).direction,
    {
        match direction {
            SnakeDirection::Up => {
                if self.direction != SnakeDirection::Down {
                    self.direction = direction
                }
            },
            SnakeDirection::Down => {
                if self.direction != SnakeDirection::Up {
                    self.direction = direction
                }
            },
            SnakeDirection::Left => {
                if self.direction != SnakeDirection::Right {
                    self.direction = direction
                }
            },
            SnakeDirection::Right => {
                if self.direction != SnakeDirection::Left {
                    self.direction = direction
                }
            },
        }
    }

    /// Moves one unit in the current direction: the new head is appended and the tail
    /// segment leaves, so the length is kept. Fails, changing nothing, when the step
    /// would take a coordinate below zero, or when the body is empty.
    pub fn advance<'a>(&mut self) -> (r: Result<Point, &'a str>)
        requires
            old(self).body@.len() > 0 ==> step_fits(old(self).head(), old(self).direction),
        ensures
            final(self).direction == old(self).direction,
            old(self).body@.len() == 0 ==> r == Err::<Point, &'a str>(NO_COORDINATES)
                && final(self).body@ == old(self).body@,
            old(self).body@.len() > 0 && !can_step(old(self).head(), old(self).direction) ==> r
                == Err::<Point, &'a str>(OUT_OF_BOUNDS) && final(self).body@ == old(self).body@,
            old(self).body@.len() > 0 && can_step(old(self).head(), old(self).direction) ==> {
                &&& r == Ok::<Point, &'a str>(stepped(old(self).head(), old(self).direction))
                &&& final(self).body@ == moved_body(old(self).body@, old(self).direction)
                &&& final(self).body@.len() == old(self).body@.len()
            },
    {
        let old_head = *self.get_head_coordinates()?;
        match self.direction {
            SnakeDirection::Up => {
                if old_head.y == 0 {
                    return Err(OUT_OF_BOUNDS);
                }
                self.body.push_back(Point::new(old_head.x, old_head.y - 1));
            },
            SnakeDirection::Down => self.body.push_back(Point::new(old_head.x, old_head.y + 1)),
            SnakeDirection::Left => {
                if old_head.x == 0 {
                    return Err(OUT_OF_BOUNDS);
                }
                self.body.push_back(Point::new(old_head.x - 1, old_head.y));
            },
            SnakeDirection::Right => self.body.push_back(Point::new(old_head.x + 1, old_head.y)),
        }
        self.body.remove(0);
        let new_head = *self.get_head_coordinates()?;
        Ok(new_head)
    }

    /// Whether the head occurs more than once in the body.
    pub fn ate_itself(&self) -> (r: bool)
        requires
            self.wf(),
        ensures
            r == (occurrences(self.body@, self.head()) > 1),
    {
        let head = *self.get_head_coordinates().unwrap();
        let n = self.body.len();
        let mut count: usize = 0;
        let mut i: usize = 0;
        while i < n
            invariant
                n == self.body@.len(),
                head == self.head(),
                i <= n,
                count <= i,
                count == occurrences(self.body@.subrange(0, i as int), head),
            decreases n - i,
        {
            proof {
                assert(self.body@.subrange(0, i + 1).drop_last() == self.body@.subrange(0, i as int));
            }
            if self.body[i] == head {
                count = count + 1;
            }
            i = i + 1;
        }
        proof {
            assert(self.body@.subrange(0, n as int) == self.body@);
        }
        count > 1
    }

    /// Adds `segment` behind the tail; the head and the direction stay as they are.
    pub fn grow(&mut self, segment: Point)
        ensures
            final(self).body@ == seq![segment] + old(self).body@,
            final(self).direction == old(self).direction,
    {
        self.body.push_front(segment);
    }
}

} // verus!
