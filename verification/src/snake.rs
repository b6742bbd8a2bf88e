//! The player-controlled body: cardinal directions, grid positions with
//! wrap-around, and the segment chain with its movement and self-collision
//! rules.

use vstd::prelude::*;

verus! {

/// Glyph drawn for the head segment.
pub const HEAD_GLYPH: char = '█';

/// Glyph drawn for every trailing segment.
pub const TAIL_GLYPH: char = '▒';

/// A logical grid coordinate. `x` counts double-wide cells (half the screen
/// width), `y` counts rows.
#[derive(PartialEq, Eq, Structural, Copy, Clone, Debug)]
pub struct Pos {
    pub x: i16,
    pub y: i16,
}

/// One of the four cardinal movement directions.
#[derive(PartialEq, Eq, Structural, Copy, Clone, Debug)]
pub enum Direction {
    Left,
    Right,
    Up,
    Down,
}

/// The direction pointing the opposite way.
pub open spec fn spec_opposite(d: Direction) -> Direction {
    match d {
        Direction::Left => Direction::Right,
        Direction::Right => Direction::Left,
        Direction::Up => Direction::Down,
        Direction::Down => Direction::Up,
    }
}

/// The unit step (dx, dy) taken by one move in direction `d`.
pub open spec fn spec_delta(d: Direction) -> (int, int) {
    match d {
        Direction::Left => (-1, 0),
        Direction::Right => (1, 0),
        Direction::Up => (0, -1),
        Direction::Down => (0, 1),
    }
}

impl Direction {
    /// The reverse of this direction.
    pub fn opposite(&self) -> (r: Direction)
        ensures
            r == spec_opposite(*self),
    {
        match self {
            Direction::Left => Direction::Right,
            Direction::Right => Direction::Left,
            Direction::Up => Direction::Down,
            Direction::Down => Direction::Up,
        }
    }

    /// The unit step taken by one move in this direction.
    pub fn delta(&self) -> (r: (i16, i16))
        ensures
            (r.0 as int, r.1 as int) == spec_delta(*self),
    {
        match self {
            Direction::Left => (-1, 0),
            Direction::Right => (1, 0),
            Direction::Up => (0, -1),
            Direction::Down => (0, 1),
        }
    }
}

/// Reversing a direction twice gives the direction back.
pub proof fn lemma_opposite_involution(d: Direction)
    ensures
        spec_opposite(spec_opposite(d)) == d,
{
}

/// Horizontal wrap rule: a coordinate that left the grid re-enters from the
/// opposite boundary. The grid's horizontal extent is half the screen width
/// `w`; the boundary itself (`x == w / 2`) is kept.
pub open spec fn wrap_x(x: int, w: int) -> int {
    if x < 0 {
        w / 2
    } else if x > w / 2 {
        0
    } else {
        x
    }
}

/// Vertical wrap rule against the screen height `h`; the boundary itself
/// (`y == h`) is kept.
pub open spec fn wrap_y(y: int, h: int) -> int {
    if y < 0 {
        h
    } else if y > h {
        0
    } else {
        y
    }
}

/// Wraps a tentative coordinate pair into the grid derived from a screen of
/// width `w` and height `h`.
fn wrap(x: i32, y: i32, w: i16, h: i16) -> (r: Pos)
    requires
        0 <= w,
        0 <= h,
    ensures
        r.x as int == wrap_x(x as int, w as int),
        r.y as int == wrap_y(y as int, h as int),
{
    let half: i16 = ((w as u16) / 2) as i16;
    let rx: i16 = if x < 0 {
        half
    } else if x > half as i32 {
        0
    } else {
        x as i16
    };
    let ry: i16 = if y < 0 {
        h
    } else if y > h as i32 {
        0
    } else {
        y as i16
    };
    Pos { x: rx, y: ry }
}

/// One cell of the player-controlled body. The head (index 0 of the chain)
/// moves with the current heading; every other segment follows its
/// predecessor.
#[derive(PartialEq, Eq, Structural, Copy, Clone, Debug)]
pub struct Tail {
    pub position: Pos,
    pub character: char,
    pub direction: Direction,
}

impl Tail {
    /// The grid position of this segment.
    pub fn position(&self) -> (r: Pos)
        ensures
            r == self.position,
    {
        self.position
    }

    /// The glyph this segment is drawn with.
    pub fn character(&self) -> (r: char)
        ensures
            r == self.character,
    {
        self.character
    }
}

/// A segment's position as a mathematical coordinate pair.
pub open spec fn pos_int(t: Tail) -> (int, int) {
    (t.position.x as int, t.position.y as int)
}

/// Where segment `i` of a chain ends up after one movement step: the head
/// advances one cell along heading `d`, every other segment takes the cell
/// its predecessor held before the step, and every result is wrapped into
/// the grid.
pub open spec fn step_pos(pre: Seq<Tail>, d: Direction, i: int, w: int, h: int) -> (int, int)
    recommends
        0 <= i < pre.len(),
{
    let src = if i == 0 {
        (pos_int(pre[0]).0 + spec_delta(d).0, pos_int(pre[0]).1 + spec_delta(d).1)
    } else {
        pos_int(pre[i - 1])
    };
    (wrap_x(src.0, w), wrap_y(src.1, h))
}

/// The whole chain after one movement step.
pub open spec fn slithered_tail(pre: Seq<Tail>, d: Direction, w: int, h: int) -> Seq<Tail> {
    Seq::new(
        pre.len(),
        |i: int|
            Tail {
                position: Pos {
                    x: step_pos(pre, d, i, w, h).0 as i16,
                    y: step_pos(pre, d, i, w, h).1 as i16,
                },
                character: pre[i].character,
                direction: pre[i].direction,
            },
    )
}

/// A chain grown by one segment: the new tail starts on the cell the last
/// segment holds, with the trailing glyph and the last segment's heading.
pub open spec fn grown_tail(t: Seq<Tail>) -> Seq<Tail>
    recommends
        t.len() >= 1,
{
    t.push(
        (Tail { position: t.last().position, character: TAIL_GLYPH, direction: t.last().direction }),
    )
}

/// Two distinct segments of the chain occupy the same cell.
pub open spec fn has_duplicate(s: Seq<Tail>) -> bool {
    exists|i: int, j: int| 0 <= i < j < s.len() && pos_int(s[i]) == pos_int(s[j])
}

/// Terminal failure signal: the body ran into itself.
#[derive(PartialEq, Eq, Structural, Copy, Clone, Debug)]
pub struct SelfCollision;

/// The player-controlled segment chain together with its current heading.
pub struct Snake {
    pub direction: Direction,
    pub tail: Vec<Tail>,
}

impl Snake {
    /// A well-formed body: non-empty, and every segment sits at a
    /// non-negative coordinate.
    pub open spec fn wf(self) -> bool {
        &&& self.tail@.len() >= 1
        &&& forall|i: int|
            0 <= i < self.tail@.len() ==> (#[trigger] self.tail@[i]).position.x >= 0
                && self.tail@[i].position.y >= 0
    }

    /// A fresh body: one head segment at the origin, heading right.
    pub fn new() -> (s: Snake)
        ensures
            s.direction == Direction::Right,
            s.tail@.len() == 1,
            s.tail@[0].position == (Pos { x: 0, y: 0 }),
            s.tail@[0].character == HEAD_GLYPH,
            s.tail@[0].direction == Direction::Right,
            s.wf(),
    {
        Snake {
            direction: Direction::Right,
            tail: vec![
                Tail {
                    position: Pos { x: 0, y: 0 },
                    character: HEAD_GLYPH,
                    direction: Direction::Right,
                },
            ],
        }
    }

    /// Changes the heading to `new_dir`, unless that would reverse the
    /// current heading outright; a reversal is silently ignored.
    pub fn turn(&mut self, new_dir: Direction)
        ensures
            final(self).tail@ == old(self).tail@,
            final(self).direction == (if new_dir == spec_opposite(old(self).direction) {
                old(self).direction
            } else {
                new_dir
            }),
    {
        if self.direction.opposite() == new_dir {
            return;
        }
        self.direction = new_dir;
    }

    /// Moves the body one step: the head one cell along the heading, every
    /// other segment onto its predecessor's previous cell, each wrapped into
    /// the grid of a `w`-wide, `h`-high screen. Fails with `SelfCollision`
    /// exactly when two segments end up on the same cell.
    #[verifier::loop_isolation(false)]
    pub fn slither(&mut self, w: i16, h: i16) -> (r: Result<(), SelfCollision>)
        requires
            old(self).wf(),
            0 <= w,
            0 <= h,
        ensures
            final(self).direction == old(self).direction,
            final(self).tail@ == slithered_tail(old(self).tail@, old(self).direction, w as int, h as int),
            r is Err <==> has_duplicate(final(self).tail@),
            final(self).wf(),
    {
        let ghost stail = slithered_tail(self.tail@, self.direction, w as int, h as int);
        let mut updated: Vec<Tail> = Vec::new();
        let d = self.direction.delta();
        let head = self.tail[0];
        let np = wrap(
            head.position.x as i32 + d.0 as i32,
            head.position.y as i32 + d.1 as i32,
            w,
            h,
        );
        updated.push(Tail { position: np, character: head.character, direction: head.direction });
        assert(updated@[0] == stail[0]);
        let mut i: usize = 1;
        while i < self.tail.len()
            invariant
                1 <= i <= self.tail@.len(),
                updated@.len() == i,
                forall|k: int| 0 <= k < i ==> updated@[k] == stail[k],
            decreases self.tail@.len() - i,
        {
            let pred = self.tail[i - 1];
            let seg = self.tail[i];
            let np = wrap(pred.position.x as i32, pred.position.y as i32, w, h);
            updated.push(Tail { position: np, character: seg.character, direction: seg.direction });
            assert(updated@[i as int] == stail[i as int]);
            i += 1;
        }
        assert(updated@ =~= stail);
        self.tail = updated;

        let n = self.tail.len();
        let mut i: usize = 0;
        while i < n
            invariant
                0 <= i <= n,
                forall|p: int, q: int|
                    0 <= p < i && p < q < n ==> pos_int(self.tail@[p]) != pos_int(self.tail@[q]),
            decreases n - i,
        {
            let mut j: usize = i + 1;
            while j < n
                invariant
                    i < j <= n,
                    forall|q: int| i < q < j ==> pos_int(self.tail@[i as int]) != pos_int(self.tail@[q]),
                decreases n - j,
            {
                if self.tail[i].position == self.tail[j].position {
                    proof {
                        assert(pos_int(self.tail@[i as int]) == pos_int(self.tail@[j as int]));
                        assert(has_duplicate(self.tail@));
                    }
                    return Err(SelfCollision);
                }
                j += 1;
            }
            i += 1;
        }
        proof {
            assert(!has_duplicate(self.tail@)) by {
                assert(forall|p: int, q: int|
                    0 <= p < q < self.tail@.len() ==> pos_int(self.tail@[p]) != pos_int(
                        self.tail@[q],
                    ));
            }
        }
        Ok(())
    }

    /// Appends one segment: it starts on the cell the current last segment
    /// holds, with the trailing glyph and that segment's heading.
    pub fn add_tail(&mut self)
        requires
            old(self).tail@.len() >= 1,
        ensures
            final(self).direction == old(self).direction,
            final(self).tail@.len() == old(self).tail@.len() + 1,
            final(self).tail@ == grown_tail(old(self).tail@),
            old(self).wf() ==> final(self).wf(),
    {
        let last = self.tail[self.tail.len() - 1];
        self.tail.push(
            Tail { position: last.position, character: TAIL_GLYPH, direction: last.direction },
        );
    }
}

/// Follow-the-leader law: when the chain lies inside the grid, one movement
/// step puts every non-head segment exactly onto the cell its predecessor
/// held before the step.
pub proof fn lemma_follow_the_leader(pre: Seq<Tail>, d: Direction, w: int, h: int, i: int)
    requires
        1 <= i < pre.len(),
        0 <= pos_int(pre[i - 1]).0 <= w / 2,
        0 <= pos_int(pre[i - 1]).1 <= h,
    ensures
        pos_int(slithered_tail(pre, d, w, h)[i]) == pos_int(pre[i - 1]),
{
}

/// Wrap law: a step that leaves the grid on one side re-enters exactly on
/// the opposite boundary, and a step inside the grid is left alone.
pub proof fn lemma_wrap_law(x: int, y: int, w: int, h: int)
    requires
        0 <= w,
        0 <= h,
    ensures
        x < 0 ==> wrap_x(x, w) == w / 2,
        x > w / 2 ==> wrap_x(x, w) == 0,
        0 <= x <= w / 2 ==> wrap_x(x, w) == x,
        y < 0 ==> wrap_y(y, h) == h,
        y > h ==> wrap_y(y, h) == 0,
        0 <= y <= h ==> wrap_y(y, h) == y,
{
}

} // verus!
