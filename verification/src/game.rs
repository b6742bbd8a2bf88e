//! The game state and the per-tick simulation step: body advance, fruit
//! consumption, periodic fruit spawning, and assembly of the frame to draw.
//! Input polling and drawing are I/O and live outside this crate.

use vstd::prelude::*;

use crate::renderer::{spec_cell, Renderable, Renderer, ScreenCell};
use crate::snake::{
    grown_tail, has_duplicate, slithered_tail, Direction, Pos, SelfCollision, Snake, Tail,
    HEAD_GLYPH,
};

verus! {

/// Glyph drawn for a fruit.
pub const FRUIT_GLYPH: char = '█';

/// A fruit is spawned once every this many ticks.
pub const SPAWN_PERIOD: u32 = 10;

/// A single-cell collectible. Its position is fixed from spawn until the
/// head of the body lands on it, which removes it.
#[derive(PartialEq, Eq, Structural, Copy, Clone, Debug)]
pub struct Fruit {
    pub position: Pos,
}

impl Fruit {
    /// The grid position of this fruit.
    pub fn position(&self) -> (r: Pos)
        ensures
            r == self.position,
    {
        self.position
    }

    /// The glyph this fruit is drawn with.
    pub fn character(&self) -> (r: char)
        ensures
            r == FRUIT_GLYPH,
    {
        FRUIT_GLYPH
    }
}

/// Some fruit sits on the cell `head`.
pub open spec fn hits(fruit: Seq<Fruit>, head: Pos) -> bool {
    exists|k: int| 0 <= k < fruit.len() && (#[trigger] fruit[k]).position == head
}

/// `j` is the index of the first fruit on the cell `head`.
pub open spec fn is_first_hit(fruit: Seq<Fruit>, head: Pos, j: int) -> bool {
    &&& 0 <= j < fruit.len()
    &&& fruit[j].position == head
    &&& forall|k: int| 0 <= k < j ==> (#[trigger] fruit[k]).position != head
}

/// The index of the first fruit on the cell `head`.
pub open spec fn first_hit(fruit: Seq<Fruit>, head: Pos) -> int {
    choose|j: int| is_first_hit(fruit, head, j)
}

/// The fruit left after one consumption check against `head`: the first
/// fruit on that cell is removed; without a hit, nothing changes.
pub open spec fn consume_result(fruit: Seq<Fruit>, head: Pos) -> Seq<Fruit> {
    if hits(fruit, head) {
        fruit.remove(first_hit(fruit, head))
    } else {
        fruit
    }
}

/// At most one fruit is first on any cell.
pub proof fn lemma_first_hit_unique(fruit: Seq<Fruit>, head: Pos, j1: int, j2: int)
    requires
        is_first_hit(fruit, head, j1),
        is_first_hit(fruit, head, j2),
    ensures
        j1 == j2,
{
    if j1 < j2 {
        assert(fruit[j1].position != head);
    }
    if j2 < j1 {
        assert(fruit[j2].position != head);
    }
}

/// The screen cells of one frame drawn from a body and the live fruit:
/// every segment, then every fruit, in order.
pub open spec fn frame(tail: Seq<Tail>, fruit: Seq<Fruit>) -> Seq<ScreenCell> {
    (tail.map_values(|t: Tail| Renderable::Segment(t)) + fruit.map_values(
        |f: Fruit| Renderable::Fruit(f),
    )).map_values(|r: Renderable| spec_cell(r))
}

/// Relies on `rand::Rng::gen_range` on the thread-local generator: a draw
/// from the half-open range `[lo, hi)`. The call panics on an empty range,
/// which the precondition rules out; nothing beyond the bounds can be said
/// of a random draw.
#[verifier::external_body]
fn random_in_range(lo: u16, hi: u16) -> (r: u16)
    requires
        lo < hi,
    ensures
        lo <= r < hi,
{
    rand::Rng::gen_range(&mut rand::thread_rng(), lo..hi)
}

/// The whole simulation state of one run.
pub struct Game {
    pub snake: Snake,
    pub fruit: Vec<Fruit>,
    pub score: u32,
    pub ticks: u32,
}

impl Game {
    /// A well-formed state: the body is well-formed and every fruit sits at
    /// a non-negative coordinate.
    pub open spec fn wf(self) -> bool {
        &&& self.snake.wf()
        &&& forall|k: int|
            0 <= k < self.fruit@.len() ==> (#[trigger] self.fruit@[k]).position.x >= 0
                && self.fruit@[k].position.y >= 0
    }

    /// A fresh game: a one-segment body at the origin heading right, no
    /// fruit, zero score, at tick zero.
    pub fn new() -> (g: Game)
        ensures
            g.snake.direction == Direction::Right,
            g.snake.tail@.len() == 1,
            g.snake.tail@[0].position == (Pos { x: 0, y: 0 }),
            g.snake.tail@[0].character == HEAD_GLYPH,
            g.fruit@.len() == 0,
            g.score == 0,
            g.ticks == 0,
            g.wf(),
    {
        Game { snake: Snake::new(), fruit: Vec::new(), score: 0, ticks: 0 }
    }

    /// Tests the head against every live fruit: on the first hit, removes
    /// that one fruit, grows the body by one segment and counts one point.
    /// At most one fruit is consumed, however many share the head's cell;
    /// without a hit, nothing changes.
    #[verifier::loop_isolation(false)]
    pub fn resolve_fruit(&mut self)
        requires
            old(self).wf(),
            old(self).score < u32::MAX,
        ensures
            final(self).ticks == old(self).ticks,
            final(self).snake.direction == old(self).snake.direction,
            final(self).fruit@ == consume_result(
                old(self).fruit@,
                old(self).snake.tail@[0].position,
            ),
            hits(old(self).fruit@, old(self).snake.tail@[0].position) ==> {
                &&& final(self).snake.tail@ == grown_tail(old(self).snake.tail@)
                &&& final(self).score == old(self).score + 1
                &&& final(self).fruit@.len() == old(self).fruit@.len() - 1
            },
            !hits(old(self).fruit@, old(self).snake.tail@[0].position) ==> {
                &&& final(self).snake.tail@ == old(self).snake.tail@
                &&& final(self).score == old(self).score
                &&& final(self).fruit@ == old(self).fruit@
            },
            final(self).wf(),
    {
        let head_pos = self.snake.tail[0].position;
        let mut j: usize = 0;
        while j < self.fruit.len()
            invariant
                self.snake == old(self).snake,
                self.fruit@ == old(self).fruit@,
                self.score == old(self).score,
                self.ticks == old(self).ticks,
                0 <= j <= self.fruit@.len(),
                forall|k: int| 0 <= k < j ==> (#[trigger] self.fruit@[k]).position != head_pos,
            decreases self.fruit@.len() - j,
        {
            if self.fruit[j].position == head_pos {
                proof {
                    assert(is_first_hit(self.fruit@, head_pos, j as int));
                    lemma_first_hit_unique(
                        self.fruit@,
                        head_pos,
                        j as int,
                        first_hit(self.fruit@, head_pos),
                    );
                }
                self.snake.add_tail();
                self.fruit.remove(j);
                self.score = self.score + 1;
                return;
            }
            j += 1;
        }
    }

    /// Assembles the entities of one frame: every body segment, then every
    /// live fruit, in order.
    #[verifier::loop_isolation(false)]
    pub fn render_list(&self) -> (objects: Vec<Renderable>)
        ensures
            objects@ == self.snake.tail@.map_values(|t: Tail| Renderable::Segment(t))
                + self.fruit@.map_values(|f: Fruit| Renderable::Fruit(f)),
    {
        let mut objects: Vec<Renderable> = Vec::new();
        let mut i: usize = 0;
        while i < self.snake.tail.len()
            invariant
                0 <= i <= self.snake.tail@.len(),
                objects@.len() == i,
                forall|k: int|
                    0 <= k < i ==> (#[trigger] objects@[k]) == Renderable::Segment(
                        self.snake.tail@[k],
                    ),
            decreases self.snake.tail@.len() - i,
        {
            objects.push(Renderable::Segment(self.snake.tail[i]));
            i += 1;
        }
        let ghost n = self.snake.tail@.len() as int;
        let mut j: usize = 0;
        while j < self.fruit.len()
            invariant
                0 <= j <= self.fruit@.len(),
                objects@.len() == n + j,
                forall|k: int|
                    0 <= k < n ==> (#[trigger] objects@[k]) == Renderable::Segment(
                        self.snake.tail@[k],
                    ),
                forall|k: int|
                    n <= k < n + j ==> (#[trigger] objects@[k]) == Renderable::Fruit(
                        self.fruit@[k - n],
                    ),
            decreases self.fruit@.len() - j,
        {
            objects.push(Renderable::Fruit(self.fruit[j]));
            j += 1;
        }
        proof {
            assert(objects@ =~= self.snake.tail@.map_values(|t: Tail| Renderable::Segment(t))
                + self.fruit@.map_values(|f: Fruit| Renderable::Fruit(f)));
        }
        objects
    }

    /// Runs one simulation tick against a `w`-wide, `h`-high screen: the
    /// body advances (failing with `SelfCollision` exactly when it runs
    /// into itself), the head may consume one fruit, the frame to draw is
    /// computed, a fruit spawns on every `SPAWN_PERIOD`-th tick at a random
    /// free-ranging cell of the grid, and the tick counter advances.
    pub fn tick(&mut self, w: i16, h: i16) -> (r: Result<Vec<ScreenCell>, SelfCollision>)
        requires
            old(self).wf(),
            2 <= w,
            1 <= h,
            old(self).score < u32::MAX,
            old(self).ticks < u32::MAX,
        ensures
            final(self).wf(),
            final(self).snake.direction == old(self).snake.direction,
            ({
                let moved = slithered_tail(
                    old(self).snake.tail@,
                    old(self).snake.direction,
                    w as int,
                    h as int,
                );
                if has_duplicate(moved) {
                    &&& r is Err
                    &&& final(self).snake.tail@ == moved
                    &&& final(self).fruit@ == old(self).fruit@
                    &&& final(self).score == old(self).score
                    &&& final(self).ticks == old(self).ticks
                } else {
                    let ate = hits(old(self).fruit@, moved[0].position);
                    let mid = consume_result(old(self).fruit@, moved[0].position);
                    let tail2 = if ate {
                        grown_tail(moved)
                    } else {
                        moved
                    };
                    &&& r is Ok
                    &&& final(self).snake.tail@ == tail2
                    &&& final(self).score == old(self).score + (if ate {
                        1int
                    } else {
                        0int
                    })
                    &&& final(self).ticks == old(self).ticks + 1
                    &&& (r matches Ok(cells) ==> cells@ == frame(tail2, mid))
                    &&& if old(self).ticks % SPAWN_PERIOD == 0 {
                        exists|p: Pos|
                            0 <= p.x && p.x < (w as int) / 2 && 0 <= p.y && p.y < h
                                && final(self).fruit@ == mid.push((Fruit { position: p }))
                    } else {
                        final(self).fruit@ == mid
                    }
                }
            }),
    {
        if let Err(collision) = self.snake.slither(w, h) {
            return Err(collision);
        }
        self.resolve_fruit();
        let objects = self.render_list();
        proof {
            assert forall|k: int| 0 <= k < objects@.len() implies (#[trigger] objects@[k]).valid()
            by {
                let n = self.snake.tail@.len() as int;
                if k < n {
                    assert(objects@[k] == Renderable::Segment(self.snake.tail@[k]));
                } else {
                    assert(objects@[k] == Renderable::Fruit(self.fruit@[k - n]));
                }
            }
        }
        let renderer = Renderer::new();
        let cells = renderer.render(&objects);
        proof {
            assert(cells@ == frame(self.snake.tail@, self.fruit@));
        }
        if self.ticks % SPAWN_PERIOD == 0 {
            let fx = random_in_range(0, (w as u16) / 2);
            let fy = random_in_range(0, h as u16);
            let spawned = Fruit { position: Pos { x: fx as i16, y: fy as i16 } };
            self.fruit.push(spawned);
        }
        self.ticks = self.ticks + 1;
        Ok(cells)
    }
}

} // verus!
