//! The rendering abstraction: drawable entities and the pure mapping from
//! grid entities to screen cells. Writing the cells to a terminal is I/O and
//! lives outside this crate.

use vstd::prelude::*;

use crate::game::{Fruit, FRUIT_GLYPH};
use crate::snake::{Pos, Tail};

verus! {

/// A drawable entity: a body segment or a fruit. Both expose a position and
/// a glyph, so the renderer and the collision checks treat them uniformly.
#[derive(Copy, Clone, Debug)]
pub enum Renderable {
    Segment(Tail),
    Fruit(Fruit),
}

/// The two colours of the fixed drawing convention: body segments are drawn
/// green, fruit red.
#[derive(PartialEq, Eq, Structural, Copy, Clone, Debug)]
pub enum Tint {
    Green,
    Red,
}

impl Renderable {
    /// The grid position of this entity.
    pub open spec fn spec_position(self) -> Pos {
        match self {
            Renderable::Segment(t) => t.position,
            Renderable::Fruit(f) => f.position,
        }
    }

    /// The glyph this entity is drawn with.
    pub open spec fn spec_character(self) -> char {
        match self {
            Renderable::Segment(t) => t.character,
            Renderable::Fruit(_) => FRUIT_GLYPH,
        }
    }

    /// The colour this entity is drawn in.
    pub open spec fn spec_tint(self) -> Tint {
        match self {
            Renderable::Segment(_) => Tint::Green,
            Renderable::Fruit(_) => Tint::Red,
        }
    }

    /// The entity sits on a drawable cell: both coordinates non-negative.
    pub open spec fn valid(self) -> bool {
        self.spec_position().x >= 0 && self.spec_position().y >= 0
    }

    /// The grid position of this entity.
    pub fn position(&self) -> (r: Pos)
        ensures
            r == self.spec_position(),
    {
        match self {
            Renderable::Segment(t) => t.position,
            Renderable::Fruit(f) => f.position,
        }
    }

    /// The glyph this entity is drawn with.
    pub fn character(&self) -> (r: char)
        ensures
            r == self.spec_character(),
    {
        match self {
            Renderable::Segment(t) => t.character,
            Renderable::Fruit(_) => FRUIT_GLYPH,
        }
    }

    /// Two entities collide exactly when they occupy the same cell.
    pub fn collides(&self, other: &Renderable) -> (r: bool)
        ensures
            r == (self.spec_position() == other.spec_position()),
    {
        self.position() == other.position()
    }

    /// Whether this entity occupies the same cell as any member of
    /// `renderables`.
    #[verifier::loop_isolation(false)]
    pub fn collides_any(&self, renderables: &Vec<Renderable>) -> (r: bool)
        ensures
            r == exists|k: int|
                0 <= k < renderables@.len() && self.spec_position() == (
                #[trigger] renderables@[k]).spec_position(),
    {
        let mut i: usize = 0;
        while i < renderables.len()
            invariant
                0 <= i <= renderables@.len(),
                forall|k: int|
                    0 <= k < i ==> self.spec_position() != (
                    #[trigger] renderables@[k]).spec_position(),
            decreases renderables@.len() - i,
        {
            if self.collides(&renderables[i]) {
                return true;
            }
            i += 1;
        }
        false
    }
}

/// The screen cell an entity is drawn to: its glyph lands at column
/// `2 * x` (cells are rendered double-wide) and row `y`.
#[derive(PartialEq, Eq, Structural, Copy, Clone, Debug)]
pub struct ScreenCell {
    pub col: u16,
    pub row: u16,
    pub glyph: char,
    pub tint: Tint,
}

/// The screen cell a valid entity maps to.
pub open spec fn spec_cell(r: Renderable) -> ScreenCell {
    ScreenCell {
        col: (2 * r.spec_position().x) as u16,
        row: r.spec_position().y as u16,
        glyph: r.spec_character(),
        tint: r.spec_tint(),
    }
}

/// Maps entities to the screen cells of one frame, in input order. On
/// overlapping cells a later entity overwrites an earlier one when the frame
/// is drawn.
pub struct Renderer;

impl Renderer {
    /// A renderer for the fixed drawing convention.
    pub fn new() -> (r: Renderer) {
        Renderer
    }

    /// Computes the frame for `renderables`: one screen cell per entity, in
    /// input order, each at column `2 * x`, row `y`.
    #[verifier::loop_isolation(false)]
    pub fn render(&self, renderables: &Vec<Renderable>) -> (cells: Vec<ScreenCell>)
        requires
            forall|k: int| 0 <= k < renderables@.len() ==> (#[trigger] renderables@[k]).valid(),
        ensures
            cells@ == renderables@.map_values(|r: Renderable| spec_cell(r)),
    {
        let mut cells: Vec<ScreenCell> = Vec::new();
        let mut i: usize = 0;
        while i < renderables.len()
            invariant
                0 <= i <= renderables@.len(),
                cells@.len() == i,
                forall|k: int| 0 <= k < i ==> cells@[k] == spec_cell(#[trigger] renderables@[k]),
            decreases renderables@.len() - i,
        {
            let r = &renderables[i];
            let p = r.position();
            let tint = match r {
                Renderable::Segment(_) => Tint::Green,
                Renderable::Fruit(_) => Tint::Red,
            };
            cells.push(
                ScreenCell { col: (p.x as u16) * 2, row: p.y as u16, glyph: r.character(), tint },
            );
            i += 1;
        }
        proof {
            assert(cells@ =~= renderables@.map_values(|r: Renderable| spec_cell(r)));
        }
        cells
    }
}

} // verus!
