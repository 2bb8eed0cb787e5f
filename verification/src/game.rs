//! Grid model and per-tick game logic: falling, keyboard control, and the
//! placement check that freezes the active cell and respawns a new one.

use vstd::prelude::*;

verus! {

/// Logical grid width in cells. The active cell's x stays in [0, TOTAL_WIDTH).
pub const TOTAL_WIDTH: i32 = 8;

/// Logical grid height in cells. The active cell's y stays in [0, TOTAL_HEIGHT).
pub const TOTAL_HEIGHT: i32 = 16;

/// Column in which a fresh active cell appears after a placement.
pub const SPAWN_X: i32 = 5;

/// A cell position in logical grid coordinates.
#[derive(Clone, Copy, PartialEq, Eq, Structural, Hash, Debug)]
pub struct Position {
    pub x: i32,
    pub y: i32,
}

/// True when `p` lies on the grid: x in [0, TOTAL_WIDTH), y in [0, TOTAL_HEIGHT).
pub open spec fn position_in_bounds(p: Position) -> bool {
    0 <= p.x < TOTAL_WIDTH && 0 <= p.y < TOTAL_HEIGHT
}

/// The position where a fresh active cell appears: top row, fixed column.
pub open spec fn spawn_position() -> Position {
    Position { x: SPAWN_X, y: (TOTAL_HEIGHT - 1) as i32 }
}

/// A block's logical square size in grid units; only read by the render
/// scaling, never changed after construction.
#[derive(Clone, Copy, PartialEq, Eq, Structural, Debug)]
pub struct Size {
    pub width: u32,
    pub height: u32,
}

impl Size {
    /// A square size of `x` by `x` grid units.
    pub fn square(x: u32) -> (s: Self)
        ensures
            s.width == x,
            s.height == x,
    {
        Self { width: x, height: x }
    }
}

/// The keyboard state a control tick reads: whether each directional key is
/// held down at that moment.
#[derive(Clone, Copy, PartialEq, Eq, Structural, Debug)]
pub struct ControlInput {
    pub left: bool,
    pub right: bool,
    pub down: bool,
}

/// True when some frozen cell in `frozen` sits at (x, y).
pub open spec fn has_frozen_at(frozen: Seq<Position>, x: int, y: int) -> bool {
    exists|i: int| 0 <= i < frozen.len() && frozen[i].x == x && frozen[i].y == y
}

/// The whole game state: the single active cell's position and every frozen
/// cell's position, in the order the cells landed. Frozen cells accumulate
/// for the life of the game; nothing removes them.
pub struct GameState {
    active: Position,
    frozen: Vec<Position>,
}

impl GameState {
    /// The active cell's position.
    pub closed spec fn active_pos(&self) -> Position {
        self.active
    }

    /// The frozen cells' positions, oldest first.
    pub closed spec fn frozen_seq(&self) -> Seq<Position> {
        self.frozen@
    }

    /// Well-formedness: the active cell and every frozen cell lie on the grid.
    pub open spec fn wf(&self) -> bool {
        &&& position_in_bounds(self.active_pos())
        &&& forall|i: int|
            0 <= i < self.frozen_seq().len() ==> position_in_bounds(self.frozen_seq()[i])
    }

    /// A fresh game: one active cell at the spawn point, no frozen cells.
    pub fn new() -> (s: GameState)
        ensures
            s.wf(),
            s.active_pos() == spawn_position(),
            s.frozen_seq().len() == 0,
    {
        GameState { active: Position { x: SPAWN_X, y: TOTAL_HEIGHT - 1 }, frozen: Vec::new() }
    }

    /// The active cell's current position.
    pub fn active_position(&self) -> (p: Position)
        ensures
            p == self.active_pos(),
    {
        self.active
    }

    /// Moves the active cell to `p`.
    pub fn set_active_position(&mut self, p: Position)
        requires
            position_in_bounds(p),
        ensures
            final(self).active_pos() == p,
            final(self).frozen_seq() == old(self).frozen_seq(),
            old(self).wf() ==> final(self).wf(),
    {
        self.active = p;
    }

    /// How many cells have frozen so far.
    pub fn frozen_count(&self) -> (n: usize)
        ensures
            n == self.frozen_seq().len(),
    {
        self.frozen.len()
    }

    /// The position of the `i`-th frozen cell, oldest first.
    pub fn frozen_position(&self, i: usize) -> (p: Position)
        requires
            i < self.frozen_seq().len(),
        ensures
            p == self.frozen_seq()[i as int],
    {
        self.frozen[i]
    }

    /// Freezes a cell at (x, y): spawns a frozen cell there. The active cell
    /// is untouched.
    pub fn place_normal_block(&mut self, x: i32, y: i32)
        requires
            position_in_bounds(Position { x, y }),
        ensures
            final(self).frozen_seq() == old(self).frozen_seq().push(Position { x, y }),
            final(self).active_pos() == old(self).active_pos(),
            old(self).wf() ==> final(self).wf(),
    {
        self.frozen.push(Position { x, y });
    }

    /// Puts the active cell back at the spawn point.
    pub fn reset_active_to_spawn(&mut self)
        ensures
            final(self).active_pos() == spawn_position(),
            final(self).frozen_seq() == old(self).frozen_seq(),
            old(self).wf() ==> final(self).wf(),
    {
        self.active = Position { x: SPAWN_X, y: TOTAL_HEIGHT - 1 };
    }
}

/// What one fall tick does to the active cell: one row down, stopping at the
/// floor.
pub open spec fn spec_fall_step(p: Position) -> Position {
    if p.y > 0 {
        Position { x: p.x, y: (p.y - 1) as i32 }
    } else {
        p
    }
}

/// Moves the active cell down one row, unless it already sits on the floor.
/// This is the sole source of automatic descent; frozen cells never move.
pub fn falling_movement(state: &mut GameState)
    requires
        old(state).wf(),
    ensures
        final(state).wf(),
        final(state).active_pos() == spec_fall_step(old(state).active_pos()),
        final(state).frozen_seq() == old(state).frozen_seq(),
{
    let p = state.active_position();
    if p.y > 0 {
        state.set_active_position(Position { x: p.x, y: p.y - 1 });
    }
}

/// What one control tick does to the active cell when the keys in `input`
/// are held: at most one direction applies, left before right before down,
/// and a move off the grid is suppressed.
pub open spec fn spec_control_step(p: Position, input: ControlInput) -> Position {
    if input.left && p.x > 0 {
        Position { x: (p.x - 1) as i32, y: p.y }
    } else if input.right && p.x < TOTAL_WIDTH - 1 {
        Position { x: (p.x + 1) as i32, y: p.y }
    } else if input.down && p.y > 0 {
        Position { x: p.x, y: (p.y - 1) as i32 }
    } else {
        p
    }
}

/// Applies one control tick's held keys to the active cell: left, else
/// right, else down, each bounds-checked; out-of-grid moves are clamped,
/// never reported.
pub fn control_movement(state: &mut GameState, input: ControlInput)
    requires
        old(state).wf(),
    ensures
        final(state).wf(),
        final(state).active_pos() == spec_control_step(old(state).active_pos(), input),
        final(state).frozen_seq() == old(state).frozen_seq(),
{
    let p = state.active_position();
    if input.left && p.x > 0 {
        state.set_active_position(Position { x: p.x - 1, y: p.y });
    } else if input.right && p.x < TOTAL_WIDTH - 1 {
        state.set_active_position(Position { x: p.x + 1, y: p.y });
    } else if input.down && p.y > 0 {
        state.set_active_position(Position { x: p.x, y: p.y - 1 });
    }
}

/// True when the placement check must freeze the active cell of `s`: it sits
/// on the floor, or some frozen cell sits immediately below it.
pub open spec fn spec_should_place(s: &GameState) -> bool {
    s.active_pos().y == 0 || has_frozen_at(
        s.frozen_seq(),
        s.active_pos().x as int,
        s.active_pos().y - 1,
    )
}

/// Scans the frozen cells for one at (x, y). First match wins; at most one
/// is expected at any position under correct play.
fn find_frozen_at(state: &GameState, x: i32, y: i32) -> (r: bool)
    ensures
        r == has_frozen_at(state.frozen_seq(), x as int, y as int),
{
    let n = state.frozen_count();
    let mut i: usize = 0;
    while i < n
        invariant
            n == state.frozen_seq().len(),
            i <= n,
            forall|j: int|
                0 <= j < i ==> !(state.frozen_seq()[j].x == x && state.frozen_seq()[j].y == y),
        decreases n - i,
    {
        let p = state.frozen_position(i);
        if p.x == x && p.y == y {
            return true;
        }
        i = i + 1;
    }
    false
}

/// The placement check, run right after the fall step of the same tick. If
/// the active cell has reached the floor, or a frozen cell sits immediately
/// below it, it freezes where it is and a fresh active cell appears at the
/// spawn point; otherwise nothing changes. Returns whether a cell froze.
pub fn place_active_blocks(state: &mut GameState) -> (placed: bool)
    requires
        old(state).wf(),
    ensures
        final(state).wf(),
        placed == spec_should_place(old(state)),
        placed ==> final(state).frozen_seq() == old(state).frozen_seq().push(
            old(state).active_pos(),
        ),
        placed ==> final(state).active_pos() == spawn_position(),
        !placed ==> *final(state) == *old(state),
{
    let p = state.active_position();
    let mut did_place: bool = false;
    if p.y == 0 {
        state.place_normal_block(p.x, p.y);
        did_place = true;
    } else if find_frozen_at(state, p.x, p.y - 1) {
        state.place_normal_block(p.x, p.y);
        did_place = true;
    }
    if did_place {
        state.reset_active_to_spawn();
    }
    did_place
}

/// In every well-formed state — as every tick function both requires and
/// re-establishes — the active cell's x lies in [0, TOTAL_WIDTH) and its y
/// in [0, TOTAL_HEIGHT).
pub proof fn lemma_active_cell_in_bounds(s: &GameState)
    requires
        s.wf(),
    ensures
        0 <= s.active_pos().x < TOTAL_WIDTH,
        0 <= s.active_pos().y < TOTAL_HEIGHT,
{
}

/// Horizontal moves clamp at the grid's edges: with only the left key held
/// in column 0, or only the right key held in the last column, a control
/// tick leaves the column unchanged.
pub proof fn lemma_horizontal_clamp(p: Position, input: ControlInput)
    ensures
        p.x == 0 && input.left && !input.right ==> spec_control_step(p, input).x == 0,
        p.x == TOTAL_WIDTH - 1 && input.right && !input.left ==> spec_control_step(p, input).x
            == TOTAL_WIDTH - 1,
{
}

} // verus!
