//! The walker: an automaton that toggles the cell it stands on, turns
//! according to the new colour, and advances one cell, until the next cell
//! would lie outside the grid.
//!
//! The step rule and the run loop are stated against a mathematical model of
//! the simulation: `SimState` carries the cells, the walker's coordinates and
//! heading, and whether it is still active; `spec_step` is one application of
//! the step rule, and `spec_run` iterates it.

use vstd::prelude::*;

use crate::direction::Direction;
use crate::grid::Grid;
use crate::grid::cell_index;
use crate::grid::lemma_cell_index_in_range;
use crate::grid::spec_toggled;
use crate::pos::MapPos;
use crate::pos::Pos;
use crate::pos::spec_in_bounds;

verus! {

/// A snapshot of the whole simulation: the grid's cells in row-major order,
/// the walker's coordinates and heading, and whether it may still step.
/// `active` is false once the walker has left the grid; its coordinates then
/// stay at the last cell it occupied.
pub ghost struct SimState {
    pub cells: Seq<bool>,
    pub x: int,
    pub y: int,
    pub dir: Direction,
    pub active: bool,
}

/// One application of the step rule on a grid `w` cells wide and `h` cells
/// high: toggle the cell under the walker, turn clockwise when the cell is
/// now white and counterclockwise when it is now black, then advance one
/// cell along the new heading — or halt, without moving, when that cell
/// lies outside the grid.
pub open spec fn spec_step(w: int, h: int, s: SimState) -> SimState {
    let i = cell_index(w, s.x, s.y);
    let was_white = s.cells[i];
    let cells = spec_toggled(s.cells, i);
    let dir = if was_white {
        s.dir.spec_ccw()
    } else {
        s.dir.spec_cw()
    };
    let nx = s.x + dir.spec_shift().0;
    let ny = s.y + dir.spec_shift().1;
    if 0 <= nx < w && 0 <= ny < h {
        SimState { cells, x: nx, y: ny, dir, active: true }
    } else {
        SimState { cells, x: s.x, y: s.y, dir, active: false }
    }
}

/// `n` applications of the step rule; a halted state is terminal and stays
/// fixed.
pub open spec fn spec_run(w: int, h: int, s: SimState, n: nat) -> SimState
    decreases n,
{
    if n == 0 {
        s
    } else {
        let p = spec_run(w, h, s, (n - 1) as nat);
        if p.active {
            spec_step(w, h, p)
        } else {
            p
        }
    }
}

/// The walker: a heading and a position proven in bounds for the grid it
/// walks. It never holds an out-of-bounds coordinate.
pub struct Ant {
    pos: MapPos,
    dir: Direction,
}

impl Ant {
    /// The walker's position, proven in bounds for its grid.
    pub closed spec fn spec_pos(&self) -> MapPos {
        self.pos
    }

    /// The walker's heading.
    pub closed spec fn spec_dir(&self) -> Direction {
        self.dir
    }

    /// The walker is well-formed for `g`: its position lies inside `g`.
    pub open spec fn wf(&self, g: &Grid) -> bool {
        self.spec_pos().is_valid_for(g)
    }

    /// The simulation state this walker and grid embody, with the given
    /// activity flag.
    pub open spec fn sim(&self, g: &Grid, active: bool) -> SimState {
        SimState {
            cells: g@,
            x: self.spec_pos().spec_x(),
            y: self.spec_pos().spec_y(),
            dir: self.spec_dir(),
            active: active,
        }
    }

    /// The walker's position.
    pub fn pos(&self) -> (r: MapPos)
        ensures
            r == self.spec_pos(),
    {
        self.pos
    }

    /// The walker's heading.
    pub fn dir(&self) -> (r: Direction)
        ensures
            r == self.spec_dir(),
    {
        self.dir
    }

    /// Create a walker on `g` at a raw start coordinate, facing `dir`. Fails
    /// with the rejected coordinate when the start lies outside the grid; no
    /// cell is touched in that case.
    pub fn new(g: &Grid, pos: Pos, dir: Direction) -> (r: Result<Ant, Pos>)
        ensures
            r is Ok <==> spec_in_bounds(*g, pos),
            r is Ok ==> {
                let ant = r->Ok_0;
                &&& ant.wf(g)
                &&& ant.spec_pos().spec_x() == pos.x as int
                &&& ant.spec_pos().spec_y() == pos.y as int
                &&& ant.spec_dir() == dir
            },
            r is Err ==> r->Err_0 == pos,
    {
        match MapPos::validate_pos(g, pos) {
            Ok(p) => Ok(Ant { pos: p, dir }),
            Err(rejected) => Err(rejected),
        }
    }

    /// One step of the walk. Returns whether the walker can walk any
    /// further: `false` means it has halted, because the cell ahead of its
    /// new heading lies outside the grid. The grid and the walker change
    /// exactly as one application of the step rule prescribes.
    pub fn walk(&mut self, map: &mut Grid) -> (active: bool)
        requires
            old(map).wf(),
            old(self).wf(old(map)),
        ensures
            final(map).wf(),
            final(self).wf(final(map)),
            final(map).spec_width() == old(map).spec_width(),
            final(map).spec_height() == old(map).spec_height(),
            final(self).sim(final(map), active) == spec_step(
                old(map).spec_width(),
                old(map).spec_height(),
                old(self).sim(old(map), true),
            ),
    {
        let ghost w = old(map).spec_width();
        let ghost h = old(map).spec_height();
        let now_white: bool = map.toggle(self.pos);
        self.dir = if now_white {
            self.dir.cw()
        } else {
            self.dir.ccw()
        };
        let shift: Pos = self.dir.to_shift();
        proof {
            map.lemma_wf_bounds();
            lemma_cell_index_in_range(w, h, self.pos.spec_x(), self.pos.spec_y());
            assert(w <= w * h && h <= w * h) by (nonlinear_arith)
                requires
                    1 <= w,
                    1 <= h,
            ;
        }
        let cand: Pos = self.pos.add(shift);
        match MapPos::validate_pos(map, cand) {
            Ok(p) => {
                self.pos = p;
                true
            },
            Err(_) => false,
        }
    }

    /// Run the walk, but for at most `max_steps` steps, so that the loop
    /// provably terminates; the walk itself carries no termination bound.
    /// Returns the number of steps taken and whether the walker halted. The
    /// final grid and walker are exactly `spec_run` of the starting state:
    /// when `halted` holds the walker left the grid on the last counted
    /// step, and otherwise the budget ran out with the walker still active.
    pub fn walk_until_end(&mut self, map: &mut Grid, max_steps: u64) -> (r: (u64, bool))
        requires
            old(map).wf(),
            old(self).wf(old(map)),
        ensures
            final(map).wf(),
            final(self).wf(final(map)),
            final(map).spec_width() == old(map).spec_width(),
            final(map).spec_height() == old(map).spec_height(),
            r.0 <= max_steps,
            ({
                let s = spec_run(
                    old(map).spec_width(),
                    old(map).spec_height(),
                    old(self).sim(old(map), true),
                    r.0 as nat,
                );
                &&& final(self).sim(final(map), !r.1) == s
                &&& r.1 == !s.active
            }),
            !r.1 ==> r.0 == max_steps,
            forall|m: nat|
                m < r.0 ==> spec_run(
                    old(map).spec_width(),
                    old(map).spec_height(),
                    old(self).sim(old(map), true),
                    m,
                ).active,
    {
        let ghost w = old(map).spec_width();
        let ghost h = old(map).spec_height();
        let ghost init = old(self).sim(old(map), true);
        let mut steps: u64 = 0;
        let mut active: bool = true;
        while active && steps < max_steps
            invariant
                steps <= max_steps,
                map.wf(),
                self.wf(map),
                map.spec_width() == w,
                map.spec_height() == h,
                self.sim(map, active) == spec_run(w, h, init, steps as nat),
                forall|m: nat| m < steps ==> spec_run(w, h, init, m).active,
            decreases max_steps - steps,
        {
            active = self.walk(map);
            steps = steps + 1;
            proof {
                assert(spec_run(w, h, init, steps as nat) == spec_step(
                    w,
                    h,
                    spec_run(w, h, init, (steps - 1) as nat),
                ));
            }
        }
        (steps, !active)
    }
}

} // verus!
