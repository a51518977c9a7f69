//! The automaton engine: two generation buffers, a poll-based rate limiter,
//! and a dirty flag that gates rendering.

use vstd::prelude::*;

use crate::grid::Grid;
use crate::pixels::pixels_match;
use crate::pixels::render_grid;
use crate::step::compute_next;
use crate::step::next_grid;

verus! {

/// Relies on rand::random::<bool>: one fair coin flip drawn from the
/// thread-local generator. Nothing is promised of the outcome.
#[verifier::external_body]
fn random_bool() -> bool {
    rand::random()
}

/// Builds one row of `width` independently randomized cells.
fn random_row(width: usize) -> (row: Vec<bool>)
    ensures
        row@.len() == width,
{
    let mut row: Vec<bool> = Vec::new();
    let mut c: usize = 0;
    while c < width
        invariant
            c <= width,
            row@.len() == c,
        decreases width - c,
    {
        row.push(random_bool());
        c = c + 1;
    }
    row
}

/// The engine: the visible generation `current`, the scratch buffer `next`
/// that the following generation is computed into, the time of the last
/// completed step, the fixed step interval, and the needs-redraw flag.
pub struct Engine {
    pub current: Grid,
    pub next: Grid,
    pub last_step_ms: u64,
    pub step_interval_ms: u64,
    pub dirty: bool,
}

impl Engine {
    /// Both buffers are well-formed boards of the same fixed dimensions.
    pub open spec fn wf(self) -> bool {
        &&& self.current.wf()
        &&& self.next.wf()
        &&& self.next.width == self.current.width
        &&& self.next.height == self.current.height
    }

    /// Allocates both buffers and randomizes `current` with one independent
    /// fair coin flip per cell; `next` starts fully dead. The step interval
    /// is the whole number of milliseconds in `1000 / updates_per_second`.
    pub fn new(width: usize, height: usize, updates_per_second: u64, now_ms: u64) -> (e: Engine)
        requires
            0 < width,
            0 < height,
            0 < updates_per_second,
            width * height * 4 <= usize::MAX,
        ensures
            e.wf(),
            e.current.width == width,
            e.current.height == height,
            forall|r: int, c: int|
                0 <= r < height && 0 <= c < width ==> !(#[trigger] e.next@[r][c]),
            e.dirty,
            e.last_step_ms == now_ms,
            e.step_interval_ms == 1000u64 as int / updates_per_second as int,
    {
        let mut cells: Vec<Vec<bool>> = Vec::new();
        let mut r: usize = 0;
        while r < height
            invariant
                r <= height,
                cells@.len() == r,
                forall|i: int|
                    0 <= i < r ==> (#[trigger] cells@[i])@.len() == width,
            decreases height - r,
        {
            cells.push(random_row(width));
            r = r + 1;
        }
        let current = Grid { width, height, cells };
        let next = Grid::dead(width, height);
        Engine {
            current,
            next,
            last_step_ms: now_ms,
            step_interval_ms: 1000 / updates_per_second,
            dirty: true,
        }
    }

    /// Builds an engine over a given starting board, for a caller that wants
    /// a fixed initial pattern instead of a random one; `next` starts fully
    /// dead.
    pub fn with_grid(current: Grid, updates_per_second: u64, now_ms: u64) -> (e: Engine)
        requires
            current.wf(),
            0 < updates_per_second,
        ensures
            e.wf(),
            e.current == current,
            forall|r: int, c: int|
                0 <= r < current.height && 0 <= c < current.width ==> !(#[trigger] e.next@[r][c]),
            e.dirty,
            e.last_step_ms == now_ms,
            e.step_interval_ms == 1000u64 as int / updates_per_second as int,
    {
        let next = Grid::dead(current.width, current.height);
        Engine {
            current,
            next,
            last_step_ms: now_ms,
            step_interval_ms: 1000 / updates_per_second,
            dirty: true,
        }
    }

    /// The poll-based rate limiter and step. If less than one step interval
    /// has elapsed since the last step, nothing changes and the call returns
    /// `false`. Otherwise one full generation is computed from `current`
    /// into `next`, the buffers swap roles, the step time and the redraw
    /// flag are set, and the call returns `true`.
    pub fn maybe_step(&mut self, now_ms: u64) -> (stepped: bool)
        requires
            old(self).wf(),
        ensures
            final(self).wf(),
            stepped == (old(self).last_step_ms + old(self).step_interval_ms <= now_ms),
            !stepped ==> *final(self) == *old(self),
            stepped ==> final(self).current@ == next_grid(
                old(self).current@,
                old(self).current.width as int,
                old(self).current.height as int,
            ),
            stepped ==> final(self).next@ == old(self).current@,
            stepped ==> final(self).dirty,
            stepped ==> final(self).last_step_ms == now_ms,
            final(self).current.width == old(self).current.width,
            final(self).current.height == old(self).current.height,
            final(self).step_interval_ms == old(self).step_interval_ms,
    {
        if !(now_ms >= self.last_step_ms && now_ms - self.last_step_ms >= self.step_interval_ms) {
            return false;
        }
        compute_next(&self.current, &mut self.next);
        core::mem::swap(&mut self.current, &mut self.next);
        self.last_step_ms = now_ms;
        self.dirty = true;
        true
    }

    /// Returns the packed RGBA image of `current` if a step has happened
    /// since the last render, and nothing otherwise; in either case the
    /// redraw flag is clear afterwards, so a buffer is handed out at most
    /// once per step.
    pub fn render_if_dirty(&mut self) -> (buf: Option<Vec<u8>>)
        requires
            old(self).wf(),
        ensures
            final(self).wf(),
            !final(self).dirty,
            final(self).current == old(self).current,
            final(self).next == old(self).next,
            final(self).last_step_ms == old(self).last_step_ms,
            final(self).step_interval_ms == old(self).step_interval_ms,
            !old(self).dirty ==> buf is None,
            old(self).dirty ==> (buf matches Some(b) && pixels_match(
                old(self).current@,
                old(self).current.width as int,
                old(self).current.height as int,
                b@,
            )),
    {
        if self.dirty {
            self.dirty = false;
            Some(render_grid(&self.current))
        } else {
            None
        }
    }
}

} // verus!
