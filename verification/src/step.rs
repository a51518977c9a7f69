//! The generation transition: toroidal neighbor counting, the Game-of-Life
//! rule, and the verified pass that writes one full generation into the
//! scratch buffer.

use vstd::prelude::*;

use crate::grid::Grid;

verus! {

/// The coordinate one step towards lower indices, wrapping to `n - 1` at 0.
pub open spec fn wrap_dec(i: int, n: int) -> int {
    (i + n - 1) % n
}

/// The coordinate one step towards higher indices, wrapping to 0 at `n - 1`.
pub open spec fn wrap_inc(i: int, n: int) -> int {
    (i + 1) % n
}

/// 1 if the cell is alive, 0 if dead.
pub open spec fn live_count(alive: bool) -> int {
    if alive {
        1
    } else {
        0
    }
}

/// How many of the eight toroidal neighbors of `(r, c)` are alive in a
/// `w` x `h` board. On a dimension of length 1 the wrapped coordinates
/// coincide, exactly as the modular arithmetic dictates.
pub open spec fn live_neighbors(g: Seq<Seq<bool>>, w: int, h: int, r: int, c: int) -> int {
    let left = wrap_dec(c, w);
    let right = wrap_inc(c, w);
    let above = wrap_dec(r, h);
    let below = wrap_inc(r, h);
    live_count(g[above][left]) + live_count(g[above][c]) + live_count(g[above][right])
        + live_count(g[r][left]) + live_count(g[r][right]) + live_count(g[below][left])
        + live_count(g[below][c]) + live_count(g[below][right])
}

/// The Game-of-Life rule: a cell is alive in the next generation iff it has
/// exactly 3 live neighbors, or it has exactly 2 and is alive now. Birth
/// needs exactly 3; survival allows 2 or 3; everything else dies.
pub open spec fn next_state(g: Seq<Seq<bool>>, w: int, h: int, r: int, c: int) -> bool {
    let n = live_neighbors(g, w, h, r, c);
    n == 3 || (n == 2 && g[r][c])
}

/// The whole next generation of a `w` x `h` board, cell by cell.
pub open spec fn next_grid(g: Seq<Seq<bool>>, w: int, h: int) -> Seq<Seq<bool>> {
    Seq::new(h as nat, |r: int| Seq::new(w as nat, |c: int| next_state(g, w, h, r, c)))
}

/// The step algorithm is a pure function of the current board: the same
/// board always yields the same next generation, byte for byte.
pub proof fn lemma_step_deterministic(a: Seq<Seq<bool>>, b: Seq<Seq<bool>>, w: int, h: int)
    requires
        a == b,
    ensures
        next_grid(a, w, h) == next_grid(b, w, h),
{
}

/// The rule, case by case: a live cell with exactly 2 or exactly 3 live
/// neighbors survives and otherwise dies; a dead cell with exactly 3 live
/// neighbors is born and otherwise stays dead.
pub proof fn lemma_rule_cases(g: Seq<Seq<bool>>, w: int, h: int, r: int, c: int)
    ensures
        g[r][c] && (live_neighbors(g, w, h, r, c) == 2 || live_neighbors(g, w, h, r, c) == 3)
            ==> next_state(g, w, h, r, c),
        g[r][c] && !(live_neighbors(g, w, h, r, c) == 2 || live_neighbors(g, w, h, r, c) == 3)
            ==> !next_state(g, w, h, r, c),
        !g[r][c] && live_neighbors(g, w, h, r, c) == 3 ==> next_state(g, w, h, r, c),
        !g[r][c] && live_neighbors(g, w, h, r, c) != 3 ==> !next_state(g, w, h, r, c),
{
}

/// Toroidal wrap: the board has no edges. A live cell at `(h-1, w-1)` is
/// counted as a (diagonal) neighbor of `(0, 0)`, and a live cell at `(0, 0)`
/// is counted as a (horizontal) neighbor of `(0, w-1)`.
pub proof fn lemma_toroidal_wrap(g: Seq<Seq<bool>>, w: int, h: int)
    requires
        0 < w,
        0 < h,
    ensures
        g[h - 1][w - 1] ==> live_neighbors(g, w, h, 0, 0) >= 1,
        g[0][0] ==> live_neighbors(g, w, h, 0, w - 1) >= 1,
{
    vstd::arithmetic::div_mod::lemma_small_mod((w - 1) as nat, w as nat);
    vstd::arithmetic::div_mod::lemma_small_mod((h - 1) as nat, h as nat);
    vstd::arithmetic::div_mod::lemma_mod_self_0(w);
    assert(wrap_dec(0, w) == w - 1);
    assert(wrap_dec(0, h) == h - 1);
    assert(wrap_inc(w - 1, w) == 0);
}

/// Counts the live cells among the eight toroidal neighbors of `(r, c)`.
fn count_live_neighbors(g: &Grid, r: usize, c: usize) -> (n: u8)
    requires
        g.wf(),
        r < g.height,
        c < g.width,
    ensures
        n as int == live_neighbors(g@, g.width as int, g.height as int, r as int, c as int),
{
    let w = g.width;
    let h = g.height;
    proof {
        assert(w * 1 * 4 <= w * h * 4) by (nonlinear_arith)
            requires
                1 <= h,
                0 <= w,
        ;
        assert(1 * h * 4 <= w * h * 4) by (nonlinear_arith)
            requires
                1 <= w,
                0 <= h,
        ;
    }
    let left = (c + w - 1) % w;
    let right = (c + 1) % w;
    let above = (r + h - 1) % h;
    let below = (r + 1) % h;
    let mut n: u8 = 0;
    if g.get(above, left) {
        n = n + 1;
    }
    if g.get(above, c) {
        n = n + 1;
    }
    if g.get(above, right) {
        n = n + 1;
    }
    if g.get(r, left) {
        n = n + 1;
    }
    if g.get(r, right) {
        n = n + 1;
    }
    if g.get(below, left) {
        n = n + 1;
    }
    if g.get(below, c) {
        n = n + 1;
    }
    if g.get(below, right) {
        n = n + 1;
    }
    n
}

/// Computes one full generation from `current` into `next`, cell by cell.
/// `current` is only read and `next` is only written, so the rows are
/// independent; they are filled here in row order. After the pass, `next`
/// holds exactly the next generation of `current`.
pub fn compute_next(current: &Grid, next: &mut Grid)
    requires
        current.wf(),
        old(next).wf(),
        old(next).width == current.width,
        old(next).height == current.height,
    ensures
        final(next).wf(),
        final(next).width == current.width,
        final(next).height == current.height,
        final(next)@ == next_grid(current@, current.width as int, current.height as int),
{
    let w = current.width;
    let h = current.height;
    let mut r: usize = 0;
    while r < h
        invariant
            current.wf(),
            next.wf(),
            w == current.width,
            h == current.height,
            next.width == w,
            next.height == h,
            r <= h,
            forall|i: int, j: int|
                0 <= i < r && 0 <= j < w ==> #[trigger] next@[i][j] == next_state(
                    current@,
                    w as int,
                    h as int,
                    i,
                    j,
                ),
        decreases h - r,
    {
        let mut row: Vec<bool> = Vec::new();
        let mut c: usize = 0;
        while c < w
            invariant
                current.wf(),
                w == current.width,
                h == current.height,
                r < h,
                c <= w,
                row@.len() == c,
                forall|j: int|
                    0 <= j < c ==> #[trigger] row@[j] == next_state(
                        current@,
                        w as int,
                        h as int,
                        r as int,
                        j,
                    ),
            decreases w - c,
        {
            let neighbors = count_live_neighbors(current, r, c);
            let alive = neighbors == 3 || (neighbors == 2 && current.get(r, c));
            row.push(alive);
            c = c + 1;
        }
        let ghost prev = next@;
        next.cells.set(r, row);
        proof {
            assert forall|i: int, j: int|
                0 <= i < r + 1 && 0 <= j < w implies #[trigger] next@[i][j] == next_state(
                current@,
                w as int,
                h as int,
                i,
                j,
            ) by {
                if i == r {
                    assert(next@[i] == row@);
                } else {
                    assert(next@[i] == prev[i]);
                }
            }
        }
        r = r + 1;
    }
    proof {
        assert(next@ =~~= next_grid(current@, w as int, h as int));
    }
}

} // verus!
