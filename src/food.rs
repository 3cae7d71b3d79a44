//! The single food pellet and where it is placed when it is eaten.
use vstd::prelude::*;

use crate::grid::{in_interior, Cell, HEIGHT, WIDTH};
use crate::snake::Snake;

verus! {

/// Number of interior cells of the board.
pub const INTERIOR_CELLS: usize = 684;

/// How many placements a respawn that avoids the body draws before it falls
/// back to a scan of the board.
pub const MAX_DRAWS: usize = 16;

/// The active pellet. It always lies in the interior.
pub struct Food {
    x: u16,
    y: u16,
}

/// A column offset and a row offset into the interior.
pub open spec fn offset_ok(d: (u16, u16)) -> bool {
    d.0 < WIDTH - 2 && d.1 < HEIGHT - 2
}

/// A non-empty list of offsets into the interior.
pub open spec fn offsets_ok(draws: Seq<(u16, u16)>) -> bool {
    draws.len() >= 1 && forall|i: int| 0 <= i < draws.len() ==> offset_ok(#[trigger] draws[i])
}

/// The interior cell at the column and row offsets `d` from the interior's
/// upper left cell.
pub open spec fn drawn_cell(d: (u16, u16)) -> Cell {
    Cell { x: (1 + d.0) as u16, y: (1 + d.1) as u16 }
}

/// The `k`-th interior cell in row-major order.
pub open spec fn interior_cell(k: int) -> Cell {
    Cell { x: (1 + k % (WIDTH as int - 2)) as u16, y: (1 + k / (WIDTH as int - 2)) as u16 }
}

/// The first drawn cell, from the `i`-th draw on, that is not part of `body`.
pub open spec fn first_clear_draw(draws: Seq<(u16, u16)>, body: Seq<Cell>, i: int) -> Option<Cell>
    decreases draws.len() - i,
{
    if i < 0 || i >= draws.len() {
        None
    } else if !body.contains(drawn_cell(draws[i])) {
        Some(drawn_cell(draws[i]))
    } else {
        first_clear_draw(draws, body, i + 1)
    }
}

/// The first interior cell, in row-major order from index `k` on, that is
/// not part of `body`.
pub open spec fn first_free_from(body: Seq<Cell>, k: int) -> Option<Cell>
    decreases INTERIOR_CELLS - k,
{
    if k < 0 || k >= INTERIOR_CELLS {
        None
    } else if !body.contains(interior_cell(k)) {
        Some(interior_cell(k))
    } else {
        first_free_from(body, k + 1)
    }
}

/// Some interior cell is not covered by `body`.
pub open spec fn has_free_cell(body: Seq<Cell>) -> bool {
    exists|c: Cell| in_interior(c) && !body.contains(c)
}

/// Where the pellet goes for the list of draws when placements under the
/// body are rejected: the first drawn cell that is clear, else the first
/// clear interior cell, else (a full board) the first drawn cell.
pub open spec fn clear_placement(draws: Seq<(u16, u16)>, body: Seq<Cell>) -> Cell {
    match first_clear_draw(draws, body, 0) {
        Some(c) => c,
        None => match first_free_from(body, 0) {
            Some(c) => c,
            None => drawn_cell(draws[0]),
        },
    }
}

pub proof fn lemma_drawn_cell_inside(d: (u16, u16))
    requires
        offset_ok(d),
    ensures
        in_interior(drawn_cell(d)),
{
}

proof fn lemma_interior_cell_inside(k: int)
    requires
        0 <= k < INTERIOR_CELLS,
    ensures
        in_interior(interior_cell(k)),
{
}

proof fn lemma_first_clear_draw_inside(draws: Seq<(u16, u16)>, body: Seq<Cell>, i: int)
    requires
        offsets_ok(draws),
    ensures
        first_clear_draw(draws, body, i) matches Some(c) ==> in_interior(c) && !body.contains(c),
    decreases draws.len() - i,
{
    if 0 <= i < draws.len() {
        lemma_drawn_cell_inside(draws[i]);
        lemma_first_clear_draw_inside(draws, body, i + 1);
    }
}

proof fn lemma_first_free_inside(body: Seq<Cell>, k: int)
    ensures
        first_free_from(body, k) matches Some(c) ==> in_interior(c) && !body.contains(c),
    decreases INTERIOR_CELLS - k,
{
    if 0 <= k < INTERIOR_CELLS {
        lemma_interior_cell_inside(k);
        lemma_first_free_inside(body, k + 1);
    }
}

/// A clear cell at index `j >= k` is found by the scan from `k`.
proof fn lemma_first_free_found(body: Seq<Cell>, k: int, j: int)
    requires
        0 <= k <= j < INTERIOR_CELLS,
        !body.contains(interior_cell(j)),
    ensures
        first_free_from(body, k) is Some,
    decreases j - k,
{
    if k < j && body.contains(interior_cell(k)) {
        lemma_first_free_found(body, k + 1, j);
    }
}

/// The placement lies in the interior, and off the body whenever the board
/// has room for it.
pub proof fn lemma_clear_placement(draws: Seq<(u16, u16)>, body: Seq<Cell>)
    requires
        offsets_ok(draws),
    ensures
        in_interior(clear_placement(draws, body)),
        has_free_cell(body) ==> !body.contains(clear_placement(draws, body)),
{
    lemma_first_clear_draw_inside(draws, body, 0);
    lemma_first_free_inside(body, 0);
    lemma_drawn_cell_inside(draws[0]);
    if has_free_cell(body) && first_clear_draw(draws, body, 0) is None {
        let c = choose|c: Cell| in_interior(c) && !body.contains(c);
        let j = (c.y - 1) * (WIDTH as int - 2) + (c.x - 1);
        assert(interior_cell(j) == c);
        lemma_first_free_found(body, 0, j);
    }
}

/// Relies on rand::Rng::gen_range over rand::thread_rng: a value drawn
/// uniformly from `0..n`; it panics only on an empty range.
#[verifier::external_body]
pub(crate) fn random_below(n: u16) -> (r: u16)
    requires
        n > 0,
    ensures
        r < n,
{
    rand::Rng::gen_range(&mut rand::thread_rng(), 0..n)
}

/// A uniformly random pair of offsets into the interior.
fn random_offset() -> (r: (u16, u16))
    ensures
        offset_ok(r),
{
    let dx = random_below(WIDTH - 2);
    let dy = random_below(HEIGHT - 2);
    (dx, dy)
}

/// The list of offsets that one respawn can draw: one pair without
/// `clear`; with it, every pair but the last lands on `body`, and the last one
/// lands off it unless the limit of `MAX_DRAWS` pairs was reached.
pub open spec fn possible_draws(draws: Seq<(u16, u16)>, body: Seq<Cell>, clear: bool) -> bool {
    &&& offsets_ok(draws)
    &&& draws.len() <= MAX_DRAWS
    &&& !clear ==> draws.len() == 1
    &&& clear ==> forall|i: int| 0 <= i < draws.len() - 1 ==> body.contains(drawn_cell(#[trigger] draws[i]))
    &&& clear && draws.len() < MAX_DRAWS ==> !body.contains(drawn_cell(draws.last()))
}

/// Draws the offsets for one respawn. Without `clear` that is one pair;
/// with it, pairs are drawn until one lands off the body of `snake`, at most
/// `MAX_DRAWS` of them.
pub fn draw_offsets(snake: &Snake, clear: bool) -> (r: Vec<(u16, u16)>)
    ensures
        possible_draws(r@, snake@.body, clear),
{
    let mut draws: Vec<(u16, u16)> = Vec::new();
    let first = random_offset();
    draws.push(first);
    if !clear {
        return draws;
    }
    let mut done = !snake.check_self_collision(Cell { x: 1 + first.0, y: 1 + first.1 });
    while !done && draws.len() < MAX_DRAWS
        invariant
            offsets_ok(draws@),
            draws@.len() <= MAX_DRAWS,
            forall|i: int|
                0 <= i < draws@.len() - 1 ==> snake@.body.contains(drawn_cell(#[trigger] draws@[i])),
            done ==> !snake@.body.contains(drawn_cell(draws@.last())),
            !done ==> snake@.body.contains(drawn_cell(draws@.last())),
        decreases MAX_DRAWS - draws@.len(),
    {
        let d = random_offset();
        let ghost before = draws@;
        draws.push(d);
        assert(forall|i: int| 0 <= i < before.len() ==> draws@[i] == before[i]);
        done = !snake.check_self_collision(Cell { x: 1 + d.0, y: 1 + d.1 });
    }
    draws
}

impl View for Food {
    type V = Cell;

    closed spec fn view(&self) -> Cell {
        Cell { x: self.x, y: self.y }
    }
}

impl Food {
    pub open spec fn wf(&self) -> bool {
        in_interior(self@)
    }

    /// The pellet at its starting cell.
    pub fn new() -> (r: Food)
        ensures
            r@ == (Cell { x: 20, y: 10 }),
            r.wf(),
    {
        Food { x: 20, y: 10 }
    }

    /// A pellet at a chosen interior cell.
    pub fn at(c: Cell) -> (r: Food)
        requires
            in_interior(c),
        ensures
            r@ == c,
            r.wf(),
    {
        Food { x: c.x, y: c.y }
    }

    pub fn position(&self) -> (r: Cell)
        ensures
            r == self@,
    {
        Cell { x: self.x, y: self.y }
    }

    /// Moves the pellet to the interior cell at offsets `dx`, `dy`.
    pub fn respawn_at_offset(&mut self, dx: u16, dy: u16)
        requires
            dx < WIDTH - 2,
            dy < HEIGHT - 2,
        ensures
            final(self)@ == drawn_cell((dx, dy)),
            final(self).wf(),
    {
        self.x = 1 + dx;
        self.y = 1 + dy;
    }

    /// Moves the pellet to a random interior cell, each axis uniform over its
    /// inner range.
    pub fn respawn(&mut self)
        ensures
            final(self).wf(),
    {
        let d = random_offset();
        self.respawn_at_offset(d.0, d.1);
    }

    /// Moves the pellet to the cell that `clear_placement` selects for
    /// `draws` and the body of `snake`.
    pub fn respawn_clear_of(&mut self, draws: &Vec<(u16, u16)>, snake: &Snake)
        requires
            offsets_ok(draws@),
        ensures
            final(self)@ == clear_placement(draws@, snake@.body),
            final(self).wf(),
            has_free_cell(snake@.body) ==> !snake@.body.contains(final(self)@),
    {
        proof {
            lemma_clear_placement(draws@, snake@.body);
        }
        let mut i: usize = 0;
        while i < draws.len()
            invariant
                0 <= i <= draws@.len(),
                offsets_ok(draws@),
                first_clear_draw(draws@, snake@.body, 0) == first_clear_draw(
                    draws@,
                    snake@.body,
                    i as int,
                ),
            decreases draws@.len() - i,
        {
            let d = draws[i];
            assert(offset_ok(draws@[i as int]));
            let c = Cell { x: 1 + d.0, y: 1 + d.1 };
            if !snake.check_self_collision(c) {
                self.x = c.x;
                self.y = c.y;
                return;
            }
            i += 1;
        }
        let mut k: usize = 0;
        while k < INTERIOR_CELLS
            invariant
                0 <= k <= INTERIOR_CELLS,
                first_free_from(snake@.body, 0) == first_free_from(snake@.body, k as int),
                first_clear_draw(draws@, snake@.body, 0) is None,
            decreases INTERIOR_CELLS - k,
        {
            let w: usize = (WIDTH - 2) as usize;
            let c = Cell { x: (1 + k % w) as u16, y: (1 + k / w) as u16 };
            assert(c == interior_cell(k as int));
            if !snake.check_self_collision(c) {
                self.x = c.x;
                self.y = c.y;
                return;
            }
            k += 1;
        }
        let d = draws[0];
        assert(offset_ok(draws@[0]));
        self.x = 1 + d.0;
        self.y = 1 + d.1;
    }
}

} // verus!
