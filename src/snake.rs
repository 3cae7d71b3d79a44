//! The snake: an ordered chain of cells, head first, with a heading and a
//! pending heading request.
use vstd::prelude::*;

use std::collections::VecDeque;

use crate::direction::{opposite, Direction};
use crate::food::Food;
use crate::grid::{in_interior, on_wall, Cell, HEIGHT, WIDTH};

verus! {

broadcast use vstd::std_specs::vecdeque::group_vec_dequeue_axioms;

/// What a snake is, mathematically.
pub struct SnakeView {
    /// The body, head first.
    pub body: Seq<Cell>,
    /// The heading in effect for the current tick.
    pub heading: Direction,
    /// The heading that takes effect at the next tick.
    pub pending: Direction,
}

/// No cell occurs twice.
pub open spec fn distinct(s: Seq<Cell>) -> bool {
    forall|i: int, j: int| 0 <= i < j < s.len() ==> s[i] != s[j]
}

/// A body of a live snake: not empty, without self-overlap, inside the walls.
pub open spec fn body_ok(s: Seq<Cell>) -> bool {
    &&& s.len() >= 1
    &&& distinct(s)
    &&& forall|i: int| 0 <= i < s.len() ==> in_interior(#[trigger] s[i])
}

pub open spec fn snake_wf(v: SnakeView) -> bool {
    &&& body_ok(v.body)
    &&& v.pending != opposite(v.heading)
}

/// The cell one step from `c` in direction `d`.
pub open spec fn next_cell(c: Cell, d: Direction) -> Cell {
    match d {
        Direction::Up => Cell { x: c.x, y: (c.y - 1) as u16 },
        Direction::Down => Cell { x: c.x, y: (c.y + 1) as u16 },
        Direction::Left => Cell { x: (c.x - 1) as u16, y: c.y },
        Direction::Right => Cell { x: (c.x + 1) as u16, y: c.y },
    }
}

/// A heading request: dropped when it would reverse the heading in effect.
pub open spec fn request(v: SnakeView, h: Direction) -> SnakeView {
    if h == opposite(v.heading) {
        v
    } else {
        SnakeView { pending: h, ..v }
    }
}

/// Requests made one after another, in order.
pub open spec fn request_all(v: SnakeView, hs: Seq<Direction>) -> SnakeView
    decreases hs.len(),
{
    if hs.len() == 0 {
        v
    } else {
        request(request_all(v, hs.drop_last()), hs.last())
    }
}

/// The start of a tick: the pending heading takes effect.
pub open spec fn resolve(v: SnakeView) -> SnakeView {
    SnakeView { heading: v.pending, ..v }
}

/// The body after a step to `head`: the new head in front, the tail kept
/// only when growing.
pub open spec fn stepped(body: Seq<Cell>, head: Cell, grow: bool) -> Seq<Cell> {
    if grow {
        seq![head] + body
    } else {
        seq![head] + body.drop_last()
    }
}

/// Heading requests in any number and order never resolve to the reverse
/// of the heading that was in effect before them.
pub proof fn lemma_heading_never_reversed(v: SnakeView, hs: Seq<Direction>)
    requires
        snake_wf(v),
    ensures
        resolve(request_all(v, hs)).heading != opposite(v.heading),
        snake_wf(request_all(v, hs)),
        request_all(v, hs).heading == v.heading,
        request_all(v, hs).body == v.body,
    decreases hs.len(),
{
    if hs.len() > 0 {
        lemma_heading_never_reversed(v, hs.drop_last());
    }
}

proof fn lemma_prepend_ok(s: Seq<Cell>, c: Cell)
    requires
        distinct(s),
        forall|i: int| 0 <= i < s.len() ==> in_interior(#[trigger] s[i]),
        in_interior(c),
        !s.contains(c),
    ensures
        body_ok(seq![c] + s),
{
    let t = seq![c] + s;
    assert forall|i: int, j: int| 0 <= i < j < t.len() implies t[i] != t[j] by {
        if i == 0 {
            assert(t[j] == s[j - 1]);
        } else {
            assert(t[i] == s[i - 1] && t[j] == s[j - 1]);
        }
    }
    assert forall|i: int| 0 <= i < t.len() implies in_interior(#[trigger] t[i]) by {
        if i > 0 {
            assert(t[i] == s[i - 1]);
        }
    }
}

proof fn lemma_drop_last_ok(s: Seq<Cell>)
    requires
        body_ok(s),
        s.len() >= 2,
    ensures
        body_ok(s.drop_last()),
{
    let t = s.drop_last();
    assert forall|i: int| 0 <= i < t.len() implies in_interior(#[trigger] t[i]) by {
        assert(t[i] == s[i]);
    }
}

/// Every step that lands on a clear interior cell keeps the body valid.
pub proof fn lemma_stepped_ok(body: Seq<Cell>, head: Cell, grow: bool)
    requires
        body_ok(body),
        in_interior(head),
        !body.contains(head),
    ensures
        body_ok(stepped(body, head, grow)),
        stepped(body, head, grow)[0] == head,
        stepped(body, head, grow).len() == if grow { body.len() as int + 1 } else { body.len() as int },
{
    if grow {
        lemma_prepend_ok(body, head);
    } else {
        let d = body.drop_last();
        assert forall|i: int| 0 <= i < d.len() implies in_interior(#[trigger] d[i]) by {
            assert(d[i] == body[i]);
        }
        assert(!d.contains(head)) by {
            if d.contains(head) {
                let k = choose|k: int| 0 <= k < d.len() && d[k] == head;
                assert(body[k] == head);
            }
        }
        lemma_prepend_ok(d, head);
    }
}

pub struct Snake {
    segments: VecDeque<Cell>,
    direction: Direction,
    pending: Direction,
}

impl View for Snake {
    type V = SnakeView;

    closed spec fn view(&self) -> SnakeView {
        SnakeView { body: self.segments@, heading: self.direction, pending: self.pending }
    }
}

impl Snake {
    pub open spec fn wf(&self) -> bool {
        snake_wf(self@)
    }

    /// A snake with the given body, head first, moving in `direction`.
    pub fn new(segments: VecDeque<Cell>, direction: Direction) -> (r: Snake)
        requires
            body_ok(segments@),
        ensures
            r@ == (SnakeView { body: segments@, heading: direction, pending: direction }),
            r.wf(),
    {
        Snake { segments, direction, pending: direction }
    }

    /// The heading in effect.
    pub fn heading(&self) -> (r: Direction)
        ensures
            r == self@.heading,
    {
        self.direction
    }

    /// The heading that the next tick will take.
    pub fn pending_heading(&self) -> (r: Direction)
        ensures
            r == self@.pending,
    {
        self.pending
    }

    /// Asks for a new heading from the next tick on. A request for the
    /// reverse of the heading in effect is dropped; a later request
    /// overrides an earlier one.
    pub fn change_direction(&mut self, direction: Direction)
        requires
            old(self).wf(),
        ensures
            final(self)@ == request(old(self)@, direction),
            final(self).wf(),
    {
        if direction != self.direction.opposite() {
            self.pending = direction;
        }
    }

    /// Starts a tick: the pending heading becomes the heading in effect.
    pub fn resolve_heading(&mut self)
        requires
            old(self).wf(),
        ensures
            final(self)@ == resolve(old(self)@),
            final(self)@.heading != opposite(old(self)@.heading),
            final(self).wf(),
    {
        self.direction = self.pending;
    }

    /// Whether `new_head` is one of the body's cells.
    pub fn check_self_collision(&self, new_head: Cell) -> (r: bool)
        ensures
            r == self@.body.contains(new_head),
    {
        let n = self.segments.len();
        let mut i: usize = 0;
        while i < n
            invariant
                n == self@.body.len(),
                0 <= i <= n,
                forall|k: int| 0 <= k < i ==> self@.body[k] != new_head,
            decreases n - i,
        {
            if self.segments[i] == new_head {
                return true;
            }
            i += 1;
        }
        false
    }

    /// Whether a head at `new_head` would hit the wall.
    pub fn check_wall_collision(&self, new_head: Cell) -> (r: bool)
        ensures
            r == on_wall(new_head),
            r == !in_interior(new_head),
    {
        new_head.x == 0 || new_head.x >= WIDTH - 1 || new_head.y == 0 || new_head.y >= HEIGHT - 1
    }

    /// Whether a head at `new_head` eats the pellet.
    pub fn check_food_collision(&self, new_head: Cell, food: &Food) -> (r: bool)
        ensures
            r == (new_head == food@),
    {
        new_head == food.position()
    }

    pub fn head(&self) -> (r: Cell)
        requires
            self.wf(),
        ensures
            r == self@.body[0],
    {
        self.segments[0]
    }

    /// Prepends a new head cell.
    pub fn set_head(&mut self, new_head: Cell)
        requires
            old(self).wf(),
            in_interior(new_head),
            !old(self)@.body.contains(new_head),
        ensures
            final(self)@ == (SnakeView { body: seq![new_head] + old(self)@.body, ..old(self)@ }),
            final(self).wf(),
    {
        proof {
            lemma_stepped_ok(self@.body, new_head, true);
        }
        self.segments.push_front(new_head);
    }

    /// Drops the tail cell.
    pub fn remove_last_segment(&mut self)
        requires
            old(self).wf(),
            old(self)@.body.len() >= 2,
        ensures
            final(self)@ == (SnakeView { body: old(self)@.body.drop_last(), ..old(self)@ }),
            final(self).wf(),
    {
        proof {
            lemma_drop_last_ok(self@.body);
        }
        self.segments.pop_back();
    }

    /// The cell the head moves to next, one step along the heading in effect.
    pub fn move_in_direction(&self) -> (r: Cell)
        requires
            self.wf(),
        ensures
            r == next_cell(self@.body[0], self@.heading),
    {
        let h = self.head();
        match self.direction {
            Direction::Up => Cell { x: h.x, y: h.y - 1 },
            Direction::Down => Cell { x: h.x, y: h.y + 1 },
            Direction::Left => Cell { x: h.x - 1, y: h.y },
            Direction::Right => Cell { x: h.x + 1, y: h.y },
        }
    }

    /// Number of body cells.
    pub fn len(&self) -> (r: usize)
        ensures
            r == self@.body.len(),
    {
        self.segments.len()
    }

    /// The `i`-th body cell, counted from the head.
    pub fn segment(&self, i: usize) -> (r: Cell)
        requires
            i < self@.body.len(),
        ensures
            r == self@.body[i as int],
    {
        self.segments[i]
    }
}

} // verus!
