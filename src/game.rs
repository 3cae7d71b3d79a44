//! The engine: per-tick resolution of walls, self-collision and food.
use vstd::prelude::*;

use std::collections::VecDeque;

use crate::direction::Direction;
use crate::food::{
    clear_placement, draw_offsets, drawn_cell, has_free_cell, lemma_clear_placement,
    lemma_drawn_cell_inside, offset_ok, offsets_ok, possible_draws, Food,
};
use crate::grid::{in_interior, Cell, HEIGHT, WIDTH};
use crate::input::{key_heading, map_key_to_heading, Key};
use crate::snake::{
    body_ok, lemma_stepped_ok, next_cell, request, resolve, snake_wf, stepped, Snake, SnakeView,
};

verus! {

/// What a game is, mathematically.
pub struct GameView {
    pub snake: SnakeView,
    pub food: Cell,
    /// Whether a respawned pellet is kept off the body.
    pub clear_respawn: bool,
}

pub open spec fn game_wf(g: GameView) -> bool {
    snake_wf(g.snake) && in_interior(g.food)
}

/// The cell the head moves to on the next tick.
pub open spec fn target(g: GameView) -> Cell {
    next_cell(g.snake.body[0], g.snake.pending)
}

/// The next tick neither hits the wall nor the body.
pub open spec fn survives(g: GameView) -> bool {
    in_interior(target(g)) && !g.snake.body.contains(target(g))
}

/// The next tick lands on the pellet.
pub open spec fn eats(g: GameView) -> bool {
    target(g) == g.food
}

/// Where a respawned pellet goes for the list of drawn offsets.
pub open spec fn placed_food(clear: bool, draws: Seq<(u16, u16)>, body: Seq<Cell>) -> Cell {
    if clear {
        clear_placement(draws, body)
    } else {
        drawn_cell(draws[0])
    }
}

/// One tick with the drawn offsets `draws` for a possible respawn: whether the
/// snake is still alive, and the game after the tick. A fatal tick leaves
/// body and pellet as they were.
pub open spec fn tick(g: GameView, draws: Seq<(u16, u16)>) -> (bool, GameView) {
    let s = resolve(g.snake);
    if !survives(g) {
        (false, GameView { snake: s, ..g })
    } else {
        let body = stepped(g.snake.body, target(g), eats(g));
        let food = if eats(g) {
            placed_food(g.clear_respawn, draws, body)
        } else {
            g.food
        };
        (true, GameView { snake: SnakeView { body, ..s }, food, ..g })
    }
}

/// Every tick keeps the game valid.
pub proof fn lemma_tick_wf(g: GameView, draws: Seq<(u16, u16)>)
    requires
        game_wf(g),
        offsets_ok(draws),
    ensures
        game_wf(tick(g, draws).1),
{
    if survives(g) {
        let body = stepped(g.snake.body, target(g), eats(g));
        lemma_stepped_ok(g.snake.body, target(g), eats(g));
        lemma_drawn_cell_inside(draws[0]);
        lemma_clear_placement(draws, body);
    }
}

/// A tick that the snake survives puts the head on an interior cell that
/// was not part of the body before.
pub proof fn lemma_survivor_head_inside(g: GameView, draws: Seq<(u16, u16)>)
    requires
        game_wf(g),
        offsets_ok(draws),
        tick(g, draws).0,
    ensures
        in_interior(tick(g, draws).1.snake.body[0]),
        !g.snake.body.contains(tick(g, draws).1.snake.body[0]),
{
    lemma_stepped_ok(g.snake.body, target(g), eats(g));
}

/// A surviving tick grows the body by one exactly when the head lands on the
/// pellet, and then, and only then, the pellet is respawned once.
pub proof fn lemma_growth_law(g: GameView, draws: Seq<(u16, u16)>)
    requires
        game_wf(g),
        offsets_ok(draws),
        tick(g, draws).0,
    ensures
        tick(g, draws).1.snake.body.len() == g.snake.body.len() + 1 <==> target(g) == g.food,
        target(g) == g.food ==> tick(g, draws).1.food == placed_food(
            g.clear_respawn,
            draws,
            tick(g, draws).1.snake.body,
        ),
        target(g) == g.food && !g.clear_respawn ==> tick(g, draws).1.food == drawn_cell(draws[0]),
        target(g) != g.food ==> tick(g, draws).1.food == g.food,
{
    lemma_stepped_ok(g.snake.body, target(g), eats(g));
}

/// A surviving tick that misses the pellet keeps the body length: one cell
/// in front, one off the tail.
pub proof fn lemma_normal_step_length(g: GameView, draws: Seq<(u16, u16)>)
    requires
        game_wf(g),
        offsets_ok(draws),
        tick(g, draws).0,
        target(g) != g.food,
    ensures
        tick(g, draws).1.snake.body.len() == g.snake.body.len(),
        tick(g, draws).1.snake.body == seq![target(g)] + g.snake.body.drop_last(),
{
    lemma_stepped_ok(g.snake.body, target(g), eats(g));
}

/// With respawns kept off the body, a pellet never lands under the snake
/// while the board has room.
pub proof fn lemma_clear_respawn_off_body(g: GameView, draws: Seq<(u16, u16)>)
    requires
        game_wf(g),
        offsets_ok(draws),
        g.clear_respawn,
        tick(g, draws).0,
        has_free_cell(tick(g, draws).1.snake.body),
        eats(g),
    ensures
        !tick(g, draws).1.snake.body.contains(tick(g, draws).1.food),
{
    lemma_clear_placement(draws, tick(g, draws).1.snake.body);
}

/// What a tick that draws its own offsets can end in: the tick for some
/// list of offsets that a respawn can draw, when the tick respawns at all.
pub open spec fn tick_outcome(g: GameView, alive: bool, h: GameView) -> bool {
    exists|draws: Seq<(u16, u16)>|
        {
            &&& offsets_ok(draws)
            &&& (alive, h) == tick(g, draws)
            &&& alive && eats(g) ==> possible_draws(draws, h.snake.body, g.clear_respawn)
        }
}

/// The growth law for a tick with its own draws: the body grows by one
/// exactly when the head lands on the pellet; only then is the pellet
/// respawned, with respawns unchecked against the body at the cell of a
/// single drawn pair of offsets; otherwise the pellet stays.
pub proof fn lemma_outcome_growth_law(g: GameView, alive: bool, h: GameView)
    requires
        game_wf(g),
        tick_outcome(g, alive, h),
        alive,
    ensures
        h.snake.body.len() == g.snake.body.len() + 1 <==> target(g) == g.food,
        target(g) == g.food && !g.clear_respawn ==> exists|d: (u16, u16)|
            offset_ok(d) && h.food == drawn_cell(d),
        target(g) != g.food ==> h.food == g.food && h.snake.body.len() == g.snake.body.len(),
{
    let draws = choose|draws: Seq<(u16, u16)>|
        {
            &&& offsets_ok(draws)
            &&& (alive, h) == tick(g, draws)
            &&& alive && eats(g) ==> possible_draws(draws, h.snake.body, g.clear_respawn)
        };
    lemma_growth_law(g, draws);
    lemma_stepped_ok(g.snake.body, target(g), eats(g));
    if target(g) == g.food && !g.clear_respawn {
        assert(offset_ok(draws[0]));
    }
}

/// The ways a tick can end for the body.
enum Moved {
    Dead,
    Stepped,
    Ate,
}

pub struct Game {
    snake: Snake,
    food: Food,
    clear_respawn: bool,
}

impl View for Game {
    type V = GameView;

    closed spec fn view(&self) -> GameView {
        GameView { snake: self.snake@, food: self.food@, clear_respawn: self.clear_respawn }
    }
}

impl Game {
    pub open spec fn wf(&self) -> bool {
        game_wf(self@)
    }

    /// A new game: a one-cell snake at (2, 2) heading right, the pellet at
    /// (20, 10), respawns unchecked against the body.
    pub fn new() -> (r: Game)
        ensures
            r@ == (GameView {
                snake: SnakeView {
                    body: seq![Cell { x: 2, y: 2 }],
                    heading: Direction::Right,
                    pending: Direction::Right,
                },
                food: Cell { x: 20, y: 10 },
                clear_respawn: false,
            }),
            r.wf(),
    {
        let mut segments: VecDeque<Cell> = VecDeque::new();
        segments.push_back(Cell { x: 2, y: 2 });
        assert(segments@ == seq![Cell { x: 2, y: 2 }]);
        let snake = Snake::new(segments, Direction::Right);
        let food = Food::new();
        Game { snake, food, clear_respawn: false }
    }

    /// A game from a given snake and pellet; `clear_respawn` keeps respawned
    /// pellets off the body.
    pub fn from_parts(snake: Snake, food: Food, clear_respawn: bool) -> (r: Game)
        requires
            snake.wf(),
            food.wf(),
        ensures
            r@ == (GameView { snake: snake@, food: food@, clear_respawn }),
            r.wf(),
    {
        Game { snake, food, clear_respawn }
    }

    pub fn snake(&self) -> (r: &Snake)
        ensures
            r@ == self@.snake,
    {
        &self.snake
    }

    pub fn food(&self) -> (r: &Food)
        ensures
            r@ == self@.food,
    {
        &self.food
    }

    /// Passes an arrow key on as a heading request; other keys change nothing.
    pub fn handle_key_event(&mut self, key: Key)
        requires
            old(self).wf(),
        ensures
            final(self)@ == (match key_heading(key) {
                Some(h) => GameView { snake: request(old(self)@.snake, h), ..old(self)@ },
                None => old(self)@,
            }),
            final(self).wf(),
    {
        match map_key_to_heading(key) {
            Some(h) => self.snake.change_direction(h),
            None => {},
        }
    }

    /// Moves the body for one tick and leaves the pellet alone.
    fn move_body(&mut self) -> (m: Moved)
        requires
            old(self).wf(),
        ensures
            final(self)@.food == old(self)@.food,
            final(self)@.clear_respawn == old(self)@.clear_respawn,
            m is Dead <==> !survives(old(self)@),
            m is Ate <==> survives(old(self)@) && eats(old(self)@),
            m is Dead ==> final(self)@ == tick(old(self)@, seq![(0u16, 0u16)]).1,
            !(m is Dead) ==> final(self)@.snake == tick(old(self)@, seq![(0u16, 0u16)]).1.snake,
            !(m is Dead) ==> body_ok(final(self)@.snake.body),
            snake_wf(final(self)@.snake),
    {
        let ghost g = self@;
        proof {
            lemma_tick_wf(self@, seq![(0u16, 0u16)]);
        }
        self.snake.resolve_heading();
        let new_head = self.snake.move_in_direction();
        if self.snake.check_wall_collision(new_head) || self.snake.check_self_collision(new_head) {
            return Moved::Dead;
        }
        self.snake.set_head(new_head);
        if self.snake.check_food_collision(new_head, &self.food) {
            Moved::Ate
        } else {
            self.snake.remove_last_segment();
            assert(self@.snake.body =~= stepped(g.snake.body, new_head, false));
            Moved::Stepped
        }
    }

    fn place_food(&mut self, draws: &Vec<(u16, u16)>)
        requires
            snake_wf(old(self)@.snake),
            offsets_ok(draws@),
        ensures
            final(self)@ == (GameView {
                food: placed_food(old(self)@.clear_respawn, draws@, old(self)@.snake.body),
                ..old(self)@
            }),
            final(self).wf(),
    {
        if self.clear_respawn {
            self.food.respawn_clear_of(draws, &self.snake);
        } else {
            let d = draws[0];
            assert(draws@[0].0 < WIDTH - 2 && draws@[0].1 < HEIGHT - 2);
            self.food.respawn_at_offset(d.0, d.1);
        }
    }

    /// One tick, with `draws` as the random offsets for a respawn.
    pub fn update_snake_with(&mut self, draws: &Vec<(u16, u16)>) -> (r: bool)
        requires
            old(self).wf(),
            offsets_ok(draws@),
        ensures
            (r, final(self)@) == tick(old(self)@, draws@),
            final(self).wf(),
    {
        match self.move_body() {
            Moved::Dead => false,
            Moved::Stepped => true,
            Moved::Ate => {
                self.place_food(draws);
                true
            },
        }
    }

    /// One tick: the pending heading takes effect, the head moves, and the
    /// snake dies on a wall or on itself, or grows when it eats, in which case
    /// the pellet is respawned at random.
    pub fn update_snake(&mut self) -> (r: bool)
        requires
            old(self).wf(),
        ensures
            tick_outcome(old(self)@, r, final(self)@),
            final(self).wf(),
    {
        let ghost g = self@;
        match self.move_body() {
            Moved::Dead => {
                assert(offsets_ok(seq![(0u16, 0u16)]));
                assert((false, self@) == tick(g, seq![(0u16, 0u16)]));
                false
            },
            Moved::Stepped => {
                assert(offsets_ok(seq![(0u16, 0u16)]));
                assert((true, self@) == tick(g, seq![(0u16, 0u16)]));
                true
            },
            Moved::Ate => {
                let draws = draw_offsets(&self.snake, self.clear_respawn);
                self.place_food(&draws);
                assert((true, self@) == tick(g, draws@));
                assert(possible_draws(draws@, self@.snake.body, g.clear_respawn));
                true
            },
        }
    }
}

} // verus!
