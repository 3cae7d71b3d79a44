use std::collections::VecDeque;

use snake::direction::Direction;
use snake::food::{draw_offsets, Food, MAX_DRAWS};
use snake::game::Game;
use snake::grid::{Cell, HEIGHT, WIDTH};
use snake::snake::Snake;

fn cells(v: &[(u16, u16)]) -> VecDeque<Cell> {
    v.iter().map(|&(x, y)| Cell::new(x, y)).collect()
}

fn body(s: &Snake) -> Vec<(u16, u16)> {
    (0..s.len()).map(|i| {
        let c = s.segment(i);
        (c.x, c.y)
    }).collect()
}

fn game(v: &[(u16, u16)], d: Direction, food: (u16, u16), clear: bool) -> Game {
    Game::from_parts(Snake::new(cells(v), d), Food::at(Cell::new(food.0, food.1)), clear)
}

fn inside(c: Cell) -> bool {
    c.x >= 1 && c.x <= WIDTH - 2 && c.y >= 1 && c.y <= HEIGHT - 2
}

#[test]
fn boundary_right_wall() {
    let mut g = game(&[(37, 10)], Direction::Right, (20, 10), false);
    assert!(g.update_snake());
    assert_eq!(body(g.snake()), vec![(38, 10)]);
    assert_eq!(g.snake().head(), Cell::new(WIDTH - 2, 10));
    assert_eq!(g.snake().move_in_direction(), Cell::new(39, 10));
    assert!(g.snake().check_wall_collision(Cell::new(39, 10)));
    assert!(!g.update_snake());
    assert_eq!(body(g.snake()), vec![(38, 10)]);
    assert_eq!(g.food().position(), Cell::new(20, 10));
}

#[test]
fn boundary_each_wall() {
    let mut up = game(&[(5, 1)], Direction::Up, (20, 10), false);
    assert!(!up.update_snake());
    let mut left = game(&[(1, 5)], Direction::Left, (20, 10), false);
    assert!(!left.update_snake());
    let mut down = game(&[(5, 18)], Direction::Down, (20, 10), false);
    assert!(!down.update_snake());
    assert_eq!(body(down.snake()), vec![(5, 18)]);
}

#[test]
fn self_collision_closed_loop() {
    let loop_body = [(5, 5), (5, 6), (5, 7), (6, 7), (6, 6), (6, 5)];
    let s = Snake::new(cells(&loop_body), Direction::Right);
    assert!(s.check_self_collision(Cell::new(6, 6)));
    assert!(!s.check_self_collision(Cell::new(7, 7)));
    let mut g = game(&loop_body, Direction::Right, (20, 10), false);
    assert_eq!(g.snake().move_in_direction(), Cell::new(6, 5));
    assert!(!g.update_snake());
    assert_eq!(body(g.snake()), loop_body.to_vec());
}

#[test]
fn respawn_after_capture_moves_pellet() {
    let mut g = game(&[(19, 10)], Direction::Right, (20, 10), true);
    assert!(g.update_snake());
    assert_eq!(body(g.snake()), vec![(20, 10), (19, 10)]);
    let p = g.food().position();
    assert_ne!(p, Cell::new(20, 10));
    assert!(inside(p));
}

#[test]
fn respawn_with_draws_is_exact() {
    let mut plain = game(&[(19, 10)], Direction::Right, (20, 10), false);
    assert!(plain.update_snake_with(&vec![(19, 9)]));
    assert_eq!(plain.food().position(), Cell::new(20, 10));

    let mut clear = game(&[(19, 10)], Direction::Right, (20, 10), true);
    assert!(clear.update_snake_with(&vec![(19, 9)]));
    assert_eq!(clear.food().position(), Cell::new(1, 1));

    let mut redraw = game(&[(19, 10)], Direction::Right, (20, 10), true);
    assert!(redraw.update_snake_with(&vec![(19, 9), (19, 9), (4, 6), (7, 7)]));
    assert_eq!(redraw.food().position(), Cell::new(5, 7));

    let mut free = game(&[(19, 10)], Direction::Right, (20, 10), true);
    assert!(free.update_snake_with(&vec![(4, 6)]));
    assert_eq!(free.food().position(), Cell::new(5, 7));
}

#[test]
fn no_respawn_without_capture() {
    let mut g = game(&[(10, 10)], Direction::Right, (30, 5), false);
    assert!(g.update_snake_with(&vec![(4, 6)]));
    assert_eq!(g.food().position(), Cell::new(30, 5));
}

#[test]
fn clear_respawn_skips_body_cells() {
    let mut g = game(&[(2, 1), (1, 1)], Direction::Right, (3, 1), true);
    assert!(g.update_snake_with(&vec![(0, 0), (1, 0)]));
    assert_eq!(body(g.snake()), vec![(3, 1), (2, 1), (1, 1)]);
    assert_eq!(g.food().position(), Cell::new(4, 1));
}

#[test]
fn food_respawn_at_offsets() {
    let mut f = Food::new();
    assert_eq!(f.position(), Cell::new(20, 10));
    f.respawn_at_offset(0, 0);
    assert_eq!(f.position(), Cell::new(1, 1));
    f.respawn_at_offset(23, 15);
    assert_eq!(f.position(), Cell::new(24, 16));
    f.respawn_at_offset(37, 17);
    assert_eq!(f.position(), Cell::new(38, 18));
}

#[test]
fn drawn_offsets_in_range() {
    let s = Snake::new(cells(&[(1, 1), (2, 1)]), Direction::Left);
    for _ in 0..200 {
        let one = draw_offsets(&s, false);
        assert_eq!(one.len(), 1);
        assert!(one[0].0 < WIDTH - 2 && one[0].1 < HEIGHT - 2);
        let many = draw_offsets(&s, true);
        assert!(!many.is_empty() && many.len() <= MAX_DRAWS);
        for &(dx, dy) in &many {
            assert!(dx < WIDTH - 2 && dy < HEIGHT - 2);
        }
        let on_body = |d: (u16, u16)| s.check_self_collision(Cell::new(1 + d.0, 1 + d.1));
        for &d in &many[..many.len() - 1] {
            assert!(on_body(d));
        }
        if many.len() < MAX_DRAWS {
            assert!(!on_body(many[many.len() - 1]));
        }
    }
}

#[test]
fn random_offsets_reach_both_ends() {
    let mut f = Food::new();
    let mut xs = [false; 40];
    let mut ys = [false; 20];
    for _ in 0..20000 {
        f.respawn();
        let p = f.position();
        xs[p.x as usize] = true;
        ys[p.y as usize] = true;
    }
    assert!(xs[1] && xs[38] && !xs[0] && !xs[39]);
    assert!(ys[1] && ys[18] && !ys[0] && !ys[19]);
}

#[test]
fn food_respawn_random_inside() {
    let mut f = Food::new();
    for _ in 0..200 {
        f.respawn();
        assert!(inside(f.position()));
    }
}

#[test]
fn growth_law_lengths() {
    let mut g = game(&[(10, 10), (9, 10)], Direction::Right, (11, 10), false);
    assert!(g.update_snake());
    assert_eq!(body(g.snake()), vec![(11, 10), (10, 10), (9, 10)]);
    assert!(inside(g.food().position()));
}

#[test]
fn normal_step_keeps_length() {
    let mut g = game(&[(10, 10), (9, 10), (8, 10)], Direction::Right, (30, 5), false);
    assert!(g.update_snake());
    assert_eq!(body(g.snake()), vec![(11, 10), (10, 10), (9, 10)]);
    assert_eq!(g.food().position(), Cell::new(30, 5));
}

#[test]
fn survivor_head_is_new_interior_cell() {
    let mut g = game(&[(10, 10), (10, 11), (11, 11)], Direction::Up, (30, 5), false);
    let before = body(g.snake());
    assert!(g.update_snake());
    let h = g.snake().head();
    assert!(inside(h));
    assert!(!before.contains(&(h.x, h.y)));
}

#[test]
fn reversal_rejected() {
    let mut s = Snake::new(cells(&[(10, 10)]), Direction::Right);
    s.change_direction(Direction::Left);
    s.resolve_heading();
    assert_eq!(s.heading(), Direction::Right);
    s.change_direction(Direction::Up);
    s.resolve_heading();
    assert_eq!(s.heading(), Direction::Up);
}

#[test]
fn requests_within_tick_never_reverse() {
    let mut s = Snake::new(cells(&[(10, 10)]), Direction::Right);
    s.change_direction(Direction::Up);
    s.change_direction(Direction::Left);
    assert_eq!(s.pending_heading(), Direction::Up);
    s.resolve_heading();
    assert_eq!(s.heading(), Direction::Up);
    s.change_direction(Direction::Down);
    s.change_direction(Direction::Right);
    s.resolve_heading();
    assert_eq!(s.heading(), Direction::Right);
}

#[test]
fn queries_do_not_mutate() {
    let s = Snake::new(cells(&[(4, 4), (4, 5)]), Direction::Up);
    assert!(s.check_self_collision(Cell::new(4, 5)));
    assert!(s.check_self_collision(Cell::new(4, 5)));
    assert_eq!(body(&s), vec![(4, 4), (4, 5)]);
    let f = Food::new();
    assert_eq!(f.position(), f.position());
}

#[test]
fn new_game_start_state() {
    let mut g = Game::new();
    assert_eq!(body(g.snake()), vec![(2, 2)]);
    assert_eq!(g.snake().heading(), Direction::Right);
    assert_eq!(g.food().position(), Cell::new(20, 10));
    assert!(g.update_snake());
    assert_eq!(body(g.snake()), vec![(3, 2)]);
}

#[test]
fn opposite_pairs() {
    assert_eq!(Direction::Up.opposite(), Direction::Down);
    assert_eq!(Direction::Down.opposite(), Direction::Up);
    assert_eq!(Direction::Left.opposite(), Direction::Right);
    assert_eq!(Direction::Right.opposite(), Direction::Left);
}

#[test]
fn set_head_and_remove_tail() {
    let mut s = Snake::new(cells(&[(4, 4)]), Direction::Up);
    s.set_head(Cell::new(4, 3));
    assert_eq!(body(&s), vec![(4, 3), (4, 4)]);
    s.remove_last_segment();
    assert_eq!(body(&s), vec![(4, 3)]);
    let f = Food::at(Cell::new(4, 2));
    assert!(s.check_food_collision(Cell::new(4, 2), &f));
    assert!(!s.check_food_collision(Cell::new(4, 1), &f));
}
