use std::collections::VecDeque;

use snake_game::game::{
    body_contains, first_free_cell, pick_apple, segment_behind, Game, GameState, GRID_SIZE,
};
use snake_game::point::Point;
use snake_game::snake::{Snake, SnakeDirection};

fn body_of(cells: &[(usize, usize)]) -> VecDeque<Point> {
    cells.iter().map(|&(x, y)| Point::new(x, y)).collect()
}

fn game_of(cells: &[(usize, usize)], direction: SnakeDirection, apple: (usize, usize)) -> Game {
    Game {
        score: 0,
        state: GameState::Started,
        snake: Snake { body: body_of(cells), direction },
        apple: Point::new(apple.0, apple.1),
    }
}

fn cells_of(game: &Game) -> Vec<(usize, usize)> {
    game.snake.body.iter().map(|p| (p.x, p.y)).collect()
}

fn all_cells_but(free: &[(usize, usize)]) -> VecDeque<Point> {
    let mut body = VecDeque::new();
    for y in 0..GRID_SIZE {
        for x in 0..GRID_SIZE {
            if !free.contains(&(x, y)) {
                body.push_back(Point::new(x, y));
            }
        }
    }
    body
}

#[test]
fn new_game_state() {
    let g = Game::new();
    assert_eq!(g.score, 0);
    assert_eq!(g.state, GameState::Started);
    assert!(!g.is_over());
    assert_eq!(g.apple, Point::new(7, 8));
    assert_eq!(cells_of(&g), vec![(0, 8), (1, 8)]);
    assert_eq!(g.snake.direction, SnakeDirection::Right);
}

#[test]
fn tick_moves_snake_without_eating() {
    let mut g = Game::new();
    g.tick(None);
    assert_eq!(cells_of(&g), vec![(1, 8), (2, 8)]);
    assert_eq!(g.state, GameState::Started);
    assert_eq!(g.score, 0);
    assert_eq!(g.apple, Point::new(7, 8));
}

#[test]
fn tick_applies_turn_and_ignores_reversal() {
    let mut g = Game::new();
    g.tick(Some(SnakeDirection::Left));
    assert_eq!(g.snake.direction, SnakeDirection::Right);
    assert_eq!(cells_of(&g), vec![(1, 8), (2, 8)]);
    g.tick(Some(SnakeDirection::Up));
    assert_eq!(g.snake.direction, SnakeDirection::Up);
    assert_eq!(cells_of(&g), vec![(2, 8), (2, 7)]);
}

#[test]
fn tick_left_at_column_zero_ends_game() {
    let mut g = game_of(&[(1, 5), (0, 5)], SnakeDirection::Left, (9, 9));
    g.tick(None);
    assert_eq!(g.state, GameState::Over);
    assert!(g.is_over());
    assert_eq!(cells_of(&g), vec![(1, 5), (0, 5)]);
}

#[test]
fn tick_up_at_row_zero_ends_game() {
    let mut g = game_of(&[(3, 1), (3, 0)], SnakeDirection::Left, (9, 9));
    g.tick(Some(SnakeDirection::Up));
    assert_eq!(g.state, GameState::Over);
}

#[test]
fn tick_into_right_wall_ends_game() {
    let mut g = game_of(&[(14, 6), (15, 6)], SnakeDirection::Right, (9, 9));
    g.tick(None);
    assert_eq!(cells_of(&g), vec![(15, 6), (16, 6)]);
    assert_eq!(g.state, GameState::Over);
}

#[test]
fn tick_into_bottom_wall_ends_game() {
    let mut g = game_of(&[(4, 14), (4, 15)], SnakeDirection::Down, (9, 9));
    g.tick(None);
    assert_eq!(cells_of(&g), vec![(4, 15), (4, 16)]);
    assert_eq!(g.state, GameState::Over);
}

#[test]
fn tick_next_to_wall_keeps_playing() {
    let mut g = game_of(&[(13, 6), (14, 6)], SnakeDirection::Right, (9, 9));
    g.tick(None);
    assert_eq!(g.state, GameState::Started);
    assert_eq!(cells_of(&g), vec![(14, 6), (15, 6)]);
}

#[test]
fn tick_into_own_body_ends_game() {
    let mut g = game_of(&[(0, 1), (1, 1), (2, 1), (2, 2), (1, 2)], SnakeDirection::Up, (9, 9));
    g.tick(None);
    assert!(g.snake.ate_itself());
    assert_eq!(g.state, GameState::Over);
}

#[test]
fn tick_onto_apple_scores_and_grows() {
    let mut g = game_of(&[(0, 8), (1, 8)], SnakeDirection::Right, (2, 8));
    g.tick(None);
    assert_eq!(g.score, 1);
    assert_eq!(g.state, GameState::Started);
    assert_eq!(cells_of(&g), vec![(0, 8), (1, 8), (2, 8)]);
    assert!(g.apple.x < GRID_SIZE && g.apple.y < GRID_SIZE);
    assert!(!cells_of(&g)[1..].contains(&(g.apple.x, g.apple.y)));
}

#[test]
fn growth_goes_opposite_to_travel() {
    let mut g = game_of(&[(5, 9), (5, 8)], SnakeDirection::Up, (5, 7));
    g.tick(None);
    assert_eq!(cells_of(&g), vec![(5, 9), (5, 8), (5, 7)]);
    let mut g = game_of(&[(5, 3), (5, 4)], SnakeDirection::Down, (5, 5));
    g.tick(None);
    assert_eq!(cells_of(&g), vec![(5, 3), (5, 4), (5, 5)]);
    let mut g = game_of(&[(6, 3), (5, 3)], SnakeDirection::Left, (4, 3));
    g.tick(None);
    assert_eq!(cells_of(&g), vec![(6, 3), (5, 3), (4, 3)]);
    assert_eq!(g.score, 1);
}

#[test]
fn growth_from_tail_at_edge_stacks_on_tail() {
    let mut g = game_of(&[(0, 2), (0, 3), (1, 3)], SnakeDirection::Right, (2, 3));
    g.tick(None);
    assert_eq!(cells_of(&g), vec![(0, 3), (0, 3), (1, 3), (2, 3)]);
    assert_eq!(g.state, GameState::Started);
}

#[test]
fn eating_on_a_full_board_ends_game() {
    let mut body = all_cells_but(&[(15, 15)]);
    body.push_front(Point::new(0, 0));
    let mut g = Game {
        score: 0,
        state: GameState::Started,
        snake: Snake { body, direction: SnakeDirection::Right },
        apple: Point::new(15, 15),
    };
    g.tick(None);
    assert_eq!(g.score, 1);
    assert_eq!(g.state, GameState::Over);
    assert_eq!(g.apple, Point::new(15, 15));
}

#[test]
fn tick_after_game_over_changes_nothing() {
    let mut g = Game::new();
    g.state = GameState::Over;
    g.tick(Some(SnakeDirection::Down));
    assert_eq!(g.state, GameState::Over);
    assert_eq!(g.snake.direction, SnakeDirection::Right);
    assert_eq!(cells_of(&g), vec![(0, 8), (1, 8)]);
}

#[test]
fn segment_behind_each_direction() {
    let t = Point::new(4, 4);
    assert_eq!(segment_behind(t, SnakeDirection::Up), Point::new(4, 5));
    assert_eq!(segment_behind(t, SnakeDirection::Down), Point::new(4, 3));
    assert_eq!(segment_behind(t, SnakeDirection::Left), Point::new(5, 4));
    assert_eq!(segment_behind(t, SnakeDirection::Right), Point::new(3, 4));
    assert_eq!(segment_behind(Point::new(0, 2), SnakeDirection::Right), Point::new(0, 2));
    assert_eq!(segment_behind(Point::new(2, 0), SnakeDirection::Down), Point::new(2, 0));
    assert_eq!(
        segment_behind(Point::new(usize::MAX, 1), SnakeDirection::Left),
        Point::new(usize::MAX, 1)
    );
}

#[test]
fn body_contains_finds_segments() {
    let body = body_of(&[(1, 2), (3, 4)]);
    assert!(body_contains(&body, Point::new(3, 4)));
    assert!(!body_contains(&body, Point::new(4, 3)));
    assert!(!body_contains(&VecDeque::new(), Point::new(0, 0)));
}

#[test]
fn pick_apple_takes_first_free_candidate() {
    let body = body_of(&[(1, 1), (2, 1)]);
    let candidates = vec![Point::new(1, 1), Point::new(16, 3), Point::new(5, 6), Point::new(7, 7)];
    assert_eq!(pick_apple(&body, &candidates), Some(Point::new(5, 6)));
}

#[test]
fn pick_apple_scans_when_no_candidate_is_free() {
    let body = body_of(&[(0, 0), (1, 0)]);
    let candidates = vec![Point::new(0, 0), Point::new(3, 16)];
    assert_eq!(pick_apple(&body, &candidates), Some(Point::new(2, 0)));
    assert_eq!(pick_apple(&body, &Vec::new()), Some(Point::new(2, 0)));
}

#[test]
fn first_free_cell_in_row_order() {
    assert_eq!(first_free_cell(&VecDeque::new()), Some(Point::new(0, 0)));
    assert_eq!(first_free_cell(&all_cells_but(&[(3, 9), (2, 10)])), Some(Point::new(3, 9)));
    assert_eq!(first_free_cell(&all_cells_but(&[])), None);
    assert_eq!(pick_apple(&all_cells_but(&[]), &vec![Point::new(1, 1)]), None);
}

#[test]
fn new_apple_is_never_on_the_snake() {
    let g = game_of(&[(0, 8), (1, 8), (2, 8), (3, 8), (3, 9)], SnakeDirection::Down, (9, 9));
    for _ in 0..200 {
        let a = g.get_new_apple_coordinates().unwrap();
        assert!(a.x < GRID_SIZE && a.y < GRID_SIZE);
        assert!(!g.snake.body.contains(&a));
    }
}

#[test]
fn new_apple_on_nearly_full_board_takes_last_free_cell() {
    let g = Game {
        score: 0,
        state: GameState::Started,
        snake: Snake { body: all_cells_but(&[(6, 11)]), direction: SnakeDirection::Up },
        apple: Point::new(0, 0),
    };
    assert_eq!(g.get_new_apple_coordinates(), Some(Point::new(6, 11)));
}

#[test]
fn new_apples_are_drawn_at_random() {
    let g = Game::new();
    let mut seen: Vec<Point> = Vec::new();
    for _ in 0..50 {
        let a = g.get_new_apple_coordinates().unwrap();
        if !seen.contains(&a) {
            seen.push(a);
        }
    }
    assert!(seen.len() > 1);
}
