use rusty_snake::cherry::Cherry;
use rusty_snake::game::{Game, Input};
use rusty_snake::grid::{Block, Color, Direction, Point};
use rusty_snake::snake::{head_collides, Snake};
use rusty_snake::state::{Collision, Outcome, State};

fn pts(cells: &[(i32, i32)]) -> Vec<Point> {
    cells.iter().map(|&(x, y)| Point::new(x, y)).collect()
}

fn snake() -> Snake {
    Snake::new(30, Color::rgb(75, 139, 190))
}

fn state() -> State {
    State::new(600, 600)
}

#[test]
fn new_snake_lies_on_top_row() {
    let s = snake();
    assert_eq!(s.body, pts(&[(4, 0), (3, 0), (2, 0), (1, 0), (0, 0)]));
    assert_eq!(s.moving_direction, Direction::Right);
    assert_eq!(s.size, 30);
}

#[test]
fn one_tick_right_shifts_body() {
    let mut s = snake();
    let mut st = state();
    let r = s.update(&mut st);
    assert_eq!(r, Outcome::Applied);
    assert_eq!(s.body, pts(&[(5, 0), (4, 0), (3, 0), (2, 0), (1, 0)]));
    assert_eq!(st.occupied, s.body);
}

#[test]
fn reversal_is_not_applied() {
    let mut s = snake();
    let mut st = state();
    st.direction = Direction::Left;
    let r = s.update(&mut st);
    assert_eq!(r, Outcome::NotApplied);
    assert_eq!(s.body, pts(&[(4, 0), (3, 0), (2, 0), (1, 0), (0, 0)]));
    assert_eq!(st.direction, Direction::Right);
}

#[test]
fn reversal_restores_last_moving_direction() {
    let mut s = snake();
    let mut st = state();
    st.direction = Direction::Down;
    assert_eq!(s.update(&mut st), Outcome::Applied);
    assert_eq!(s.moving_direction, Direction::Down);
    st.direction = Direction::Up;
    assert_eq!(s.update(&mut st), Outcome::NotApplied);
    assert_eq!(st.direction, Direction::Down);
    assert_eq!(s.body, pts(&[(4, 1), (4, 0), (3, 0), (2, 0), (1, 0)]));
}

#[test]
fn eating_grows_by_one_and_clears_food() {
    let mut s = snake();
    let mut st = state();
    st.cherry_pos = Some(Point::new(5, 0));
    let r = s.update(&mut st);
    assert_eq!(r, Outcome::Applied);
    assert_eq!(s.body.len(), 6);
    assert_eq!(st.cherry_pos, None);
    assert_eq!(s.body, pts(&[(5, 0), (4, 0), (3, 0), (2, 0), (1, 0), (0, 0)]));
}

#[test]
fn new_tail_is_the_vacated_cell() {
    let mut s = snake();
    s.body = pts(&[(3, 3), (3, 4), (3, 5)]);
    s.moving_direction = Direction::Up;
    let mut st = state();
    st.direction = Direction::Up;
    st.cherry_pos = Some(Point::new(3, 2));
    assert_eq!(s.update(&mut st), Outcome::Applied);
    assert_eq!(s.body, pts(&[(3, 2), (3, 3), (3, 4), (3, 5)]));
    assert_eq!(st.cherry_pos, None);
}

#[test]
fn food_elsewhere_stays() {
    let mut s = snake();
    let mut st = state();
    st.cherry_pos = Some(Point::new(9, 9));
    assert_eq!(s.update(&mut st), Outcome::Applied);
    assert_eq!(s.body.len(), 5);
    assert_eq!(st.cherry_pos, Some(Point::new(9, 9)));
}

#[test]
fn body_follows_the_leader_when_turning() {
    let mut s = snake();
    let mut st = state();
    st.direction = Direction::Down;
    assert_eq!(s.update(&mut st), Outcome::Applied);
    assert_eq!(s.body, pts(&[(4, 1), (4, 0), (3, 0), (2, 0), (1, 0)]));
    st.direction = Direction::Left;
    assert_eq!(s.update(&mut st), Outcome::Applied);
    assert_eq!(s.body, pts(&[(3, 1), (4, 1), (4, 0), (3, 0), (2, 0)]));
}

#[test]
fn wall_hit_in_each_direction() {
    let st = state();
    assert_eq!(st.wall_hit(30, -1, 5), Some(Collision::LeftWall));
    assert_eq!(st.wall_hit(30, 20, 5), Some(Collision::RightWall));
    assert_eq!(st.wall_hit(30, 5, -1), Some(Collision::TopWall));
    assert_eq!(st.wall_hit(30, 5, 20), Some(Collision::BottomWall));
    assert_eq!(st.wall_hit(30, 19, 19), None);
    assert_eq!(st.wall_hit(30, 0, 0), None);
}

#[test]
fn wall_edge_for_uneven_window() {
    let st = State::new(610, 590);
    assert_eq!(st.wall_hit(30, 20, 0), Some(Collision::RightWall));
    assert_eq!(st.wall_hit(30, 19, 0), None);
    assert_eq!(st.wall_hit(30, 0, 19), Some(Collision::BottomWall));
    assert_eq!(st.wall_hit(30, 0, 18), None);
}

#[test]
fn moving_off_the_right_edge_ends_the_game() {
    let mut s = snake();
    s.body = pts(&[(19, 3), (18, 3), (17, 3)]);
    let mut st = state();
    assert_eq!(s.update(&mut st), Outcome::GameOver(Collision::RightWall));
    assert_eq!(s.body, pts(&[(19, 3), (18, 3), (17, 3)]));
}

#[test]
fn moving_off_the_left_edge_ends_the_game() {
    let mut s = snake();
    s.body = pts(&[(0, 3), (1, 3), (2, 3)]);
    s.moving_direction = Direction::Left;
    let mut st = state();
    st.direction = Direction::Left;
    assert_eq!(s.update(&mut st), Outcome::GameOver(Collision::LeftWall));
}

#[test]
fn moving_off_the_top_edge_ends_the_game() {
    let mut s = snake();
    let mut st = state();
    st.direction = Direction::Up;
    assert_eq!(s.update(&mut st), Outcome::GameOver(Collision::TopWall));
}

#[test]
fn moving_off_the_bottom_edge_ends_the_game() {
    let mut s = snake();
    s.body = pts(&[(4, 19), (4, 18), (4, 17)]);
    s.moving_direction = Direction::Down;
    let mut st = state();
    st.direction = Direction::Down;
    assert_eq!(s.update(&mut st), Outcome::GameOver(Collision::BottomWall));
}

#[test]
fn self_collision_length_three() {
    assert!(head_collides(&pts(&[(1, 1), (2, 1), (1, 1)])));
    assert!(!head_collides(&pts(&[(1, 1), (2, 1), (3, 1)])));
}

#[test]
fn self_collision_length_ten() {
    let mut body = pts(&[
        (5, 5), (6, 5), (7, 5), (7, 6), (6, 6), (5, 6), (4, 6), (4, 5), (4, 4), (5, 4),
    ]);
    assert!(!head_collides(&body));
    body[9] = Point::new(5, 5);
    assert!(head_collides(&body));
    body[9] = Point::new(5, 3);
    body[4] = Point::new(5, 5);
    assert!(head_collides(&body));
}

#[test]
fn moving_into_own_body_ends_the_game() {
    let mut s = snake();
    s.body = pts(&[(1, 1), (2, 1), (2, 2), (1, 2), (0, 2), (0, 3)]);
    s.moving_direction = Direction::Left;
    let mut st = state();
    st.direction = Direction::Down;
    assert_eq!(s.update(&mut st), Outcome::GameOver(Collision::SelfCollision));
}

#[test]
fn render_of_snake_scales_cells() {
    let s = snake();
    let blocks = s.render();
    assert_eq!(blocks.len(), 5);
    assert_eq!(
        blocks[0],
        Block { x: 120, y: 0, width: 30, height: 30, color: Color::rgb(75, 139, 190) }
    );
    assert_eq!(blocks[4].x, 0);
}

#[test]
fn steering_ignores_reverse_keys() {
    let mut g = Game::new(600, 600, snake(), Cherry::new(30, Color::rgb(255, 212, 59)));
    g.process_input(&vec![Input::Turn(Direction::Left)]);
    assert_eq!(g.state.direction, Direction::Right);
    g.process_input(&vec![Input::Turn(Direction::Up), Input::Turn(Direction::Down)]);
    assert_eq!(g.state.direction, Direction::Up);
    assert!(!g.state.quit);
    g.process_input(&vec![Input::Turn(Direction::Left), Input::Quit]);
    assert_eq!(g.state.direction, Direction::Left);
    assert!(g.state.quit);
}

#[test]
fn game_tick_moves_snake_and_places_food() {
    let mut g = Game::new(600, 600, snake(), Cherry::new(30, Color::rgb(255, 212, 59)));
    assert_eq!(g.draw_color, Color::rgb(211, 211, 211));
    assert_eq!(g.update(), Outcome::Applied);
    assert_eq!(g.snake.body, pts(&[(5, 0), (4, 0), (3, 0), (2, 0), (1, 0)]));
    let food = g.state.cherry_pos.expect("food placed");
    assert!(food.x >= 0 && food.x < 20 && food.y >= 0 && food.y < 20);
    assert!(!g.snake.body.contains(&food));
    assert_eq!(g.cherry.pos, food);
    let blocks = g.render();
    assert_eq!(blocks.len(), 6);
    assert_eq!(blocks[5].x, food.x as i64 * 30);
    assert_eq!(blocks[5].y, food.y as i64 * 30);
}

#[test]
fn game_tick_retries_on_reversal() {
    let mut g = Game::new(600, 600, snake(), Cherry::new(30, Color::rgb(255, 212, 59)));
    g.state.direction = Direction::Left;
    assert_eq!(g.update(), Outcome::NotApplied);
    assert_eq!(g.state.direction, Direction::Right);
    assert_eq!(g.snake.body, pts(&[(4, 0), (3, 0), (2, 0), (1, 0), (0, 0)]));
}
