use rusty_snake::cherry::{contains, first_free_cell, Cherry};
use rusty_snake::game::Component;
use rusty_snake::grid::{Block, Color, Point};
use rusty_snake::state::{Outcome, State};

fn cherry() -> Cherry {
    Cherry::new(30, Color::rgb(255, 212, 59))
}

#[test]
fn new_cherry_is_unplaced() {
    let c = cherry();
    assert_eq!(c.pos, Point::new(-1, -1));
    assert_eq!(c.size, 30);
}

#[test]
fn food_cell_takes_remainders() {
    let st = State::new(600, 450);
    assert_eq!(st.food_cell(30, 47, 47), Point::new(7, 2));
    assert_eq!(st.food_cell(30, 19, 14), Point::new(19, 14));
    assert_eq!(st.food_cell(30, u32::MAX, 0), Point::new(15, 0));
}

#[test]
fn place_on_free_cell() {
    let mut c = cherry();
    let mut st = State::new(600, 600);
    assert!(c.place(&mut st, 25, 3));
    assert_eq!(c.pos, Point::new(5, 3));
    assert_eq!(st.cherry_pos, Some(Point::new(5, 3)));
    assert!(!c.place(&mut st, 1, 1));
    assert_eq!(c.pos, Point::new(5, 3));
}

#[test]
fn place_refuses_occupied_cell() {
    let mut c = cherry();
    let mut st = State::new(600, 600);
    st.occupied = vec![Point::new(5, 3)];
    assert!(!c.place(&mut st, 25, 3));
    assert_eq!(st.cherry_pos, None);
    assert_eq!(c.pos, Point::new(-1, -1));
}

#[test]
fn update_places_food_off_the_snake() {
    let mut c = cherry();
    let mut st = State::new(90, 60);
    st.occupied = vec![Point::new(0, 0), Point::new(1, 0), Point::new(2, 0), Point::new(0, 1)];
    assert!(c.update(&mut st));
    let p = st.cherry_pos.expect("food placed");
    assert!(p == Point::new(1, 1) || p == Point::new(2, 1));
    assert_eq!(c.pos, p);
}

#[test]
fn update_leaves_placed_food() {
    let mut c = cherry();
    let mut st = State::new(600, 600);
    st.cherry_pos = Some(Point::new(3, 3));
    assert!(c.update(&mut st));
    assert_eq!(st.cherry_pos, Some(Point::new(3, 3)));
    assert_eq!(c.pos, Point::new(-1, -1));
}

#[test]
fn update_on_full_field_places_nothing() {
    let mut c = cherry();
    let mut st = State::new(60, 30);
    st.occupied = vec![Point::new(0, 0), Point::new(1, 0)];
    assert!(c.update(&mut st));
    assert_eq!(st.cherry_pos, None);
}

#[test]
fn first_free_cell_in_row_order() {
    let occ = vec![Point::new(0, 0), Point::new(1, 0), Point::new(2, 0)];
    assert_eq!(first_free_cell(&occ, 3, 2), Some(Point::new(0, 1)));
    assert_eq!(first_free_cell(&occ, 4, 2), Some(Point::new(3, 0)));
    assert_eq!(first_free_cell(&occ, 3, 1), None);
    assert_eq!(first_free_cell(&vec![], 0, 5), None);
}

#[test]
fn contains_finds_cells() {
    let occ = vec![Point::new(0, 0), Point::new(4, 2)];
    assert!(contains(&occ, Point::new(4, 2)));
    assert!(!contains(&occ, Point::new(2, 4)));
    assert!(!contains(&vec![], Point::new(0, 0)));
}

#[test]
fn cherry_render_scales_cell() {
    let mut c = cherry();
    c.pos = Point::new(3, 7);
    assert_eq!(
        c.render(),
        Block { x: 90, y: 210, width: 30, height: 30, color: Color::rgb(255, 212, 59) }
    );
}

#[test]
fn component_dispatches_update() {
    let mut st = State::new(600, 600);
    let mut food = Component::Cherry(cherry());
    assert_eq!(food.update(&mut st), Outcome::Applied);
    assert!(st.cherry_pos.is_some());
    assert_eq!(food.render().len(), 1);
}
