use snake::grid::{Direction, Vec2i};
use snake::snake::{Segment, Snake};
use snake::world::{draw_coordinate, World, BLOCK_SIZE};

fn at(x: i32, y: i32) -> Vec2i {
    Vec2i { x, y }
}

fn body_of(s: &Snake) -> Vec<(i32, i32)> {
    s.body.iter().map(|seg| (seg.position.x, seg.position.y)).collect()
}

#[test]
fn block_size_is_thirty_two() {
    assert_eq!(BLOCK_SIZE, 32);
    let w = World::new(at(800, 600));
    assert_eq!(w.block_size, 32);
    assert_eq!(w.window_size, at(800, 600));
}

#[test]
fn greatest_column_and_row() {
    let w = World::new(at(800, 600));
    assert_eq!(w.max_column(), 23);
    assert_eq!(w.max_row(), 16);
    let w = World::new(at(820, 31));
    assert_eq!(w.max_column(), 23);
    assert_eq!(w.max_row(), -2);
    let w = World::new(at(0, 64));
    assert_eq!(w.max_column(), -2);
    assert_eq!(w.max_row(), 0);
}

#[test]
fn drawn_coordinate_stays_below_the_count() {
    let mut seen = [false; 5];
    for _ in 0..2000 {
        let c = draw_coordinate(5);
        assert!(0 <= c && c < 5);
        seen[c as usize] = true;
    }
    assert!(seen.iter().all(|&s| s));
    for _ in 0..100 {
        assert_eq!(draw_coordinate(1), 0);
        let c = draw_coordinate(i32::MAX);
        assert!(0 <= c && c < i32::MAX);
    }
}

#[test]
fn drawn_coordinate_without_choice_is_zero() {
    assert_eq!(draw_coordinate(0), 0);
    assert_eq!(draw_coordinate(-1), 0);
    assert_eq!(draw_coordinate(i32::MIN), 0);
}

#[test]
fn spawned_item_is_on_the_grid() {
    let mut w = World::new(at(800, 600));
    let mut widest = 0;
    let mut tallest = 0;
    for _ in 0..5000 {
        w.spawn_apple();
        assert!(0 <= w.item.x && w.item.x <= 24);
        assert!(0 <= w.item.y && w.item.y <= 17);
        assert!(w.can_hold(w.item));
        widest = widest.max(w.item.x);
        tallest = tallest.max(w.item.y);
        assert_eq!(w.block_size, 32);
        assert_eq!(w.window_size, at(800, 600));
    }
    assert_eq!(widest, 24);
    assert_eq!(tallest, 17);
}

#[test]
fn spawn_in_a_window_smaller_than_a_cell() {
    let mut w = World::new(at(10, 40));
    for _ in 0..50 {
        w.spawn_apple();
        assert_eq!(w.item, at(0, 0));
    }
}

#[test]
fn can_hold_tells_the_cells_of_the_grid() {
    let w = World::new(at(800, 600));
    assert!(w.can_hold(at(0, 0)));
    assert!(w.can_hold(at(24, 17)));
    assert!(!w.can_hold(at(25, 17)));
    assert!(!w.can_hold(at(24, 18)));
    assert!(!w.can_hold(at(-1, 0)));
    assert!(!w.can_hold(at(0, -1)));
}

#[test]
fn place_apple_sets_the_item() {
    let mut w = World::new(at(320, 320));
    w.place_apple(at(3, 4));
    assert_eq!(w.item, at(3, 4));
    assert_eq!(w.window_size, at(320, 320));
    assert_eq!(w.block_size, 32);
}

#[test]
fn eating_grows_scores_and_respawns() {
    let mut w = World::new(at(800, 600));
    let mut s = Snake::new(32);
    w.place_apple(at(5, 7));
    w.update(&mut s, false);
    assert_eq!(body_of(&s), vec![(5, 7), (5, 6), (5, 5), (5, 4)]);
    assert_eq!(s.score, 1);
    assert_eq!(s.lives, 3);
    assert!(w.can_hold(w.item));
}

#[test]
fn eating_moves_the_item_sooner_or_later() {
    let mut moved = false;
    for _ in 0..50 {
        let mut w = World::new(at(800, 600));
        let mut s = Snake::new(32);
        w.place_apple(at(5, 7));
        w.update(&mut s, false);
        if w.item != at(5, 7) {
            moved = true;
        }
    }
    assert!(moved);
}

#[test]
fn no_meal_changes_nothing() {
    let mut w = World::new(at(800, 600));
    let mut s = Snake::new(32);
    w.place_apple(at(5, 6));
    w.update(&mut s, false);
    assert_eq!(body_of(&s), vec![(5, 7), (5, 6), (5, 5)]);
    assert_eq!(s.score, 0);
    assert_eq!(w.item, at(5, 6));
}

#[test]
fn respawn_redraws_the_item_without_a_meal() {
    let mut w = World::new(at(64, 64));
    let mut s = Snake::new(32);
    w.place_apple(at(40, 40));
    w.update(&mut s, true);
    assert!(w.can_hold(w.item));
    assert!(w.item.x <= 1 && w.item.y <= 1);
    assert_eq!(body_of(&s), vec![(5, 7), (5, 6), (5, 5)]);
    assert_eq!(s.score, 0);
}

#[test]
fn eating_with_a_diagonal_tail_scores_without_growth() {
    let mut w = World::new(at(800, 600));
    let mut s = Snake::new(32);
    s.body = vec![
        Segment { position: at(2, 2) },
        Segment { position: at(3, 3) },
    ];
    s.direction = Direction::Up;
    w.place_apple(at(2, 2));
    w.update(&mut s, false);
    assert_eq!(body_of(&s), vec![(2, 2), (3, 3)]);
    assert_eq!(s.score, 1);
}

#[test]
fn empty_snake_stands_at_one_one() {
    let mut w = World::new(at(800, 600));
    let mut s = Snake::new(32);
    s.body.clear();
    w.place_apple(at(2, 1));
    w.update(&mut s, false);
    assert!(s.body.is_empty());
    assert_eq!(s.score, 0);
    assert_eq!(w.item, at(2, 1));
}

#[test]
fn world_is_well_formed_with_cells_and_a_window() {
    let mut w = World::new(at(800, 600));
    assert!(w.is_well_formed());
    w.block_size = 0;
    assert!(!w.is_well_formed());
    w.block_size = 1;
    assert!(w.is_well_formed());
    w.window_size = at(-1, 600);
    assert!(!w.is_well_formed());
    w.window_size = at(0, -1);
    assert!(!w.is_well_formed());
    w.window_size = at(0, 0);
    assert!(w.is_well_formed());
}
