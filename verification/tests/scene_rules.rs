use snake::game::{Game, GameState};
use snake::grid::Vec2i;
use snake::scene::{counter, push_decimal, Disc, Square, FONT_SIZE, HUD_X, LIVES_Y, SCORE_Y};
use snake::snake::{Segment, Snake};
use snake::world::World;

#[test]
fn decimal_numbers() {
    for (n, text) in [(0u16, "0"), (7, "7"), (9, "9"), (10, "10"), (99, "99"), (100, "100"),
        (1005, "1005"), (40000, "40000"), (65535, "65535")]
    {
        let mut s = String::new();
        push_decimal(&mut s, n);
        assert_eq!(s, text);
    }
}

#[test]
fn decimal_agrees_with_std() {
    for n in 0..=u16::MAX {
        assert_eq!(counter("", n), format!("{}", n));
    }
}

#[test]
fn push_decimal_keeps_what_was_there() {
    let mut s = String::from("n = ");
    push_decimal(&mut s, 250);
    push_decimal(&mut s, 0);
    assert_eq!(s, "n = 2500");
}

#[test]
fn counter_texts() {
    assert_eq!(counter("Lives: ", 3), "Lives: 3");
    assert_eq!(counter("Score: ", 120), "Score: 120");
}

#[test]
fn snake_squares() {
    let s = Snake::new(32);
    assert_eq!(
        s.draw(),
        vec![
            Square { x: 160, y: 224, side: 31, head: true },
            Square { x: 160, y: 192, side: 31, head: false },
            Square { x: 160, y: 160, side: 31, head: false },
        ]
    );
}

#[test]
fn squares_far_from_the_origin() {
    let mut s = Snake::new(u16::MAX);
    s.body = vec![
        Segment { position: Vec2i { x: i32::MIN, y: i32::MAX } },
        Segment { position: Vec2i { x: -1, y: 0 } },
    ];
    assert_eq!(
        s.draw(),
        vec![
            Square { x: -2147483648 * 65535, y: 2147483647 * 65535, side: 65534, head: true },
            Square { x: -65535, y: 0, side: 65534, head: false },
        ]
    );
}

#[test]
fn no_body_no_squares() {
    let mut s = Snake::new(8);
    s.body.clear();
    assert!(s.draw().is_empty());
}

#[test]
fn item_disc() {
    let mut w = World::new(Vec2i { x: 800, y: 600 });
    w.place_apple(Vec2i { x: 3, y: 0 });
    assert_eq!(w.draw(), Disc { x: 112, y: 16, diameter: 32 });
    w.block_size = 33;
    w.place_apple(Vec2i { x: -2, y: 1 });
    assert_eq!(w.draw(), Disc { x: -50, y: 49, diameter: 33 });
}

#[test]
fn scene_of_a_new_game() {
    let mut g = Game::new(Vec2i { x: 800, y: 600 });
    g.world.place_apple(Vec2i { x: 10, y: 2 });
    g.snake.lives = 2;
    g.snake.score = 15;
    let scene = g.draw();
    assert_eq!(scene.item, Disc { x: 336, y: 80, diameter: 32 });
    assert_eq!(scene.snake, g.snake.draw());
    assert_eq!(scene.lives.text, "Lives: 2");
    assert_eq!((scene.lives.x, scene.lives.y, scene.lives.font_size), (30, 30, 30));
    assert_eq!(scene.score.text, "Score: 15");
    assert_eq!((scene.score.x, scene.score.y, scene.score.font_size), (30, 60, 30));
    assert_eq!((HUD_X, LIVES_Y, SCORE_Y, FONT_SIZE), (30, 30, 60, 30));
}

#[test]
fn banners() {
    assert_eq!(
        GameState::Menu.banner(5),
        Some(String::from("Welcome to the Snake game! Press Space to start"))
    );
    assert_eq!(GameState::Dead.banner(0), Some(String::from("You lost the game! Score: 0")));
    assert_eq!(GameState::Dead.banner(321), Some(String::from("You lost the game! Score: 321")));
    assert_eq!(GameState::Game.banner(5), None);
}
