//! The rules of a small game of snake, with every rule proved.
//!
//! A snake of square segments moves over a grid one cell at a time. It grows
//! and scores when its head reaches the single item on the field, and it
//! loses a life and its tail when it runs into itself. The library holds the
//! data of the game and all that is decided in a frame; reading the keyboard
//! and the clock and painting the screen are left to the program around it.
//!
//! - [`grid`]: cells, headings and the keys that steer.
//! - [`snake`]: the snake and how it moves, grows and bites itself.
//! - [`world`]: the item and where it may appear.
//! - [`game`]: the fixed-rate step of the simulation and the screens.
//! - [`scene`]: the shapes and texts that are there to paint.

pub mod game;
pub mod grid;
pub mod scene;
pub mod snake;
pub mod world;
