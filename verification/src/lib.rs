//! A nonogram puzzle: the board, its rules, and the screens of the game.
//!
//! The player uncovers a hidden picture on a square grid.  Each row and each
//! column comes with a clue, the lengths of its runs of filled cells, and the
//! player marks cells as filled or empty until a check finds every cell right.
//!
//! The library holds everything that is decided: how a board is set up, what a
//! key does on each screen, which screen follows which, and what is to be
//! drawn.  It reads no keyboard and draws on no terminal.  Events are handed to
//! [`app::App::handle_events`] as plain values, and [`app::App::render_frame`]
//! hands back a plain description of the screen.
//!
//! Every type that runs has a model, its view, and every operation is stated
//! over the models: [`board::Board`] for the board, [`components::MenuView`] for
//! the menus, [`app::AppView`] for the whole.

pub mod app;
pub mod board;
pub mod components;
pub mod hints;
pub mod input;
pub mod layout;
pub mod random;
pub mod render;
pub mod screens;
pub mod text;
pub mod traits;
