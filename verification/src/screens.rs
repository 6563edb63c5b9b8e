//! The four screens of the game.

pub mod end;
pub mod game;
pub mod home;
pub mod settings;
