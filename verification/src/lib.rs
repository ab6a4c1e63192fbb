pub mod catalog;
pub mod game;
pub mod render;
pub mod text;
