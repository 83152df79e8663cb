pub mod angle;
pub mod collision;
pub mod entity;
pub mod game;
pub mod geometry;
pub mod particles;
mod random;
