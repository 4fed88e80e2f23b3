pub mod entity;
pub mod gamestate;
pub mod geometry;
pub mod lemmas;
