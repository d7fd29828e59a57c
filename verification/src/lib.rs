//! Core simulation logic of a tick-driven grid snake game: the snake's body,
//! its movement and growth rules, food consumption and regeneration, and
//! direction-change validation. Rendering, windowing and raw input handling
//! are left to the surrounding application.

pub mod game;
pub mod grid;
pub mod snake;
