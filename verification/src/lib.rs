//! The core of a terminal form that collects the coefficients of a one-variable
//! or a two-variable linear system and shows the narrated solution: the screens,
//! the keys that move between them, and what a submitted form turns into.

pub mod app;
pub mod key;
pub mod laws;
pub mod screen;
pub mod solver;
pub mod text;
pub mod themes;
pub mod ui;
