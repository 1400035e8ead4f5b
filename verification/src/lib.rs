//! Core logic of a terminal front end for the Unity command line tool:
//! the help menu model, fuzzy suggestion filtering, duration formatting
//! and the state machine that reacts to keys and finished background tasks.

pub mod text;
pub mod duration;
pub mod help;
pub mod sort;
pub mod fuzzy;
pub mod list;
pub mod model;
pub mod records;
pub mod app;
