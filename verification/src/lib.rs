//! The decision logic of the DS game viewer: which view a game code selects,
//! how game objects are read out of emulator memory, how the scene graph of
//! New Super Mario Bros. is followed, how header files are gathered and how
//! the background type-loading task and the application state evolve.

pub mod app;
pub mod config;
pub mod tasks;
pub mod text;
pub mod views;
