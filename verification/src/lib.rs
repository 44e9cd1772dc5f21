//! Decision logic of a small Windows tool that keeps one chosen program in
//! front: hotkeys bring it forward, a tray icon pauses and resumes that, and
//! the choice is remembered between runs.
//!
//! Everything that talks to the operating system lives in the application
//! around this library; the library decides what should happen.
pub mod keyboard;

pub mod text;
pub mod program;
pub mod windows;
pub mod top;
pub mod tray;
pub mod registry;
