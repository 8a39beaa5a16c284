//! A terminal user-interface engine: styled text, scrollable viewports with
//! a cursor, line wrapping and cursor-row highlighting, key dispatch and the
//! render-loop state machine, plus the text rules of a git front end built
//! on it.

pub mod num;
pub mod text;
pub mod keys;
pub mod style;
pub mod geometry;
pub mod layout;
pub mod screen;
pub mod window;
pub mod bindings;
pub mod renderer;
pub mod git;
pub mod diff;
pub mod log;
pub mod status;
pub mod detail;
pub mod components;
