//! Editing core of a minimal full-screen terminal text editor: a line buffer,
//! a cursor that moves by display columns, a scrolling viewport and the list
//! of drawing commands that paints them.

pub mod text;
pub mod theorems;
pub mod width;
pub mod model;
pub mod render;
pub mod session;
pub mod editor;

pub use editor::{EditorResult, SkullEditor};
