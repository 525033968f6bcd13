//! A terminal splash screen library: layout and centering math for a fixed
//! ASCII-art banner, a render plan for each terminal size, parsing and
//! formatting of a repository sync status line, and the state machine of the
//! render/input loop. Terminal I/O itself is left to the binary around it.

pub mod events;
pub mod geometry;
pub mod screen;
pub mod status;
