//! Window placement for a tiling window manager: rectangle geometry, an
//! ordered client stack, and the built-in layouts with their command protocol.
pub mod geometry;
pub mod stack;
pub mod layout;
pub mod messages;
pub mod lemmas;
