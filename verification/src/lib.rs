//! A distraction-free writing session: a title, a body that only grows at its
//! end, optional word and time goals, an optional idle timeout that wipes the
//! body, and the projection of the body into a small viewport.

pub mod goals;
pub mod idle;
pub mod screen;
pub mod session;
pub mod settings;
pub mod text;
pub mod timeline;
pub mod wrap;
