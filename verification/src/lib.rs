//! A service that turns markdown into PDF, as a library of decisions.
//!
//! A request is served in three steps. [`document`] normalizes the markdown
//! to an HTML document. [`render`] takes that document through the external
//! renderer, by way of two scratch files that [`job`] names and a command
//! line that [`tool`] fixes; [`rendering`] holds what is proved of every such
//! passage. [`http`] says what the client is answered.
//!
//! The library does no input or output of its own. Whoever uses it writes the
//! files, runs the renderer and speaks HTTP, and asks the library at each
//! point what is to be done.

pub mod document;
pub mod http;
pub mod job;
pub mod render;
pub mod rendering;
pub mod tool;
