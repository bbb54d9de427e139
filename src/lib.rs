//! Session, transport-decision and dispatch core of a display client that
//! attaches to a remote rendering server.
//!
//! The modules hold the logic; network, file system, threads and the window
//! live in the program around the library.
pub mod assets;
pub mod discovery;
pub mod dispatch;
pub mod history;
pub mod mailbox;
pub mod registration;
pub mod render_guard;
pub mod session;
pub mod text;
pub mod wire;
