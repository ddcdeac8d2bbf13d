//! The session logic of AstroMark, a graphical markdown editor: which tabs
//! are open and which one has the focus, when the file picker is up, what a
//! key press means, and which files were opened last.
//!
//! Nothing here touches a window, a file or the script engine. A message
//! goes in, the state changes, and a [`Task`](session::message::Task) comes
//! out that says what is left for the caller to do.

pub mod session;
pub mod utils;
