//! The logic of a server that shows the sessions, windows and panes of tmux:
//! which commands to put to tmux, how to read its replies, how to complete a
//! target such as `5.1` to `session:window.pane`, and how to lay the results
//! out as aligned text. The library runs no process itself; `server` says
//! which command an operation needs next and is resumed with the reply.

pub mod command;
pub mod format;
pub mod number;
pub mod render;
pub mod rows;
pub mod server;
pub mod target;
pub mod text;
pub mod topology;
pub mod trace;
