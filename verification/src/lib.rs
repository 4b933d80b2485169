//! An embeddable line-editing runtime for terminal programs.
//!
//! The crate holds the state machine behind a "read a line, run an action,
//! repeat" loop: the line under edit and its cursor, the history of submitted
//! lines, the table of key bindings, the status by which a callback asks for a
//! redraw or for the end of the loop, and the runner that ties them together.
//! Reading keys and writing to the terminal or to a history file is left to
//! the caller: every operation takes plain values and says, in what it
//! returns, what is to be written.
pub mod history;
pub mod interface;
pub mod key;
pub mod line;
pub mod runner;
pub mod text;

pub use history::History;
pub use interface::{Action, AppInterface, Log, Quit, ReturnStatus};
pub use key::{Key, Keys};
pub use line::Line;
pub use runner::{App, Input, Next, Reaction};
