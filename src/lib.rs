//! A terminal todo-list manager's core: the task store, the selection cursor,
//! the mode-driven input state machine and the ephemeral notification.
pub mod app;
pub mod input;
pub mod laws;
pub mod store;
pub mod text;
pub mod time;
pub mod todo;

pub use app::{App, InputMode, MessageKind};
pub use input::{handle_input, handle_input_at, Effect, Key};
pub use store::Filter;
pub use time::Timestamp;
pub use todo::{Priority, Todo};
