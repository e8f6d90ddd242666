//! The registry of managed terminals, kept as a JSON file.

pub mod backend;
pub mod format;
pub mod model;
pub mod store;

pub use backend::{default_tmux_window, SessionEndpoint, TerminalBackend};
pub use model::{ManagedTerminal, Registry, TerminalStatus};
pub use store::{RegistryError, RegistryStore};

