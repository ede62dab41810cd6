//! Input resolution for a modal text editor: mode-scoped chord tables and an
//! incremental matcher that turns a stream of key events into command lists.

pub mod chord;
pub mod chord_table;
pub mod key;
pub mod keymapper;
pub mod mode;
pub mod resolver;
pub mod resolver_laws;
pub mod revi_command;
