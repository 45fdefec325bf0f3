//! Opening files with the default applications of a freedesktop system:
//! reading desktop entries, searching the XDG data directories for them, and
//! turning an entry's `Exec` value into an argument vector without a shell.

pub mod application;
pub mod commands;
pub mod desktop_entry;
pub mod expand;
pub mod search;
pub mod text;
pub mod tokenize;
