//! A directory-browsing state machine.
//!
//! The library owns the navigation state of a filesystem browser: a stack of
//! visited directory paths, the most recently loaded listing of children, and
//! the most recent unresolved error. It performs no I/O itself: the caller
//! reads the filesystem and hands the outcome of each listing attempt to the
//! state machine as plain values.

pub mod navigator;
