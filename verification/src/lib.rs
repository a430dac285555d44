//! Execution control for a command-line process debugger: breakpoints patched
//! into a traced process word by word, stepping and resuming around them, the
//! classification of stops, frame-pointer backtraces, and the session that
//! turns commands into these operations.
//!
//! The crate also holds four small pieces that stand on their own: a singly
//! linked list ([`linked_list`]), the counting of the words and characters
//! of a text ([`rwc`]), the dealing out of items to workers in turn
//! ([`chunks`]), and the Game of Life on a grid ([`grid`]).

pub mod breakpoint;
pub mod chunks;
pub mod debugger;
pub mod debugger_command;
pub mod dwarf_data;
pub mod grid;
pub mod inferior;
pub mod linked_list;
pub mod rwc;
pub mod status;
pub mod sys;
pub mod text;
pub mod word;
