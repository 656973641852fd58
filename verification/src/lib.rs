//! Watch dispatcher for a folder of notes.
//!
//! The crate keeps one recursive filesystem watch alive at a time, classifies the
//! raw notifications of that watch into a small vocabulary of changes, and decides,
//! command by command, what the surrounding program has to do: tear a watch down,
//! install a new one, or hand a change to the consumer.  Everything here is a pure
//! decision over plain values; threads, the operating system's watch primitive and
//! the consumer itself live with the caller.

pub mod change;
pub mod channel;
pub mod command;
pub mod controller;
pub mod dispatch;
pub mod entity;
pub mod listing;
pub mod path;
pub mod system;
pub mod target;
pub mod text;
pub mod trace;
pub mod translator;
