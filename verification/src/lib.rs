//! A text-valued plugin parameter: its current value with change
//! notification, its name, unit, default and flags, and the text it is shown
//! as. Threads that share a parameter keep it behind a lock.

pub mod callback;
pub mod cell;
pub mod flags;
pub mod param;
