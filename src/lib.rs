//! An interactive terminal list selector, its colour preference, a two-column
//! line formatter and the small JSON settings store behind them.
//!
//! Everything here computes: terminal and file I/O are left to the caller,
//! which hands in keys and file contents and writes out the strings returned.
use vstd::prelude::*;

pub mod color;
pub mod column;
pub mod config;
pub mod dir;
pub mod selector;
pub mod term;
