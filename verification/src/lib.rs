//! The core of a small desktop front-end for operating-system package updates.

pub mod controller;
pub mod display;
pub mod history;
pub mod runner;
pub mod text;
