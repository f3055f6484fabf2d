//! A small game launcher library: a SQLite-backed store of game records
//! (add, delete, list) and a launcher that validates an executable path
//! before it is run.

pub mod db;
pub mod game;
pub mod model;
pub mod runner;
pub mod select;
pub mod store;
