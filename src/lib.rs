//! A keystroke-driven overlay's core: activity signals drive a two-frame
//! animation and a lifetime counter, whose value a background writer keeps
//! in local storage.
pub mod animation;
pub mod app;
pub mod config;
pub mod database;
pub mod decimal;
pub mod input;
pub mod writer;
