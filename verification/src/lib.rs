//! Core logic of a desktop tool launcher: a registry of tool records
//! (name, category, path), search and category filtering, launch
//! dispatching with a pending-error state, and grid layout arithmetic.
pub mod dispatch;
pub mod grid;
pub mod registry;
pub mod state;
pub mod text;
