//! Core logic for a terminal task dashboard: the menu/selection state
//! machine driven by a merged stream of key and tick events, the pure
//! view composer that turns `(state, snapshot)` into a layout tree, and
//! the timing arithmetic of the event producer.
//!
//! Everything that touches the terminal or the store file lives outside
//! this crate; the core consumes plain events and snapshots and hands
//! back plain layout data and requested store mutations.

pub mod state;
pub mod store;
pub mod task;
pub mod timing;
pub mod view;
