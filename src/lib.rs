//! Input pipeline of a split keyboard: a debounced key-matrix scanner, the link
//! that merges the two halves' key masks, and a layered engine that turns key
//! states into an ordered stream of HID usage codes.

pub mod types;
pub mod queue;
pub mod model;
pub mod keyboard;
pub mod key_matrix;
pub mod split_link;
pub mod at24c;
pub mod laws;
pub mod key_map;
