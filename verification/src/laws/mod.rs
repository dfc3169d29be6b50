//! What the operations of the library are for, stated of all their inputs:
//! what a reader of a report reads, which cell a pixel is in, what is scrolled,
//! selected, opened or painted. The statements take results apart and compare
//! them with the inputs; they do not follow how the results are made.

pub mod commands;
pub mod looks;
pub mod mouse;
pub mod places;
pub mod search;
