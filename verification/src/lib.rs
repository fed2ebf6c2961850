//! Prices and order books of a game's trading post: the documents that its
//! web API answers with, the price snapshot they are turned into, and a store
//! that keeps the snapshots of each item in the order in which they came.

pub mod api;
pub mod item;
pub mod provider;
pub mod store;
