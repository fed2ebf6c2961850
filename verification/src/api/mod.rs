//! The trading post's web API: the documents it answers with, and the client
//! that says where to ask and what an answer amounts to.

pub mod client;
pub mod model;

pub use client::Client;
