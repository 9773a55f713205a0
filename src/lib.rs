//! A small task store: tasks with monotonically issued ids, kept in a map the
//! store owns, with every operation verified against a model of the store.

pub mod lemmas;
pub mod model;
pub mod store;

pub use store::{Task, Todo};
