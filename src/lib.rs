//! Orchestration of a tool-using conversational model, with the data model of
//! the request explorer that presents it.

pub mod text;
pub mod message;
pub mod wire;
pub mod catalog;
pub mod session;
pub mod agent;
pub mod tools;
pub mod events;
pub mod model;
pub mod view;
pub mod counter;
