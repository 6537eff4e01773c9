//! Request handling for a provider of tasks and lists kept in a relational
//! store: how each operation maps its input to a query, how the outcome of
//! that query becomes the uniform response envelope, and how results that come
//! as a sequence are emitted one message at a time.

pub mod entity;
pub mod response;
pub mod query;
pub mod service;
pub mod emitter;
pub mod store;
pub mod laws;
