//! An authenticated task-list service: credential hashing, signed session
//! tokens, identity resolution from request headers, and the rules by which a
//! user's list of items is changed.
pub mod credentials;
pub mod error;
pub mod identity;
pub mod model;
pub mod server;
pub mod service;
pub mod store;
pub mod token;
