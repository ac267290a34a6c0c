//! A key-value gateway's storage layer: the connection descriptor, the choice
//! of backend, and the decisions each backend makes around its medium.
pub mod descriptor;
pub mod engine;
pub mod error;
pub mod laws;
pub mod options;
pub mod reply;
pub mod restdb;
pub mod store;
pub mod text;
