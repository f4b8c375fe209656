//! The decisions of a small service that keeps student records in a document
//! store: which store command a request leads to, and which response a store
//! reply leads to. The store itself and the HTTP transport stay outside; they
//! hand plain values in and take plain values back.

pub mod error;
pub mod handlers;
pub mod laws;
pub mod model;
pub mod response;
pub mod routes;
pub mod store;
pub mod student_id;
