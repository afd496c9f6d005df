//! A small service core for a table of jokes: the records, the table that
//! holds them, the classification of what an operation came to, and the
//! handlers that turn such an outcome into a response.

pub mod handler;
pub mod models;
pub mod status;
pub mod store;
