//! A small notes service: a store of notes kept as one flat file, and the
//! choice of what its pages show.
pub mod pages;
pub mod server;
pub mod store;
