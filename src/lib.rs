//! An encrypted URL mapping store: short codes map to URLs that are kept
//! encrypted at rest in a key-value store.
pub mod text;
pub mod codec;
pub mod encryption;
pub mod repository;
pub mod service;
pub mod model;
pub mod config;
pub mod handlers;
pub mod validator;
