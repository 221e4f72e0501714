//! An authentication service: the request and response types, the session models,
//! the error types and their mappings, the configuration rules, and the pure parts
//! of the storage layer (key naming, lifetimes, record updates).

pub mod common;
pub mod dto;
pub mod models;
pub mod errors;
pub mod config;
pub mod repositories;
pub mod api;
