//! Contacts, channels and messages, and the stores that keep them.
//!
//! `adapters` holds the identifier type, the contract of a store, the store
//! that keeps its entities in memory, and the document store's side of a store.
//! `models` holds the three kinds of entity, `commands` what a caller can ask
//! for, `services` the operations that answer the commands, and `api` the shape
//! of the requests that lead to them.

pub mod adapters;
pub mod api;
pub mod commands;
pub mod models;
pub mod services;
