//! A verified core for a NodeDB studio: the saved-connection registry, the
//! session model, error categories, identity parsing and connect decisions.

pub mod models;
pub mod registry;
pub mod session;
pub mod mock;
pub mod auth;
pub mod text;
pub mod error;
pub mod async_state;
pub mod capabilities_map;
pub mod identity;
pub mod service;
pub mod routes;
pub mod ui;
pub mod laws;
