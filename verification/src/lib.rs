//! Authentication and authorization core for a user directory service:
//! the role-based permission model, token verification against a rotating
//! key set, time-bounded caches, and the decisions taken by each request
//! handler.

pub mod auth_flow;
pub mod cache;
pub mod client_manager;
pub mod cognito;
pub mod config;
pub mod errors;
pub mod events;
pub mod flow;
pub mod keyset;
pub mod orchestrator;
pub mod password;
pub mod patterns;
pub mod permissions;
pub mod repository;
pub mod requests;
pub mod secrets;
pub mod text;
pub mod user_flow;
pub mod token;
pub mod user;
