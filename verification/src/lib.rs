//! Jimmy: a permissioned desktop companion.
//!
//! The verified core of the service: request authentication, the action
//! policy, the confirmation queue for sensitive actions, and the small state
//! machines behind the presence detector and the wake UI.

pub mod auth;
pub mod clock;
pub mod text;
pub mod config;
pub mod actions;
pub mod service;
pub mod upstream;
pub mod numbers;
pub mod presence;
pub mod wake_ui;
