//! Passkey sign-in ceremonies and one-person-one-vote polls.
pub mod config;
pub mod coordinator;
pub mod engine;
pub mod error;
pub mod live;
pub mod passkey;
pub mod polls;
pub mod session;
pub mod store;
pub mod users;
