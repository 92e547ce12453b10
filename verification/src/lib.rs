//! Core logic of the swarmd command line tool: project slugs, authentication
//! tokens, worker configuration, the API models and the decisions taken by the
//! commands, each with a proved contract.
pub mod auth;
pub mod cli;
pub mod client;
pub mod config;
pub mod dev;
pub mod login;
pub mod models;
pub mod runtime;
pub mod slug_rs;
pub mod update;
pub mod worker_config;
