//! Interactive multi-stage authentication for a federated messaging server,
//! with the rules on URL previews and the server's command line.
//!
//! A server declares the flows by which a client may prove who it is; each
//! flow is a list of stages. Over several round trips the client submits one
//! proof per attempt, and the engine in [`service`] records which stages
//! are completed until one flow is satisfied. What the engine decides is
//! stated in the contracts of its functions, over the mathematical values
//! of its types, and [`laws`] holds what follows for every attempt.
//!
//! The engine asks nobody: what the account service found about a password
//! and what the token file holds come in with each attempt, as
//! [`auth::Evidence`]. It owns the stored sessions, so that whoever holds it
//! exclusively has a session's read, verify and write sequence to themselves.

pub mod address;
pub mod args;
pub mod auth;
pub mod error;
pub mod fetch;
pub mod flow;
pub mod identity;
pub mod info;
pub mod laws;
pub mod number;
pub mod preview;
pub mod service;
pub mod settings;
pub mod stage;
pub mod store;
pub mod text;
pub mod tokens;
pub mod verify;
