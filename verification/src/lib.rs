//! Core of a minimal account service: password-credential handling, stateless
//! signed session tokens, bearer-scheme identity extraction, and the closed
//! error taxonomy that every operation reports through.  Transport and
//! storage are collaborators: handlers here take their answers as plain
//! values and decide the outcome.

pub mod auth;
pub mod config;
pub mod password;
pub mod response;
pub mod token;
pub mod user;
