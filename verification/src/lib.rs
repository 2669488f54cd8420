//! Delay statistics for public transit, served from a relational store.
//!
//! The library holds what the service decides and computes: it checks the
//! parameters of a request ([`grammar`], [`filter`]), builds the one
//! statement that answers it ([`query`]), reads the rows that come back
//! ([`rows`]), gives every failure one shape ([`error`]) and says, step by
//! step, what is to be done for a request ([`dispatch`]). What the
//! statements mean is defined on lists of observations ([`observations`]).
//! Connections, the network and the process belong to the program around
//! the library.

pub mod calendar;
pub mod config;
pub mod dispatch;
pub mod error;
pub mod filter;
pub mod grammar;
pub mod models;
pub mod observations;
pub mod query;
pub mod rows;
pub mod text;
