//! Core of a pair of record-keeping services: stateless bearer-token
//! authentication that derives a caller identity, and an in-memory,
//! append-mostly ledger of owned records with owner-scoped queries and a
//! single asynchronous status transition per payment record.

pub mod auth;
pub mod ledger;
pub mod payment;
mod provider;
pub mod store;
pub mod text;
