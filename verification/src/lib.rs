//! A generic CRUD access layer between a REST facade and a document store.
//!
//! The heart of the crate is a storage-agnostic boolean query model
//! ([`repository::condition::Condition`]) together with a deterministic
//! translator that lowers it into the document store's native query shape
//! ([`repository::mongo::MongoDBConditionHandler`]), and the pure halves of
//! the per-entity repositories: record conversion, identifier encoding and
//! result interpretation. Everything that talks to the network lives outside
//! this crate and hands plain values in and out.

pub mod entity;
pub mod po;
pub mod repository;
pub mod route;
pub mod service;
