//! Ingestion and retrieval of text items in a vector index: identity
//! resolution, optional translation before embedding, insert-time neighbor
//! scoring, and the point layout of a UUID-keyed vector store.

pub mod json;
pub mod identity;
pub mod translate;
pub mod config;
pub mod response;
pub mod model;
pub mod store;
pub mod ollama;
pub mod ingest;
pub mod search;
