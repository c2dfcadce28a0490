//! Schema-driven storage and similarity retrieval of embedded document chunks
//! in PostgreSQL with the pgvector extension.
//!
//! The crate compiles a declarative field model into the statements that
//! create the table and its indexes, write batches of nodes and query for
//! the nearest neighbours of an embedding. It sends nothing itself: a caller
//! executes the statements and hands the outcome back.

pub mod config;
pub mod error;
pub mod fields;
pub mod persist;
pub mod retrieve;
pub mod schema;
pub mod text;
pub mod transaction;

pub use config::{PgVector, PgVectorBuilder};
pub use fields::{FieldConfig, MetadataConfig, VectorConfig};
