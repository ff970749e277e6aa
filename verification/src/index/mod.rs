//! The search index: its schema, its terms and the queries run against it.

pub mod code;
pub mod corpus;
pub mod embedding;
pub mod query;
pub mod schema;
pub mod term;

pub use embedding::{binarize_embedding, embedding_tokens_query, new_multiterms_const_query};
pub use schema::IndexSchema;
