pub mod ask;
pub mod constants;
pub mod embeddings;
pub mod error;
pub mod explain;
pub mod help;
pub mod helpers;
