//! Verified core logic of the MDN Plus back-end: prompt building and token
//! budgeting for the AI features, quota bookkeeping, request validation,
//! search request construction and the error model of the HTTP API.

pub mod text;
pub mod ai;
pub mod api;
pub mod ai_test;
