pub mod admin;
pub mod ai;
pub mod ai_explain;
pub mod ai_help;
pub mod auth;
pub mod chat;
pub mod collections;
pub mod common;
pub mod elastic;
pub mod error;
pub mod experiments;
pub mod fxa_webhook;
pub mod newsletter;
pub mod notifications;
pub mod ping;
pub mod play;
pub mod root;
pub mod search;
pub mod session_migration_middleware;
pub mod settings;
pub mod updates;
pub mod user_middleware;
pub mod v2;
pub mod watched_items;
pub mod whoami;
