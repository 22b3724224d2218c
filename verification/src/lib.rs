//! Host diagnostics: the decisions behind collecting system facts through
//! ordered chains of fallback commands, and behind relaying them over HTTP.

pub mod activation;
pub mod command;
pub mod connectivity;
pub mod engine;
pub mod hostname;
pub mod info;
pub mod relay;
pub mod serial;
pub mod text;
pub mod validity;
