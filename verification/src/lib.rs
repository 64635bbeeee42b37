//! OpenAI-compatible front end for the Cursor agent CLI: the verified core.

pub mod text;
pub mod json;
pub mod cursor;
pub mod openai;
pub mod config;
pub mod session;
pub mod metrics;
pub mod service;
pub mod server;
