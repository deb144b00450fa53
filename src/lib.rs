//! Request/response translation between a small chat API and an OpenAI-style
//! chat-completion provider, with a demo mode used when no credential is set.
//!
//! The library holds the decisions; the network and the file system are
//! driven by the caller, which hands the results back as plain values.
pub mod config;
pub mod adapter;
pub mod handler;
pub mod home;
